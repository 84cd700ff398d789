//! What a surface is made of.
use vstd::prelude::*;
use crate::raytracer::basics::Albedo;
use crate::raytracer::basics::Color;
use crate::raytracer::scalar::Scalar;
use crate::raytracer::scalar::ONE_BITS;
use crate::raytracer::scalar::ZERO_BITS;

verus! {

/// Fifty, the specular exponent of the default material and of ivory.
pub const FIFTY_BITS: u64 = 0x4049_0000_0000_0000;

/// The material of a surface: its own colour, how it shares the light out
/// among the four channels, how sharp its highlight is and how strongly it
/// bends the light that enters it.
#[derive(Clone, Copy, Debug)]
pub struct Material {
    pub diffuse_color: Color,
    pub albedo: Albedo,
    pub specular_exponent: Scalar,
    pub refractive_index: Scalar,
}

impl Material {
    /// The material that `default` gives: white, purely diffuse, with a
    /// specular exponent of fifty and a refractive index of one.
    pub open spec fn plain() -> Material {
        Material {
            diffuse_color: Color::primary(true, true, true),
            albedo: Albedo {
                diffusive: Scalar::one(),
                specular: Scalar::zero(),
                reflective: Scalar::zero(),
                refractive: Scalar::zero(),
            },
            specular_exponent: Scalar::from_bits(FIFTY_BITS),
            refractive_index: Scalar::one(),
        }
    }

    /// The refractive indices of the medium that a ray leaves and of the one
    /// that it enters, in that order. Outside the solid is air, whose index
    /// is one.
    pub open spec fn refraction_indices_spec(&self, is_outside: bool) -> (Scalar, Scalar) {
        if is_outside {
            (Scalar::one(), self.refractive_index)
        } else {
            (self.refractive_index, Scalar::one())
        }
    }

    pub fn new(
        diffuse_color: Color,
        albedo: Albedo,
        specular_exponent: Scalar,
        refractive_index: Scalar,
    ) -> (m: Material)
        ensures
            m == (Material { diffuse_color, albedo, specular_exponent, refractive_index }),
    {
        Material { diffuse_color, albedo, specular_exponent, refractive_index }
    }

    /// Ivory: colour (0.4, 0.4, 0.3), weights (0.6, 0.3, 0.1, 0), exponent
    /// fifty, index one.
    pub fn ivory() -> (m: Material)
        ensures
            m.diffuse_color.r.bits == 0x3fd9_9999_9999_999a,
            m.diffuse_color.g.bits == 0x3fd9_9999_9999_999a,
            m.diffuse_color.b.bits == 0x3fd3_3333_3333_3333,
            m.albedo.diffusive.bits == 0x3fe3_3333_3333_3333,
            m.albedo.specular.bits == 0x3fd3_3333_3333_3333,
            m.albedo.reflective.bits == 0x3fb9_9999_9999_999a,
            m.albedo.refractive.bits == ZERO_BITS,
            m.specular_exponent.bits == FIFTY_BITS,
            m.refractive_index.bits == ONE_BITS,
    {
        Material {
            diffuse_color: Color {
                r: Scalar { bits: 0x3fd9_9999_9999_999a },
                g: Scalar { bits: 0x3fd9_9999_9999_999a },
                b: Scalar { bits: 0x3fd3_3333_3333_3333 },
            },
            albedo: Albedo {
                diffusive: Scalar { bits: 0x3fe3_3333_3333_3333 },
                specular: Scalar { bits: 0x3fd3_3333_3333_3333 },
                reflective: Scalar { bits: 0x3fb9_9999_9999_999a },
                refractive: Scalar::zero(),
            },
            specular_exponent: Scalar::from_bits(FIFTY_BITS),
            refractive_index: Scalar::one(),
        }
    }

    #[verifier::when_used_as_spec(refraction_indices_spec)]
    pub fn refraction_indices(&self, is_outside: bool) -> (indices: (Scalar, Scalar))
        ensures
            indices == self.refraction_indices_spec(is_outside),
    {
        if is_outside {
            (Scalar::one(), self.refractive_index)
        } else {
            (self.refractive_index, Scalar::one())
        }
    }
}

impl Default for Material {
    fn default() -> (m: Material)
        ensures
            m == Material::plain(),
    {
        Material {
            diffuse_color: Color::white(),
            albedo: Albedo::new(Scalar::one(), Scalar::zero(), Scalar::zero(), Scalar::zero()),
            specular_exponent: Scalar::from_bits(FIFTY_BITS),
            refractive_index: Scalar::one(),
        }
    }
}

/// A surface whose refractive index is one bends no ray: whichever side the
/// ray comes from, it leaves and enters media of the same index.
pub proof fn lemma_index_one_matches_air(material: Material, is_outside: bool)
    requires
        material.refractive_index.bits == ONE_BITS,
    ensures
        material.refraction_indices(is_outside).0 == material.refraction_indices(is_outside).1,
{
}

} // verus!
