//! The surfaces that a ray can meet.
use vstd::prelude::*;
use crate::raytracer::world::objects::box_3d::AABBox;
use crate::raytracer::world::objects::material::Material;
use crate::raytracer::world::objects::sphere::GradientSphere;
use crate::raytracer::world::objects::sphere::Sphere;

pub mod box_3d;
pub mod light;
pub mod material;
pub mod sphere;

verus! {

/// A surface of one of the kinds that the tracer knows.
#[derive(Clone, Copy, Debug)]
pub enum Visible {
    Sphere(Sphere),
    GradientSphere(GradientSphere),
    AABBox(AABBox),
}

impl Visible {
    /// The material that the surface was made with.
    pub open spec fn material_spec(&self) -> Material {
        match *self {
            Visible::Sphere(sphere) => sphere.material,
            Visible::GradientSphere(gradient) => gradient.0.material,
            Visible::AABBox(bbox) => bbox.material_spec(),
        }
    }

    /// The material that the surface was made with. A gradient sphere
    /// replaces its colour point by point: see `GradientSphere::material_of`.
    #[verifier::when_used_as_spec(material_spec)]
    pub fn material(&self) -> (m: Material)
        ensures
            m == self.material_spec(),
    {
        match self {
            Visible::Sphere(sphere) => sphere.material,
            Visible::GradientSphere(gradient) => gradient.0.material,
            Visible::AABBox(bbox) => bbox.material(),
        }
    }
}

} // verus!
