//! Spheres, and which root of the ray's quadratic is the hit.
use vstd::prelude::*;
use crate::raytracer::basics::Color;
use crate::raytracer::basics::Interval;
use crate::raytracer::basics::Position;
use crate::raytracer::scalar::Scalar;
use crate::raytracer::world::objects::material::Material;

verus! {

/// What the quadratic of a ray and a sphere comes to: its discriminant and
/// the two distances along the ray at which it vanishes, `near` no greater
/// than `far`. The roots mean nothing where the discriminant is negative.
#[derive(Clone, Copy, Debug)]
pub struct Roots {
    pub discriminant: Scalar,
    pub near: Scalar,
    pub far: Scalar,
}

impl Roots {
    /// Whether a root counts as a hit: it lies ahead of the origin of the
    /// ray, above zero, and in the interval.
    pub open spec fn counts(root: Scalar, interval: Interval) -> bool {
        root.gt(Scalar::zero()) && interval.contains(root)
    }

    /// The nearer of the two roots that counts. There is none where the
    /// discriminant is negative, nor where neither root counts.
    pub open spec fn nearest_in(&self, interval: Interval) -> Option<Scalar> {
        if self.discriminant.lt(Scalar::zero()) {
            None
        } else if Self::counts(self.near, interval) {
            Some(self.near)
        } else if Self::counts(self.far, interval) {
            Some(self.far)
        } else {
            None
        }
    }
}

/// A sphere of one material.
#[derive(Clone, Copy, Debug)]
pub struct Sphere {
    pub center: Position,
    pub radius: Scalar,
    pub material: Material,
}

impl Sphere {
    pub fn new(center: Position, radius: Scalar, material: Material) -> (sphere: Sphere)
        ensures
            sphere == (Sphere { center, radius, material }),
    {
        Sphere { center, radius, material }
    }

    /// The distance at which a ray hits the sphere, given the roots of its
    /// quadratic: the near root where the ray starts outside, the far root
    /// where it starts inside or on the sphere, so that the near root is not
    /// above zero, and nothing where neither is above zero and in `interval`.
    pub fn hit_by_ray(roots: &Roots, interval: &Interval) -> (hit: Option<Scalar>)
        ensures
            hit == roots.nearest_in(*interval),
    {
        let zero = Scalar::zero();
        if roots.discriminant.lt(zero) {
            None
        } else if roots.near.gt(zero) && interval.contains(roots.near) {
            Some(roots.near)
        } else if roots.far.gt(zero) && interval.contains(roots.far) {
            Some(roots.far)
        } else {
            None
        }
    }
}

/// A sphere whose colour at a point follows its normal there.
#[derive(Clone, Copy, Debug)]
pub struct GradientSphere(pub Sphere);

impl GradientSphere {
    /// A sphere of the default material.
    pub fn new(center: Position, radius: Scalar) -> (gradient: GradientSphere)
        ensures
            gradient.0 == (Sphere { center, radius, material: Material::plain() }),
    {
        GradientSphere(Sphere::new(center, radius, Material::default()))
    }

    /// As `Sphere::hit_by_ray`: the shape is that of a sphere.
    pub fn hit_by_ray(roots: &Roots, interval: &Interval) -> (hit: Option<Scalar>)
        ensures
            hit == roots.nearest_in(*interval),
    {
        Sphere::hit_by_ray(roots, interval)
    }

    /// The material at a point: that of the sphere, with `gradient_color`,
    /// the colour that stands for the normal there, in place of its own.
    pub fn material_of(&self, gradient_color: Color) -> (m: Material)
        ensures
            m == (Material { diffuse_color: gradient_color, ..self.0.material }),
    {
        let mut material = self.0.material;
        material.diffuse_color = gradient_color;
        material
    }
}

/// A hit of a sphere lies ahead of the origin of the ray, above zero, and in
/// the interval it was asked for, so it is no NaN; and it is one of the two
/// roots. A ray that passes the sphere by, so that the discriminant is
/// negative, hits nothing.
pub proof fn lemma_sphere_hit_in_interval(roots: Roots, interval: Interval)
    ensures
        roots.discriminant.lt(Scalar::zero()) ==> roots.nearest_in(interval) is None,
        roots.nearest_in(interval) matches Some(t) ==> t.gt(Scalar::zero()) && interval.contains(t)
            && !t.is_nan() && (t == roots.near || t == roots.far),
        roots.nearest_in(interval) is None ==> roots.discriminant.lt(Scalar::zero()) || (
        !Roots::counts(roots.near, interval) && !Roots::counts(roots.far, interval)),
{
}

/// A ray that starts inside a sphere, or on it, hits it at the far root: where
/// the quadratic has roots, the near root is not above zero, and the far root
/// is above zero and in the interval, the far root is the hit, whether or not
/// the interval holds the near root.
pub proof fn lemma_from_inside_the_far_root_is_hit(roots: Roots, interval: Interval)
    requires
        !roots.discriminant.lt(Scalar::zero()),
        !roots.near.gt(Scalar::zero()),
        roots.far.gt(Scalar::zero()),
        interval.contains(roots.far),
    ensures
        roots.nearest_in(interval) == Some(roots.far),
{
}

/// A ray that starts outside a sphere and runs towards it hits it at the near
/// root: where the quadratic has roots and the near root is above zero and
/// in the interval, the near root is the hit.
pub proof fn lemma_from_outside_the_near_root_is_hit(roots: Roots, interval: Interval)
    requires
        !roots.discriminant.lt(Scalar::zero()),
        roots.near.gt(Scalar::zero()),
        interval.contains(roots.near),
    ensures
        roots.nearest_in(interval) == Some(roots.near),
{
}

} // verus!
