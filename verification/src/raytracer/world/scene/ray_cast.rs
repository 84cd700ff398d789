//! The two ways of resolving a ray into a colour, as the decisions that each
//! of them takes. The caller finds what a ray meets and does the arithmetic
//! on colours; a strategy says what is to be done next.
use vstd::prelude::*;
use crate::raytracer::scalar::Scalar;
use crate::raytracer::world::objects::material::Material;

verus! {

/// The depth past which the deterministic strategy casts no further ray.
pub const RECURSION_DEPTH: usize = 5;

/// Where the colour of one indirect channel comes from.
#[derive(Clone, Copy, Debug, PartialEq, Eq, Structural)]
pub enum Secondary {
    /// From a secondary ray, cast at `depth`.
    Trace { depth: usize },
    /// From the background behind the primary ray.
    Background,
}

/// What one cast of a ray comes to.
#[derive(Clone, Copy, Debug, PartialEq, Eq, Structural)]
pub enum Cast {
    /// The recursion is exhausted: the colour is black.
    Black,
    /// The ray met nothing: the colour is that of the background.
    Background,
    /// The ray met a surface that is lit directly and, through each of the
    /// two indirect channels, by what `reflective` and `refractive` say. The
    /// four colours are combined by the weights of the surface.
    Shade { reflective: Secondary, refractive: Secondary },
    /// The ray met a surface from which one ray bounces off into the
    /// hemisphere of the normal. The colour is half of what that ray, cast
    /// at `depth`, comes to.
    Bounce { depth: usize },
}

/// On which side of a surface a secondary ray starts. Its origin is moved
/// off the surface by the ray bias, along the normal where the ray runs to
/// the side of the normal, and against it otherwise. `cosine` is the dot
/// product of the direction of the ray and the normal.
pub open spec fn leaves_along_normal_spec(cosine: Scalar) -> bool {
    cosine.gt(Scalar::zero())
}

#[verifier::when_used_as_spec(leaves_along_normal_spec)]
pub fn leaves_along_normal(cosine: Scalar) -> (along: bool)
    ensures
        along == leaves_along_normal_spec(cosine),
{
    cosine.gt(Scalar::zero())
}

/// A strategy decides, from the depth of a ray and from what the ray met,
/// what the cast comes to.
pub trait RayCastStrategy {
    /// Whether the recursion is exhausted at `depth`.
    spec fn exhausted(&self, depth: usize) -> bool;

    spec fn cast_spec(&self, depth: usize, hit: Option<Material>) -> Cast;

    /// Whether the recursion is exhausted at `depth`, so that a ray cast
    /// there is black whatever it would meet, and need not be followed.
    fn is_exhausted(&self, depth: usize) -> (done: bool)
        ensures
            done == self.exhausted(depth),
    ;

    /// `hit` is the material at the nearest point that the ray met, if it met
    /// any. At depth `usize::MAX` there is no deeper ray to ask for, so a cast
    /// there is asked for only where the recursion is exhausted.
    fn cast_ray(&self, depth: usize, hit: Option<Material>) -> (cast: Cast)
        requires
            depth < usize::MAX || self.exhausted(depth),
        ensures
            cast == self.cast_spec(depth, hit),
            cast is Black <==> self.exhausted(depth),
    ;
}

/// The deterministic strategy: direct light with shadows, and one reflected
/// and one refracted ray wherever the surface gives them weight.
#[derive(Clone, Copy, Debug, Default)]
pub struct Lambertian;

impl Lambertian {
    /// An indirect channel is traced exactly when its weight is above zero.
    pub open spec fn secondary(weight: Scalar, depth: usize) -> Secondary {
        if weight.gt(Scalar::zero()) {
            Secondary::Trace { depth: (depth + 1) as usize }
        } else {
            Secondary::Background
        }
    }

    /// A light reaches a point exactly when the surface faces it and nothing
    /// stands nearer to the point than the light does. `cosine` is the dot
    /// product of the normal and the direction to the light; `blocker` is how
    /// far along the shadow ray the nearest surface lies, if there is one.
    pub open spec fn light_reaches_spec(
        cosine: Scalar,
        blocker: Option<Scalar>,
        light_distance: Scalar,
    ) -> bool {
        Self::faces_light(cosine) && !Self::is_shadowed(blocker, light_distance)
    }

    /// Whether a surface faces a light.
    pub open spec fn faces_light_spec(cosine: Scalar) -> bool {
        cosine.gt(Scalar::zero())
    }

    /// Whether the nearest surface along the shadow ray is strictly nearer
    /// than the light.
    pub open spec fn is_shadowed_spec(blocker: Option<Scalar>, light_distance: Scalar) -> bool {
        match blocker {
            Some(distance) => distance.lt(light_distance),
            None => false,
        }
    }

    #[verifier::when_used_as_spec(faces_light_spec)]
    pub fn faces_light(cosine: Scalar) -> (facing: bool)
        ensures
            facing == Self::faces_light_spec(cosine),
    {
        cosine.gt(Scalar::zero())
    }

    #[verifier::when_used_as_spec(is_shadowed_spec)]
    pub fn is_shadowed(blocker: Option<Scalar>, light_distance: Scalar) -> (shadowed: bool)
        ensures
            shadowed == Self::is_shadowed_spec(blocker, light_distance),
    {
        match blocker {
            Some(distance) => distance.lt(light_distance),
            None => false,
        }
    }

    #[verifier::when_used_as_spec(light_reaches_spec)]
    pub fn light_reaches(cosine: Scalar, blocker: Option<Scalar>, light_distance: Scalar) -> (lit:
        bool)
        ensures
            lit == Self::light_reaches_spec(cosine, blocker, light_distance),
    {
        Self::faces_light(cosine) && !Self::is_shadowed(blocker, light_distance)
    }
}

impl RayCastStrategy for Lambertian {
    open spec fn exhausted(&self, depth: usize) -> bool {
        depth > RECURSION_DEPTH
    }

    open spec fn cast_spec(&self, depth: usize, hit: Option<Material>) -> Cast {
        if depth > RECURSION_DEPTH {
            Cast::Black
        } else {
            match hit {
                None => Cast::Background,
                Some(material) => Cast::Shade {
                    reflective: Self::secondary(material.albedo.reflective, depth),
                    refractive: Self::secondary(material.albedo.refractive, depth),
                },
            }
        }
    }

    fn is_exhausted(&self, depth: usize) -> (done: bool) {
        depth > RECURSION_DEPTH
    }

    fn cast_ray(&self, depth: usize, hit: Option<Material>) -> (cast: Cast) {
        if depth > RECURSION_DEPTH {
            return Cast::Black;
        }
        match hit {
            None => Cast::Background,
            Some(material) => {
                let reflective = if material.albedo.reflective().gt(Scalar::zero()) {
                    Secondary::Trace { depth: depth + 1 }
                } else {
                    Secondary::Background
                };
                let refractive = if material.albedo.refractive().gt(Scalar::zero()) {
                    Secondary::Trace { depth: depth + 1 }
                } else {
                    Secondary::Background
                };
                Cast::Shade { reflective, refractive }
            },
        }
    }
}

/// The stochastic strategy: at each surface one ray bounces off in a random
/// direction, and the light it brings back is halved.
#[derive(Clone, Copy, Debug)]
pub struct MonteCarlo {
    pub recursion_depth: usize,
}

/// What a whole path of the stochastic strategy brings back, before any
/// arithmetic: nothing, or the background behind its last ray, halved once
/// for every bounce on the way.
pub enum Radiance {
    Black,
    Background { halvings: nat },
}

impl Radiance {
    /// Half of the radiance. Half of black is black.
    pub open spec fn halved(self) -> Radiance {
        match self {
            Radiance::Black => Radiance::Black,
            Radiance::Background { halvings } => Radiance::Background { halvings: halvings + 1 },
        }
    }
}

impl MonteCarlo {
    /// What the path brings back whose ray at depth `d` meets `met(d)`,
    /// followed from `depth` on.
    pub open spec fn path(&self, depth: usize, met: spec_fn(usize) -> Option<Material>) -> Radiance
        decreases self.recursion_depth + 1 - depth,
    {
        if self.exhausted(depth) || depth == usize::MAX {
            Radiance::Black
        } else {
            match self.cast_spec(depth, met(depth)) {
                Cast::Bounce { depth: next } => self.path(next, met).halved(),
                Cast::Background => Radiance::Background { halvings: 0 },
                _ => Radiance::Black,
            }
        }
    }

    /// A sampled direction is turned round when it does not point into the
    /// hemisphere of the normal. `cosine` is its dot product with the normal.
    pub open spec fn flips_spec(cosine: Scalar) -> bool {
        !cosine.gt(Scalar::zero())
    }

    pub fn new(recursion_depth: usize) -> (caster: MonteCarlo)
        ensures
            caster.recursion_depth == recursion_depth,
    {
        MonteCarlo { recursion_depth }
    }

    #[verifier::when_used_as_spec(flips_spec)]
    pub fn flips(cosine: Scalar) -> (flip: bool)
        ensures
            flip == Self::flips_spec(cosine),
    {
        !cosine.gt(Scalar::zero())
    }
}

impl Default for MonteCarlo {
    /// Ten bounces at most.
    fn default() -> (caster: MonteCarlo)
        ensures
            caster.recursion_depth == 10,
    {
        MonteCarlo { recursion_depth: 10 }
    }
}

impl RayCastStrategy for MonteCarlo {
    open spec fn exhausted(&self, depth: usize) -> bool {
        depth > self.recursion_depth
    }

    open spec fn cast_spec(&self, depth: usize, hit: Option<Material>) -> Cast {
        if depth > self.recursion_depth {
            Cast::Black
        } else if hit is None {
            Cast::Background
        } else {
            Cast::Bounce { depth: (depth + 1) as usize }
        }
    }

    fn is_exhausted(&self, depth: usize) -> (done: bool) {
        depth > self.recursion_depth
    }

    fn cast_ray(&self, depth: usize, hit: Option<Material>) -> (cast: Cast) {
        if depth > self.recursion_depth {
            Cast::Black
        } else if hit.is_none() {
            Cast::Background
        } else {
            Cast::Bounce { depth: depth + 1 }
        }
    }
}

/// With a recursion bound of zero, a path whose first ray meets a surface
/// brings back black, whatever the bounced ray would have met.
pub proof fn lemma_bound_zero_is_black(caster: MonteCarlo, met: spec_fn(usize) -> Option<Material>)
    requires
        caster.recursion_depth == 0,
        met(0) is Some,
    ensures
        caster.path(0, met) == Radiance::Black,
{
    reveal_with_fuel(MonteCarlo::path, 2);
}

/// A ray that meets nothing sees the background, by either strategy and at
/// any depth at which the recursion is not exhausted: so does every primary
/// ray that points away from all there is.
pub proof fn lemma_miss_sees_background(caster: MonteCarlo, depth: usize)
    ensures
        !Lambertian.exhausted(depth) ==> Lambertian.cast_spec(depth, None) == Cast::Background,
        !caster.exhausted(depth) ==> caster.cast_spec(depth, None) == Cast::Background,
        Lambertian.cast_spec(0, None) == Cast::Background,
        caster.cast_spec(0, None) == Cast::Background,
{
}

/// A light gives nothing to a point where another surface stands strictly
/// nearer to the point than the light does, however the surface faces it.
pub proof fn lemma_occluded_light_gives_nothing(
    cosine: Scalar,
    blocker: Scalar,
    light_distance: Scalar,
)
    requires
        blocker.lt(light_distance),
    ensures
        !Lambertian::light_reaches(cosine, Some(blocker), light_distance),
{
}

/// The deterministic strategy never asks for a ray deeper than one past its
/// bound, and a ray at that depth ends the recursion.
pub proof fn lemma_lambertian_depth_bounded(depth: usize, hit: Option<Material>)
    ensures
        (Lambertian.cast_spec(depth, hit) matches Cast::Shade { reflective, refractive } ==> {
            &&& depth <= RECURSION_DEPTH
            &&& (reflective matches Secondary::Trace { depth: next } ==> next == depth + 1)
            &&& (refractive matches Secondary::Trace { depth: next } ==> next == depth + 1)
        }),
        depth > RECURSION_DEPTH ==> Lambertian.cast_spec(depth, hit) == Cast::Black,
{
}

} // verus!
