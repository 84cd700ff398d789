//! The value types of the tracer: points, colours, the four weights of a
//! surface and the interval in which a hit counts.
use vstd::prelude::*;
use vstd::arithmetic::power2::pow2;
use crate::raytracer::scalar::Scalar;
use crate::raytracer::scalar::INFINITY_BITS;
use crate::raytracer::scalar::NEG_INFINITY_BITS;
use crate::raytracer::scalar::ONE_BITS;
use crate::raytracer::scalar::ZERO_BITS;

verus! {

/// The tolerance within which a point counts as lying on a surface: 1e-6.
pub const EPSILON_BITS: u64 = 0x3eb0_c6f7_a0b5_ed8d;

/// The least distance at which a ray may hit, so that a ray never hits the
/// surface it starts on: 1e-3.
pub const RAY_BIAS_BITS: u64 = 0x3f50_624d_d2f1_a9fc;

/// The surface tolerance as a value.
pub open spec fn epsilon_spec() -> Scalar {
    Scalar { bits: EPSILON_BITS }
}

/// The surface tolerance as a value.
#[verifier::when_used_as_spec(epsilon_spec)]
pub fn epsilon() -> (e: Scalar)
    ensures
        e == epsilon_spec(),
{
    Scalar { bits: EPSILON_BITS }
}

/// The ray bias as a value.
pub open spec fn ray_bias_spec() -> Scalar {
    Scalar { bits: RAY_BIAS_BITS }
}

/// The ray bias as a value.
#[verifier::when_used_as_spec(ray_bias_spec)]
pub fn ray_bias() -> (e: Scalar)
    ensures
        e == ray_bias_spec(),
{
    Scalar { bits: RAY_BIAS_BITS }
}

/// A sine or a cosine, cut down to the interval from minus one to one in
/// which it belongs. Rounding may carry one a little beyond it, and the
/// square root that follows would then yield a NaN.
pub open spec fn clamp_to_unit_spec(x: Scalar) -> Scalar {
    x.clamp(Scalar::neg_one(), Scalar::one())
}

#[verifier::when_used_as_spec(clamp_to_unit_spec)]
pub fn clamp_to_unit(x: Scalar) -> (clamped: Scalar)
    ensures
        clamped == clamp_to_unit_spec(x),
        x.is_nan() ==> clamped == x,
        !x.is_nan() ==> Scalar::neg_one().le(clamped) && clamped.le(Scalar::one()),
{
    x.clamp(Scalar::neg_one(), Scalar::one())
}

/// The part of a value that is above zero: the value itself where it is
/// above zero, and zero otherwise, so for a negative value and for a NaN.
/// A cosine below zero lights nothing.
pub open spec fn positive_part_spec(x: Scalar) -> Scalar {
    if x.gt(Scalar::zero()) {
        x
    } else {
        Scalar::zero()
    }
}

#[verifier::when_used_as_spec(positive_part_spec)]
pub fn positive_part(x: Scalar) -> (p: Scalar)
    ensures
        p == positive_part_spec(x),
        !p.is_nan() && p.ge(Scalar::zero()),
{
    if x.gt(Scalar::zero()) {
        x
    } else {
        Scalar::zero()
    }
}

/// A point in space.
#[derive(Clone, Copy, Debug)]
pub struct Position {
    pub x: Scalar,
    pub y: Scalar,
    pub z: Scalar,
}

impl Position {
    /// The coordinate on axis 0, 1 or 2.
    pub open spec fn component(self, axis: int) -> Scalar {
        if axis == 0 {
            self.x
        } else if axis == 1 {
            self.y
        } else {
            self.z
        }
    }

    pub fn new(x: Scalar, y: Scalar, z: Scalar) -> (p: Position)
        ensures
            p == (Position { x, y, z }),
    {
        Position { x, y, z }
    }

    /// The coordinate on `axis`, which is 0 for x, 1 for y and 2 for z.
    pub fn coordinate(&self, axis: usize) -> (c: Scalar)
        requires
            axis < 3,
        ensures
            c == self.component(axis as int),
    {
        if axis == 0 {
            self.x
        } else if axis == 1 {
            self.y
        } else {
            self.z
        }
    }
}

/// A displacement in space, by its three components.
#[derive(Clone, Copy, Debug)]
pub struct Vector {
    pub x: Scalar,
    pub y: Scalar,
    pub z: Scalar,
}

impl Vector {
    /// The component on axis 0, 1 or 2.
    pub open spec fn component(self, axis: int) -> Scalar {
        if axis == 0 {
            self.x
        } else if axis == 1 {
            self.y
        } else {
            self.z
        }
    }

    /// Whether the vector has length one, exactly: its components are finite
    /// and their squares add up to one. The components are counted in units
    /// of two to the power -1074, in which one is two to the power 1074.
    pub open spec fn is_unit(self) -> bool {
        &&& self.x.is_finite() && self.y.is_finite() && self.z.is_finite()
        &&& self.x.scaled() * self.x.scaled() + self.y.scaled() * self.y.scaled()
            + self.z.scaled() * self.z.scaled() == pow2(1074) * pow2(1074)
    }

    /// Whether all three components are zero.
    pub open spec fn is_zero(self) -> bool {
        self.x.scaled() == 0 && self.y.scaled() == 0 && self.z.scaled() == 0
            && self.x.is_finite() && self.y.is_finite() && self.z.is_finite()
    }

    pub fn new(x: Scalar, y: Scalar, z: Scalar) -> (v: Vector)
        ensures
            v == (Vector { x, y, z }),
    {
        Vector { x, y, z }
    }

    /// The component on `axis`, which is 0 for x, 1 for y and 2 for z.
    pub fn coordinate(&self, axis: usize) -> (c: Scalar)
        requires
            axis < 3,
        ensures
            c == self.component(axis as int),
    {
        if axis == 0 {
            self.x
        } else if axis == 1 {
            self.y
        } else {
            self.z
        }
    }
}

/// The share of the light that a surface gives to each of the four channels
/// of illumination. The four need not add up to one.
#[derive(Clone, Copy, Debug)]
pub struct Albedo {
    pub diffusive: Scalar,
    pub specular: Scalar,
    pub reflective: Scalar,
    pub refractive: Scalar,
}

impl Albedo {
    pub fn new(diffusive: Scalar, specular: Scalar, reflective: Scalar, refractive: Scalar) -> (a:
        Albedo)
        ensures
            a == (Albedo { diffusive, specular, reflective, refractive }),
    {
        Albedo { diffusive, specular, reflective, refractive }
    }

    pub fn diffusive(&self) -> (w: Scalar)
        ensures
            w == self.diffusive,
    {
        self.diffusive
    }

    pub fn specular(&self) -> (w: Scalar)
        ensures
            w == self.specular,
    {
        self.specular
    }

    pub fn reflective(&self) -> (w: Scalar)
        ensures
            w == self.reflective,
    {
        self.reflective
    }

    pub fn refractive(&self) -> (w: Scalar)
        ensures
            w == self.refractive,
    {
        self.refractive
    }
}

impl Default for Albedo {
    /// All four weights zero.
    fn default() -> (a: Albedo)
        ensures
            a.diffusive.bits == ZERO_BITS,
            a.specular.bits == ZERO_BITS,
            a.reflective.bits == ZERO_BITS,
            a.refractive.bits == ZERO_BITS,
    {
        Albedo {
            diffusive: Scalar::zero(),
            specular: Scalar::zero(),
            reflective: Scalar::zero(),
            refractive: Scalar::zero(),
        }
    }
}

/// A colour by its red, green and blue channel. A channel may pass one
/// before the colour is turned into a pixel.
#[derive(Clone, Copy, Debug)]
pub struct Color {
    pub r: Scalar,
    pub g: Scalar,
    pub b: Scalar,
}

impl Color {
    /// The colour whose channels are each zero or one, as the flags say.
    pub open spec fn primary(r: bool, g: bool, b: bool) -> Color {
        Color {
            r: Scalar { bits: if r { ONE_BITS } else { ZERO_BITS } },
            g: Scalar { bits: if g { ONE_BITS } else { ZERO_BITS } },
            b: Scalar { bits: if b { ONE_BITS } else { ZERO_BITS } },
        }
    }

    /// Whether `by` is what the colour has to be scaled down by before it
    /// can become a pixel: its greatest channel where a channel is above
    /// one, and nothing where none is. A channel that is a NaN counts for
    /// nothing.
    pub open spec fn is_overexposure(&self, by: Option<Scalar>) -> bool {
        match by {
            Some(max) => {
                &&& max == self.r || max == self.g || max == self.b
                &&& max.gt(Scalar::one())
                &&& !self.r.gt(max) && !self.g.gt(max) && !self.b.gt(max)
            },
            None => !self.r.gt(Scalar::one()) && !self.g.gt(Scalar::one()) && !self.b.gt(
                Scalar::one(),
            ),
        }
    }

    pub fn new(r: Scalar, g: Scalar, b: Scalar) -> (c: Color)
        ensures
            c == (Color { r, g, b }),
    {
        Color { r, g, b }
    }

    /// The greatest channel of a colour that is too bright for a pixel, one
    /// of whose channels is above one. Dividing the colour by it makes its
    /// greatest channel one and keeps its hue.
    pub fn overexposure(&self) -> (by: Option<Scalar>)
        ensures
            self.is_overexposure(by),
    {
        let mut max = self.r;
        if max.is_nan() || self.g.gt(max) {
            max = self.g;
        }
        if max.is_nan() || self.b.gt(max) {
            max = self.b;
        }
        if max.gt(Scalar::one()) {
            Some(max)
        } else {
            None
        }
    }

    pub fn red() -> (c: Color)
        ensures
            c == Color::primary(true, false, false),
    {
        Color { r: Scalar::one(), g: Scalar::zero(), b: Scalar::zero() }
    }

    pub fn green() -> (c: Color)
        ensures
            c == Color::primary(false, true, false),
    {
        Color { r: Scalar::zero(), g: Scalar::one(), b: Scalar::zero() }
    }

    pub fn blue() -> (c: Color)
        ensures
            c == Color::primary(false, false, true),
    {
        Color { r: Scalar::zero(), g: Scalar::zero(), b: Scalar::one() }
    }

    pub fn white() -> (c: Color)
        ensures
            c == Color::primary(true, true, true),
    {
        Color { r: Scalar::one(), g: Scalar::one(), b: Scalar::one() }
    }

    pub fn black() -> (c: Color)
        ensures
            c == Color::primary(false, false, false),
    {
        Color { r: Scalar::zero(), g: Scalar::zero(), b: Scalar::zero() }
    }

    pub fn yellow() -> (c: Color)
        ensures
            c == Color::primary(true, true, false),
    {
        Color { r: Scalar::one(), g: Scalar::one(), b: Scalar::zero() }
    }

    pub fn cyan() -> (c: Color)
        ensures
            c == Color::primary(false, true, true),
    {
        Color { r: Scalar::zero(), g: Scalar::one(), b: Scalar::one() }
    }

    pub fn magenta() -> (c: Color)
        ensures
            c == Color::primary(true, false, true),
    {
        Color { r: Scalar::one(), g: Scalar::zero(), b: Scalar::one() }
    }
}

impl Default for Color {
    /// Black.
    fn default() -> (c: Color)
        ensures
            c == Color::primary(false, false, false),
    {
        Color::black()
    }
}

/// The distances at which a hit counts: from `start`, included, up to `end`,
/// excluded.
#[derive(Clone, Copy, Debug)]
pub struct Interval {
    pub start: Scalar,
    pub end: Scalar,
}

impl Interval {
    /// `start <= x < end`. No interval contains a NaN, and an interval with a
    /// NaN for a bound contains nothing.
    pub open spec fn contains_spec(&self, x: Scalar) -> bool {
        self.start.le(x) && x.lt(self.end)
    }

    pub fn new(start: Scalar, end: Scalar) -> (i: Interval)
        ensures
            i == (Interval { start, end }),
    {
        Interval { start, end }
    }

    /// Every value but positive infinity and the NaNs.
    pub fn full() -> (i: Interval)
        ensures
            i.start.bits == NEG_INFINITY_BITS,
            i.end.bits == INFINITY_BITS,
    {
        Interval { start: Scalar::neg_infinity(), end: Scalar::infinity() }
    }

    /// Zero and every finite value above it.
    pub fn positive() -> (i: Interval)
        ensures
            i.start.bits == ZERO_BITS,
            i.end.bits == INFINITY_BITS,
    {
        Interval { start: Scalar::zero(), end: Scalar::infinity() }
    }

    pub fn start(&self) -> (s: Scalar)
        ensures
            s == self.start,
    {
        self.start
    }

    pub fn end(&self) -> (e: Scalar)
        ensures
            e == self.end,
    {
        self.end
    }

    #[verifier::when_used_as_spec(contains_spec)]
    pub fn contains(&self, x: Scalar) -> (inside: bool)
        ensures
            inside == self.contains_spec(x),
    {
        self.start.le(x) && x.lt(self.end)
    }

    /// Whether `x` is outside the interval: the negation of `contains`, so
    /// true of every NaN.
    pub fn surronds(&self, x: Scalar) -> (outside: bool)
        ensures
            outside == !self.contains(x),
    {
        !self.contains(x)
    }
}

/// Only one answer is the overexposure of a colour: its contract leaves the
/// maker no choice.
pub proof fn lemma_overexposure_is_unique(color: Color, a: Option<Scalar>, b: Option<Scalar>)
    requires
        color.is_overexposure(a),
        color.is_overexposure(b),
    ensures
        a == b,
{
    if a is Some && b is Some {
        let (m, n) = (a.unwrap(), b.unwrap());
        assert(m.rank() == n.rank());
        assert(m.bits == n.bits);
    }
}

} // verus!
