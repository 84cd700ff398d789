//! What a ray sees where it meets nothing.
use vstd::prelude::*;
use crate::raytracer::basics::Color;
use crate::raytracer::scalar::Scalar;

verus! {

/// A background is a vertical blend between two colours: that of a ray that
/// points straight up and that of a ray that points straight down. Between
/// the two the colour follows the height of the ray's direction evenly.
pub trait Background {
    spec fn zenith_spec(&self) -> Color;

    spec fn nadir_spec(&self) -> Color;

    /// The colour straight up.
    fn zenith(&self) -> (c: Color)
        ensures
            c == self.zenith_spec(),
    ;

    /// The colour straight down.
    fn nadir(&self) -> (c: Color)
        ensures
            c == self.nadir_spec(),
    ;
}

/// What stands behind a ray that meets nothing.
#[derive(Clone, Copy, Debug)]
pub enum Backdrop {
    /// Nothing: the colour is black.
    Black,
    /// A background: the colour is the blend of its two colours by the
    /// height of the ray's direction.
    Blend { zenith: Color, nadir: Color },
}

/// Pale grey below, (0.8, 0.8, 0.8), turning to a soft green above,
/// (0.6, 0.8, 0.4).
#[derive(Clone, Copy, Debug, Default)]
pub struct DummyBackground;

impl Background for DummyBackground {
    open spec fn zenith_spec(&self) -> Color {
        Color {
            r: Scalar { bits: 0x3fe3_3333_3333_3333 },
            g: Scalar { bits: 0x3fe9_9999_9999_999a },
            b: Scalar { bits: 0x3fd9_9999_9999_999a },
        }
    }

    open spec fn nadir_spec(&self) -> Color {
        Color {
            r: Scalar { bits: 0x3fe9_9999_9999_999a },
            g: Scalar { bits: 0x3fe9_9999_9999_999a },
            b: Scalar { bits: 0x3fe9_9999_9999_999a },
        }
    }

    fn zenith(&self) -> (c: Color) {
        Color {
            r: Scalar { bits: 0x3fe3_3333_3333_3333 },
            g: Scalar { bits: 0x3fe9_9999_9999_999a },
            b: Scalar { bits: 0x3fd9_9999_9999_999a },
        }
    }

    fn nadir(&self) -> (c: Color) {
        Color {
            r: Scalar { bits: 0x3fe9_9999_9999_999a },
            g: Scalar { bits: 0x3fe9_9999_9999_999a },
            b: Scalar { bits: 0x3fe9_9999_9999_999a },
        }
    }
}

/// White below, turning to the blue of a clear sky above, (0.5, 0.7, 1).
#[derive(Clone, Copy, Debug, Default)]
pub struct Sky;

impl Background for Sky {
    open spec fn zenith_spec(&self) -> Color {
        Color {
            r: Scalar { bits: 0x3fe0_0000_0000_0000 },
            g: Scalar { bits: 0x3fe6_6666_6666_6666 },
            b: Scalar::one(),
        }
    }

    open spec fn nadir_spec(&self) -> Color {
        Color::primary(true, true, true)
    }

    fn zenith(&self) -> (c: Color) {
        Color {
            r: Scalar { bits: 0x3fe0_0000_0000_0000 },
            g: Scalar { bits: 0x3fe6_6666_6666_6666 },
            b: Scalar::one(),
        }
    }

    fn nadir(&self) -> (c: Color) {
        Color::white()
    }
}

} // verus!
