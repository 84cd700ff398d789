//! Point lights.
use vstd::prelude::*;
use crate::raytracer::basics::Position;
use crate::raytracer::scalar::Scalar;

verus! {

/// A point light. Its intensity does not fall off with distance.
#[derive(Clone, Copy, Debug)]
pub struct Light {
    pub position: Position,
    pub intensity: Scalar,
}

impl Light {
    pub fn new(position: Position, intensity: Scalar) -> (light: Light)
        ensures
            light == (Light { position, intensity }),
    {
        Light { position, intensity }
    }
}

} // verus!
