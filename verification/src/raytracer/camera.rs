//! The part of the camera that works on whole numbers: which pixel an index
//! stands for, and how many rays a pixel gets.
use vstd::prelude::*;

verus! {

/// How many rays a pixel gets where antialiasing is on.
pub const SAMPLES_PER_PIXEL: usize = 10;

/// How the colour of a pixel is sampled.
#[derive(Clone, Copy, Debug, PartialEq, Eq, Structural)]
pub enum Sampling {
    /// One ray through the pixel itself.
    Single,
    /// The mean of `samples` rays, each through a point picked at random
    /// within half a pixel of it on either axis.
    Jittered { samples: usize },
}

/// The column and the row of the pixel that index `idx` stands for in an
/// image `img_width` pixels wide, its rows laid end to end. An index counts
/// by its low 32 bits.
pub open spec fn pixel_at(idx: usize, img_width: u32) -> (u32, u32) {
    let low = idx as int % 0x1_0000_0000;
    ((low % (img_width as int)) as u32, (low / (img_width as int)) as u32)
}

/// The sampling that the antialiasing switch asks for.
pub open spec fn sampling_spec(enable_antialiasing: bool) -> Sampling {
    if enable_antialiasing {
        Sampling::Jittered { samples: SAMPLES_PER_PIXEL }
    } else {
        Sampling::Single
    }
}

#[verifier::when_used_as_spec(sampling_spec)]
pub fn sampling(enable_antialiasing: bool) -> (s: Sampling)
    ensures
        s == sampling_spec(enable_antialiasing),
{
    if enable_antialiasing {
        Sampling::Jittered { samples: SAMPLES_PER_PIXEL }
    } else {
        Sampling::Single
    }
}

/// The column and the row of the pixel with index `idx`.
pub fn pixel_of_index(idx: usize, img_width: u32) -> (pixel: (u32, u32))
    requires
        img_width > 0,
    ensures
        pixel == pixel_at(idx, img_width),
{
    let wide: u64 = idx as u64;
    let low: u64 = wide % 0x1_0000_0000;
    let width: u64 = img_width as u64;
    ((low % width) as u32, (low / width) as u32)
}

/// Within an image whose pixels can be counted in 32 bits, each index stands
/// for a pixel of the image, and for a different one than any other index:
/// row times width plus column gives the index back.
pub proof fn lemma_pixel_of_index_is_one_to_one(idx: usize, img_width: u32, img_height: u32)
    requires
        img_width > 0,
        idx < img_width * img_height,
        img_width * img_height <= 0x1_0000_0000,
    ensures
        pixel_at(idx, img_width).0 < img_width,
        pixel_at(idx, img_width).1 < img_height,
        pixel_at(idx, img_width).1 * img_width + pixel_at(idx, img_width).0 == idx,
{
    let w = img_width as int;
    let i = idx as int;
    assert(i % 0x1_0000_0000 == i);
    assert(i == w * (i / w) + i % w) by (nonlinear_arith)
        requires
            w > 0,
    ;
    assert(0 <= i % w < w) by (nonlinear_arith)
        requires
            w > 0,
    ;
    assert(i / w < img_height) by (nonlinear_arith)
        requires
            w > 0,
            0 <= i < w * img_height,
    ;
    assert(0 <= i / w) by (nonlinear_arith)
        requires
            w > 0,
            0 <= i,
    ;
    assert((i / w) * w == w * (i / w)) by (nonlinear_arith);
}

} // verus!
