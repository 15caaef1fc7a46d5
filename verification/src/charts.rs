//! The chart builders, and the color helpers they share.

pub mod scatter;

use vstd::prelude::*;

use crate::canvas::{
    random_channels, rgb_channels, rgb_from_channels, rgba_channels, rgba_from_channels,
};

verus! {

/// A random color: each channel drawn independently from `0..255`, so no
/// channel ever reaches 255.
pub fn random_rgb() -> (r: image::Rgb<u8>)
    ensures
        rgb_channels(r).0 < 255,
        rgb_channels(r).1 < 255,
        rgb_channels(r).2 < 255,
{
    rgb_from_channels(random_channels())
}

/// A random color carrying exactly the given alpha: each color channel drawn
/// independently from `0..255`, so none ever reaches 255.
pub fn random_rgba(alpha: u8) -> (r: image::Rgba<u8>)
    ensures
        rgba_channels(r).0 < 255,
        rgba_channels(r).1 < 255,
        rgba_channels(r).2 < 255,
        rgba_channels(r).3 == alpha,
{
    rgba_from_channels(random_channels(), alpha)
}

} // verus!
