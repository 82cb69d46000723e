//! Shared numeric conventions.

use vstd::prelude::*;

verus! {

/// How many stored units make up one: every fractional quantity in this crate is
/// an integer count of thousandths.
pub const THOUSANDTHS: i32 = 1000;

/// Whole pixels in a 26.6 fixed-point distance, rounded toward negative infinity
/// (what an arithmetic shift right by six bits yields).
pub open spec fn whole_pixels(units: int) -> int {
    units / 64
}

/// Computes [`whole_pixels`] for a machine integer.
pub fn to_whole_pixels(units: i64) -> (px: i64)
    ensures
        px == whole_pixels(units as int),
        -0x0200_0000_0000_0000 <= px < 0x0200_0000_0000_0000,
{
    if units >= 0 {
        units / 64
    } else {
        let below: i64 = -(units + 1);
        -(below / 64) - 1
    }
}

/// A colour with four channels, each in thousandths of full intensity.
#[derive(Clone, Copy, Debug, PartialEq, Eq, Structural)]
pub struct Rgba {
    pub r: u16,
    pub g: u16,
    pub b: u16,
    pub a: u16,
}

/// A colour with three channels, each in thousandths of full intensity.
#[derive(Clone, Copy, Debug, PartialEq, Eq, Structural)]
pub struct Rgb {
    pub r: u16,
    pub g: u16,
    pub b: u16,
}

} // verus!
