//! Exact quantities the layout is computed in: fixed-point lengths and ratios.
//!
//! Lengths and positions are counted in 16384ths of a pixel. The unit is fine
//! enough that the offset that centres any background is a whole number of
//! units, and that every width a renderer reports with 24 significant binary
//! digits, from 512 pixels up, is one too.

use vstd::prelude::*;

verus! {

/// Number of length units in one pixel.
pub const UNITS_PER_PIXEL: u64 = 16384;

/// A non-negative length in 16384ths of a pixel.
#[derive(Clone, Copy, Debug, PartialEq, Eq, Structural)]
pub struct Length {
    pub units: u64,
}

impl Length {
    /// The length of `pixels` whole pixels.
    pub open spec fn of_pixels(pixels: int) -> Length {
        Length { units: (pixels * UNITS_PER_PIXEL) as u64 }
    }

    /// The length of `pixels` whole pixels.
    pub fn from_pixels(pixels: u32) -> (len: Length)
        ensures
            len == Length::of_pixels(pixels as int),
            len.units == pixels * UNITS_PER_PIXEL,
    {
        Length { units: pixels as u64 * UNITS_PER_PIXEL }
    }

    /// The length of `units` 16384ths of a pixel.
    pub fn from_units(units: u64) -> (len: Length)
        ensures
            len.units == units,
    {
        Length { units }
    }
}

/// A positive fraction `num / den`, kept as written (not reduced).
#[derive(Clone, Copy, Debug, PartialEq, Eq, Structural)]
pub struct Ratio {
    pub num: u64,
    pub den: u64,
}

impl Ratio {
    /// Both terms are positive, so the fraction is defined and above zero.
    pub open spec fn wf(self) -> bool {
        self.num > 0 && self.den > 0
    }

    /// The fraction `1 / 1`.
    pub open spec fn identity() -> Ratio {
        Ratio { num: 1, den: 1 }
    }

    /// `x` scaled by this fraction, rounded down.
    pub open spec fn apply(self, x: int) -> int {
        (x * self.num) / (self.den as int)
    }

    /// The fraction `1 / 1`, under which nothing changes size.
    pub fn one() -> (r: Ratio)
        ensures
            r == Ratio::identity(),
            r.wf(),
    {
        Ratio { num: 1, den: 1 }
    }

    /// Whether this fraction has the value one, whichever way it is written.
    pub fn is_one(self) -> (b: bool)
        ensures
            b == (self.den > 0 && self.num == self.den),
    {
        self.den > 0 && self.num == self.den
    }

    /// `length` scaled by this fraction, rounded down to a whole unit; `None`
    /// where the fraction has no value or the result does not fit.
    pub fn scale(self, length: Length) -> (scaled: Option<Length>)
        ensures
            scaled == if self.den > 0 && self.apply(length.units as int) <= u64::MAX {
                Some(Length { units: self.apply(length.units as int) as u64 })
            } else {
                None::<Length>
            },
    {
        if self.den == 0 {
            return None;
        }
        assert(length.units * self.num <= u64::MAX * u64::MAX) by (nonlinear_arith)
            requires
                length.units <= u64::MAX,
                self.num <= u64::MAX,
        ;
        let product: u128 = (length.units as u128) * (self.num as u128);
        let quotient: u128 = product / (self.den as u128);
        if quotient <= u64::MAX as u128 {
            Some(Length { units: quotient as u64 })
        } else {
            None
        }
    }
}

} // verus!
