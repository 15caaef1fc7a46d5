//! Exact fixed-point data values.
//!
//! The chart engine works on real-valued observations quantized to a grid of
//! thousandths: a [`Fixed`] with `milli == m` stands for the real number
//! `m / 1000`. Axis labels are whole numbers, so a value's bracketing label
//! is `floor(m / 1000)` and its offset within the unit interval above that
//! label is `m % 1000` thousandths.

use vstd::prelude::*;

verus! {

/// One data-space value, held exactly in thousandths.
#[derive(Debug, Clone, Copy, PartialEq, Eq, Structural)]
pub struct Fixed {
    pub milli: i64,
}

impl Fixed {
    /// The whole number directly at or below this value.
    pub open spec fn spec_floor(self) -> int {
        self.milli as int / 1000
    }

    /// The value's offset above its floor, in thousandths; always in `[0, 1000)`.
    pub open spec fn spec_frac(self) -> int {
        self.milli as int % 1000
    }

    /// True when the value lies exactly on the whole-number grid.
    pub open spec fn is_whole(self) -> bool {
        self.spec_frac() == 0
    }

    /// The whole number directly at or above this value.
    pub open spec fn spec_ceil(self) -> int {
        if self.is_whole() {
            self.spec_floor()
        } else {
            self.spec_floor() + 1
        }
    }

    /// Build a value from a whole number.
    pub fn from_int(v: i64) -> (r: Fixed)
        requires
            -9_000_000_000_000_000 <= v <= 9_000_000_000_000_000,
        ensures
            r.milli == v * 1000,
            r.spec_floor() == v,
            r.spec_frac() == 0,
    {
        proof {
            vstd::arithmetic::div_mod::lemma_fundamental_div_mod_converse_div(
                v * 1000,
                1000,
                v as int,
                0,
            );
            vstd::arithmetic::div_mod::lemma_fundamental_div_mod_converse_mod(
                v * 1000,
                1000,
                v as int,
                0,
            );
        }
        Fixed { milli: v * 1000 }
    }

    /// Build a value from a count of thousandths.
    pub fn from_milli(m: i64) -> (r: Fixed)
        ensures
            r.milli == m,
    {
        Fixed { milli: m }
    }

    /// The floor label of this value.
    pub fn floor(self) -> (r: i64)
        ensures
            r == self.spec_floor(),
    {
        proof {
            vstd::arithmetic::div_mod::lemma_div_is_ordered(
                i64::MIN as int,
                self.milli as int,
                1000,
            );
            vstd::arithmetic::div_mod::lemma_div_is_ordered(
                self.milli as int,
                i64::MAX as int,
                1000,
            );
        }
        match self.milli.checked_div_euclid(1000) {
            Some(q) => q,
            None => 0,
        }
    }

    /// The ceiling label of this value.
    pub fn ceil(self) -> (r: i64)
        ensures
            r == self.spec_ceil(),
    {
        let f = self.floor();
        let rem = self.frac_milli();
        if rem == 0 {
            f
        } else {
            proof {
                vstd::arithmetic::div_mod::lemma_div_is_ordered(
                    self.milli as int,
                    i64::MAX as int,
                    1000,
                );
            }
            f + 1
        }
    }

    /// The value's offset above its floor, in thousandths.
    pub fn frac_milli(self) -> (r: i64)
        ensures
            r == self.spec_frac(),
            0 <= r < 1000,
    {
        match self.milli.checked_rem_euclid(1000) {
            Some(r) => r,
            None => 0,
        }
    }
}

} // verus!
