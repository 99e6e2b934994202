//! A signed fixed-point number with three fractional digits.
//!
//! Filter parameters (volume levels, brightness, frequencies, frame rates)
//! are carried as thousandths of a unit, so that rendering them into the
//! external tool's filter language is exact and provable.

use vstd::prelude::*;

use crate::strutil::scaled_dec_str;
use crate::strutil::scaled_string;

verus! {

/// A signed number held as a count of thousandths.
///
/// The view of a `Decimal` is that count: a `Decimal` with view `1500`
/// stands for the value `1.5`.
#[derive(Clone, Copy, Debug, PartialEq, Eq, Structural)]
pub struct Decimal {
    milli: i64,
}

impl View for Decimal {
    type V = int;

    closed spec fn view(&self) -> int {
        self.milli as int
    }
}

impl Decimal {
    /// The value `milli / 1000`.
    pub fn from_milli(milli: i64) -> (r: Self)
        ensures
            r@ == milli as int,
    {
        Decimal { milli }
    }

    /// The whole value `units`.
    pub fn from_int(units: i64) -> (r: Self)
        requires
            -9_223_372_036_854_775 <= units <= 9_223_372_036_854_775,
        ensures
            r@ == units * 1000,
    {
        Decimal { milli: units * 1000 }
    }

    /// The count of thousandths this value stands for.
    pub fn milli(&self) -> (r: i64)
        ensures
            r as int == self@,
    {
        self.milli
    }

    /// Decimal text of the value: integer part, then the fractional digits
    /// with trailing zeros dropped ("1.5", "2", "-0.25").
    pub fn render(&self) -> (s: String)
        ensures
            s@ == spec_render(self@),
    {
        let neg = self.milli < 0;
        let mag: u128 = if self.milli < 0 {
            (-(self.milli as i128)) as u128
        } else {
            self.milli as u128
        };
        proof {
            assert(crate::strutil::pow10(3) == 1000) by {
                reveal_with_fuel(crate::strutil::pow10, 4);
            }
        }
        scaled_string(neg, mag, 3, 1000)
    }
}

/// Decimal text of a count of thousandths.
pub open spec fn spec_render(milli: int) -> Seq<char> {
    scaled_dec_str(milli, 3)
}

} // verus!
