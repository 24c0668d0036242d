//! Fixed-point decimal ratios.
//!
//! Quorum and threshold bounds, and the ratios computed when a proposal's
//! voting ends, carry eighteen fractional decimal digits and are stored as a
//! count of atomic units.  Division is delegated to the host's decimal type;
//! division by zero is defined by the callers to yield zero.

use vstd::prelude::*;

verus! {

/// Number of atomic units in one whole unit: ratios carry eighteen
/// fractional decimal digits.
pub const RATIO_DENOMINATOR: u128 = 1_000_000_000_000_000_000;

/// A fixed-point decimal ratio; its value is `atomics / 10^18`.
#[derive(Clone, Copy, Debug, PartialEq, Eq, Structural)]
pub struct Ratio {
    pub atomics: u128,
}

impl Ratio {
    /// The ratio with the given count of atomic units.
    pub fn from_atomics(atomics: u128) -> (r: Ratio)
        ensures
            r.atomics == atomics,
    {
        Ratio { atomics }
    }

    /// The ratio zero.
    pub fn zero() -> (r: Ratio)
        ensures
            r.atomics == 0,
    {
        Ratio { atomics: 0 }
    }

    /// The ratio one.
    pub fn one() -> (r: Ratio)
        ensures
            r.atomics == RATIO_DENOMINATOR,
    {
        Ratio { atomics: RATIO_DENOMINATOR }
    }

    /// Whether the ratio is at most one, as quorum and threshold bounds must be.
    pub open spec fn spec_at_most_one(self) -> bool {
        self.atomics <= RATIO_DENOMINATOR
    }

    /// Whether the ratio is at most one.
    pub fn at_most_one(&self) -> (r: bool)
        ensures
            r == self.spec_at_most_one(),
    {
        self.atomics <= RATIO_DENOMINATOR
    }
}

/// The atomic units of the exact quotient `numerator / denominator`, rounded
/// down, with a zero denominator yielding zero.
pub open spec fn spec_ratio_atomics(numerator: int, denominator: int) -> int {
    if denominator == 0 {
        0
    } else {
        numerator * RATIO_DENOMINATOR / denominator
    }
}

/// Relies on cosmwasm_std::Decimal::checked_from_ratio: the returned decimal
/// holds `floor(numerator * 10^18 / denominator)` atomic units, and the call
/// fails exactly on a zero denominator or when that quotient exceeds
/// `u128::MAX`.
#[verifier::external_body]
fn decimal_from_ratio(numerator: u128, denominator: u128) -> (r: Option<u128>)
    ensures
        match r {
            Some(v) => denominator != 0 && v == numerator * RATIO_DENOMINATOR / (
            denominator as int),
            None => denominator == 0 || numerator * RATIO_DENOMINATOR / (denominator as int)
                > u128::MAX,
        },
{
    match cosmwasm_std::Decimal::checked_from_ratio(numerator, denominator) {
        Ok(d) => Some(d.atomics().u128()),
        Err(_) => None,
    }
}

impl Ratio {
    /// The ratio `numerator / denominator`, rounded down to an atomic unit;
    /// `None` on a zero denominator or when the result does not fit.
    pub fn checked_from_ratio(numerator: u128, denominator: u128) -> (r: Option<Ratio>)
        ensures
            match r {
                Some(v) => denominator != 0 && v.atomics == spec_ratio_atomics(
                    numerator as int,
                    denominator as int,
                ),
                None => denominator == 0 || spec_ratio_atomics(numerator as int, denominator as int)
                    > u128::MAX,
            },
    {
        match decimal_from_ratio(numerator, denominator) {
            Some(atomics) => Some(Ratio { atomics }),
            None => None,
        }
    }
}

} // verus!
