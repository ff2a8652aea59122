//! Unsigned fixed-point decimals with eighteen fractional digits.

use vstd::prelude::*;

verus! {

/// Atomic units in one whole unit.
pub const DECIMAL_FRACTIONAL: u128 = 1_000_000_000_000_000_000;

/// An unsigned fixed-point number, held as its count of atomic units
/// (`atomics / 10^18` is the value it stands for).
#[derive(Clone, Copy, Debug, PartialEq, Eq, Structural)]
pub struct Decimal {
    pub atomics: u128,
}

/// The decimal with `atomics` atomic units, where that count fits in `u128`.
pub open spec fn decimal_of(atomics: int) -> Option<Decimal> {
    if 0 <= atomics <= u128::MAX {
        Some(Decimal { atomics: atomics as u128 })
    } else {
        None
    }
}

/// `numerator / denominator`, rounded down to an atomic unit.
pub open spec fn ratio_spec(numerator: int, denominator: int) -> Option<Decimal> {
    if denominator == 0 {
        None
    } else {
        decimal_of(numerator * DECIMAL_FRACTIONAL / denominator)
    }
}

/// `a * b`, rounded down to an atomic unit.
pub open spec fn mul_spec(a: Decimal, b: Decimal) -> Option<Decimal> {
    decimal_of(a.atomics * b.atomics / (DECIMAL_FRACTIONAL as int))
}

/// `a + b`.
pub open spec fn add_spec(a: Decimal, b: Decimal) -> Option<Decimal> {
    decimal_of(a.atomics + b.atomics)
}

/// The whole number `n` as a decimal.
pub open spec fn whole_spec(n: int) -> Option<Decimal> {
    decimal_of(n * DECIMAL_FRACTIONAL)
}

/// `max(0, a - b)`.
pub open spec fn saturating_sub_spec(a: Decimal, b: Decimal) -> Decimal {
    if a.atomics >= b.atomics {
        Decimal { atomics: (a.atomics - b.atomics) as u128 }
    } else {
        Decimal { atomics: 0 }
    }
}

impl Decimal {
    pub fn zero() -> (r: Decimal)
        ensures
            r.atomics == 0,
    {
        Decimal { atomics: 0 }
    }

    /// Relies on `cosmwasm_std::Decimal::checked_from_ratio`: the quotient
    /// `numerator * 10^18 / denominator` taken in 256 bits and rounded down,
    /// refused on a zero denominator or when it leaves the `u128` range.
    #[verifier::external_body]
    pub(crate) fn checked_from_ratio(numerator: u128, denominator: u128) -> (r: Option<Decimal>)
        ensures
            r == ratio_spec(numerator as int, denominator as int),
    {
        match cosmwasm_std::Decimal::checked_from_ratio(numerator, denominator) {
            Ok(d) => Some(Decimal { atomics: d.atomics().u128() }),
            Err(_) => None,
        }
    }

    /// Relies on `cosmwasm_std::Decimal::checked_div`, which is
    /// `checked_from_ratio` of the two atomic counts.
    #[verifier::external_body]
    pub(crate) fn checked_div(self, other: Decimal) -> (r: Option<Decimal>)
        ensures
            r == ratio_spec(self.atomics as int, other.atomics as int),
    {
        let a = cosmwasm_std::Decimal::raw(self.atomics);
        let b = cosmwasm_std::Decimal::raw(other.atomics);
        match a.checked_div(b) {
            Ok(d) => Some(Decimal { atomics: d.atomics().u128() }),
            Err(_) => None,
        }
    }

    /// Relies on `cosmwasm_std::Decimal::checked_mul`: the product of the
    /// atomic counts taken in 256 bits, divided by `10^18` and rounded down,
    /// refused when it leaves the `u128` range.
    #[verifier::external_body]
    pub(crate) fn checked_mul(self, other: Decimal) -> (r: Option<Decimal>)
        ensures
            r == mul_spec(self, other),
    {
        let a = cosmwasm_std::Decimal::raw(self.atomics);
        let b = cosmwasm_std::Decimal::raw(other.atomics);
        match a.checked_mul(b) {
            Ok(d) => Some(Decimal { atomics: d.atomics().u128() }),
            Err(_) => None,
        }
    }

    /// Relies on `cosmwasm_std::Decimal::checked_add`: the sum of the atomic
    /// counts, refused when it leaves the `u128` range.
    #[verifier::external_body]
    pub(crate) fn checked_add(self, other: Decimal) -> (r: Option<Decimal>)
        ensures
            r == add_spec(self, other),
    {
        let a = cosmwasm_std::Decimal::raw(self.atomics);
        let b = cosmwasm_std::Decimal::raw(other.atomics);
        match a.checked_add(b) {
            Ok(d) => Some(Decimal { atomics: d.atomics().u128() }),
            Err(_) => None,
        }
    }

    /// Relies on `cosmwasm_std::Decimal::from_atomics` with no decimal
    /// places: `n * 10^18` atomic units, refused when that leaves the `u128`
    /// range.
    #[verifier::external_body]
    pub(crate) fn from_whole(n: u128) -> (r: Option<Decimal>)
        ensures
            r == whole_spec(n as int),
    {
        match cosmwasm_std::Decimal::from_atomics(n, 0) {
            Ok(d) => Some(Decimal { atomics: d.atomics().u128() }),
            Err(_) => None,
        }
    }

    /// Relies on `cosmwasm_std::Decimal::saturating_sub`: the difference of
    /// the atomic counts, or zero where it would be negative.
    #[verifier::external_body]
    pub(crate) fn saturating_sub(self, other: Decimal) -> (r: Decimal)
        ensures
            r == saturating_sub_spec(self, other),
    {
        let a = cosmwasm_std::Decimal::raw(self.atomics);
        let b = cosmwasm_std::Decimal::raw(other.atomics);
        Decimal { atomics: a.saturating_sub(b).atomics().u128() }
    }
}

} // verus!
