//! What posted collateral is worth: the collateral is a share of a
//! two-asset liquidity pool, valued as an even split of that pool's reserves
//! at the current spot price.

use vstd::prelude::*;

use crate::decimal::{
    add_spec, mul_spec, ratio_spec, whole_spec, Decimal, DECIMAL_FRACTIONAL,
};
use crate::state::Coin;

verus! {

/// The pool's reserves as `(base, other)`: `other` is the funds asset and
/// `base` the one asset beside it. `None` unless the pool holds exactly two
/// assets, one of them the funds asset.
pub open spec fn split_spec(assets: Seq<Coin>, funds_denom: Seq<char>) -> Option<(Coin, Coin)> {
    if assets.len() == 2 && (assets[0].denom@ == funds_denom) != (assets[1].denom@ == funds_denom) {
        if assets[0].denom@ == funds_denom {
            Some((assets[1], assets[0]))
        } else {
            Some((assets[0], assets[1]))
        }
    } else {
        None
    }
}

/// The worth of `collateral` against reserves `base` and `other` at `price`:
/// with `ratio = collateral / base` and `half = ratio / 2`,
/// `half * base + half * other * price`. Each step is a decimal operation
/// rounded down; `None` where a step divides by zero or leaves the decimal
/// range.
pub open spec fn value_spec(collateral: u128, base: u128, other: u128, price: Decimal) -> Option<Decimal> {
    match (ratio_spec(collateral as int, base as int), whole_spec(base as int), whole_spec(other as int)) {
        (Some(ratio), Some(base_dec), Some(other_dec)) => {
            match ratio_spec(ratio.atomics as int, 2 * DECIMAL_FRACTIONAL) {
                Some(half) => match (mul_spec(half, base_dec), mul_spec(half, other_dec)) {
                    (Some(base_part), Some(other_units)) => match mul_spec(other_units, price) {
                        Some(other_part) => add_spec(base_part, other_part),
                        None => None,
                    },
                    _ => None,
                },
                None => None,
            }
        },
        _ => None,
    }
}

/// Splits the pool's reserves into `(base, other)`.
pub fn split_pool_assets(assets: &Vec<Coin>, funds_denom: &String) -> (r: Option<(Coin, Coin)>)
    ensures
        r == split_spec(assets@, funds_denom@),
{
    if assets.len() != 2 {
        return None;
    }
    let first_is_funds = assets[0].denom == *funds_denom;
    let second_is_funds = assets[1].denom == *funds_denom;
    if first_is_funds == second_is_funds {
        None
    } else if first_is_funds {
        Some((assets[1].copied(), assets[0].copied()))
    } else {
        Some((assets[0].copied(), assets[1].copied()))
    }
}

/// The worth of `collateral` pool shares, as `value_spec` states it.
pub fn collateral_value(collateral: u128, base: u128, other: u128, price: Decimal) -> (r: Option<Decimal>)
    ensures
        r == value_spec(collateral, base, other, price),
{
    let ratio = match Decimal::checked_from_ratio(collateral, base) {
        Some(x) => x,
        None => return None,
    };
    let base_dec = match Decimal::from_whole(base) {
        Some(x) => x,
        None => return None,
    };
    let other_dec = match Decimal::from_whole(other) {
        Some(x) => x,
        None => return None,
    };
    let two = Decimal { atomics: 2 * DECIMAL_FRACTIONAL };
    let half = match ratio.checked_div(two) {
        Some(x) => x,
        None => return None,
    };
    let base_part = match half.checked_mul(base_dec) {
        Some(x) => x,
        None => return None,
    };
    let other_units = match half.checked_mul(other_dec) {
        Some(x) => x,
        None => return None,
    };
    let other_part = match other_units.checked_mul(price) {
        Some(x) => x,
        None => return None,
    };
    base_part.checked_add(other_part)
}

} // verus!
