//! The records the ledger keeps, and the transfers it is handed.

use vstd::prelude::*;

use crate::decimal::{Decimal, DECIMAL_FRACTIONAL};

verus! {

/// An amount of one asset.
#[derive(Debug, PartialEq)]
pub struct Coin {
    pub denom: String,
    pub amount: u128,
}

impl Coin {
    pub fn new(amount: u128, denom: &str) -> (r: Coin)
        ensures
            r.denom@ == denom@,
            r.amount == amount,
    {
        Coin { denom: denom.to_owned(), amount }
    }

    /// A field-by-field copy.
    pub fn copied(&self) -> (r: Coin)
        ensures
            r == *self,
    {
        Coin { denom: self.denom.clone(), amount: self.amount }
    }
}

/// Who sent an action, and the coins attached to it.
#[derive(Debug, PartialEq)]
pub struct MessageInfo {
    pub sender: String,
    pub funds: Vec<Coin>,
}

/// Set once at initialization.
#[derive(Debug, PartialEq)]
pub struct Config {
    /// A validated account identifier.
    pub admin: String,
    /// The asset that is lent and borrowed.
    pub funds_denom: String,
    /// The asset accepted as collateral: the shares of a liquidity pool.
    pub collateral_denom: String,
}

/// Aggregate liquidity of the pool.
#[derive(Clone, Copy, Debug, PartialEq, Eq, Structural)]
pub struct LendPool {
    pub used: u128,
    pub available: u128,
}

/// A lender's most recently recorded deposit.
#[derive(Clone, Copy, Debug, PartialEq, Eq, Structural)]
pub struct Funds {
    pub value: u128,
}

/// A borrower's position.
#[derive(Clone, Copy, Debug, PartialEq, Eq, Structural)]
pub struct Debt {
    pub debt: u128,
    pub collateral: u128,
}

/// `max(0, value - debt)`, in atomic units.
pub open spec fn capacity_spec(debt: Debt, value: Decimal) -> Decimal {
    if value.atomics >= debt.debt * DECIMAL_FRACTIONAL {
        Decimal { atomics: (value.atomics - debt.debt * DECIMAL_FRACTIONAL) as u128 }
    } else {
        Decimal { atomics: 0 }
    }
}

impl Debt {
    /// How much more may be borrowed against collateral worth `value`.
    pub fn capacity(&self, value: Decimal) -> (r: Decimal)
        ensures
            r == capacity_spec(*self, value),
    {
        match Decimal::from_whole(self.debt) {
            Some(owed) => value.saturating_sub(owed),
            None => Decimal::zero(),
        }
    }
}

} // verus!
