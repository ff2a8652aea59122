//! Why an action was refused.

use vstd::prelude::*;

use crate::state::Coin;

verus! {

/// Every refusal aborts the whole action: nothing it would have written is kept.
#[derive(Debug, PartialEq)]
pub enum ContractError {
    /// Reserved for operations limited to the admin.
    Unauthorized {},
    /// A single coin of the wrong denomination was attached.
    InvalidFunds { funds: Option<Coin>, expected: String },
    /// No coin, or more than one, was attached where exactly one is needed.
    FundsRequired {},
    /// The borrower has no collateral on record, or it supports no more debt.
    InsuficientCollateral {},
    /// A free-form diagnostic.
    SimpleError { msg: String },
    /// The collateral denomination names no liquidity pool, or the pool does
    /// not pair the funds asset with exactly one other asset.
    InvalidPool {},
    /// A balance would leave the `u128` range.
    Overflow {},
}

} // verus!
