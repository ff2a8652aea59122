//! Properties that hold across actions, proved over the same spec functions
//! that the actions' contracts use.

use vstd::prelude::*;

use crate::contract::{
    borrow_capacity_spec, collateral_overflows, funds_from_spec, loan_fits, post_collateral_spec,
    supply_spec,
};
use crate::decimal::{Decimal, DECIMAL_FRACTIONAL};
use crate::error::ContractError;
use crate::state::{Coin, Debt, Funds, LendPool};

verus! {

/// The sum of `amounts`.
pub open spec fn total(amounts: Seq<u128>) -> int
    decreases amounts.len(),
{
    if amounts.len() == 0 {
        0
    } else {
        total(amounts.drop_last()) + amounts.last()
    }
}

/// An accepted deposit of `amount` that turns the pool `before` into `after`.
pub open spec fn supply_step(before: LendPool, amount: u128, after: LendPool) -> bool {
    before.available + amount <= u128::MAX && after == supply_spec(before, amount)
}

/// Conservation: along any run of accepted deposits of lendable funds, where
/// `pools[i + 1]` is the pool after the deposit of `amounts[i]` into
/// `pools[i]`, the available funds grow by exactly the sum deposited and the
/// used funds stay as they were. From the pool as initialized, the available
/// funds are the sum of all deposits, however often one lender deposits.
pub proof fn lemma_supply_conservation(pools: Seq<LendPool>, amounts: Seq<u128>)
    requires
        pools.len() == amounts.len() + 1,
        forall|i: int| 0 <= i < amounts.len() ==> #[trigger] supply_step(pools[i], amounts[i], pools[i + 1]),
    ensures
        pools.last().available == pools[0].available + total(amounts),
        pools.last().used == pools[0].used,
    decreases amounts.len(),
{
    if amounts.len() > 0 {
        let n = amounts.len() - 1;
        let earlier = pools.subrange(0, n + 1);
        let fewer = amounts.drop_last();
        assert forall|i: int| 0 <= i < fewer.len() implies #[trigger] supply_step(earlier[i], fewer[i], earlier[i + 1]) by {
            assert(supply_step(pools[i], amounts[i], pools[i + 1]));
        }
        lemma_supply_conservation(earlier, fewer);
        assert(supply_step(pools[n], amounts[n], pools[n + 1]));
    }
}

/// Denomination enforcement: a single coin of another denomination is
/// refused with `InvalidFunds`, and no coin or several coins with
/// `FundsRequired`, whatever the coins hold.
pub proof fn lemma_denom_enforcement(coins: Seq<Coin>, denom: String)
    ensures
        coins.len() == 1 && coins[0].denom@ != denom@ ==> funds_from_spec(coins, denom) matches Err(
            ContractError::InvalidFunds { .. },
        ),
        coins.len() != 1 ==> funds_from_spec(coins, denom) == Err::<Funds, ContractError>(
            ContractError::FundsRequired {},
        ),
{
}

/// Collateral adds up: posting `a` and then `b` leaves collateral of what was
/// held before plus `a + b`, and the debt as it was (none for a new
/// borrower).
pub proof fn lemma_collateral_additive(prior: Option<Debt>, a: u128, b: u128)
    requires
        !collateral_overflows(prior, a),
        !collateral_overflows(Some(post_collateral_spec(prior, a)), b),
    ensures
        post_collateral_spec(Some(post_collateral_spec(prior, a)), b).collateral == match prior {
            Some(d) => d.collateral + a + b,
            None => a + b,
        },
        post_collateral_spec(Some(post_collateral_spec(prior, a)), b).debt == match prior {
            Some(d) => d.debt,
            None => 0,
        },
{
}

/// Borrowing uses up capacity: after an accepted loan of `amount`, the
/// capacity at the same reserves and price is smaller by exactly `amount`.
/// So loans at unchanged prices run the capacity down, and once it is zero
/// every further loan is refused.
pub proof fn lemma_borrow_consumes_capacity(
    d: Debt,
    assets: Seq<Coin>,
    funds_denom: Seq<char>,
    price: Decimal,
    amount: u128,
)
    requires
        borrow_capacity_spec(d, assets, funds_denom, price) is Some,
        loan_fits(borrow_capacity_spec(d, assets, funds_denom, price)->Some_0, amount),
    ensures
        d.debt + amount <= u128::MAX,
        borrow_capacity_spec(
            Debt { debt: (d.debt + amount) as u128, collateral: d.collateral },
            assets,
            funds_denom,
            price,
        ) == Some(
            Decimal {
                atomics: (borrow_capacity_spec(d, assets, funds_denom, price)->Some_0.atomics - amount
                    * DECIMAL_FRACTIONAL) as u128,
            },
        ),
{
    assert((d.debt + amount) * DECIMAL_FRACTIONAL == d.debt * DECIMAL_FRACTIONAL + amount
        * DECIMAL_FRACTIONAL) by (nonlinear_arith);
    assert(d.debt + amount <= u128::MAX) by (nonlinear_arith)
        requires
            (d.debt + amount) * DECIMAL_FRACTIONAL <= u128::MAX,
            DECIMAL_FRACTIONAL >= 1,
            d.debt + amount >= 0,
    ;
}

} // verus!
