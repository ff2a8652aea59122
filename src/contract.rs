//! The actions of the lending pool, each a transition from the records it
//! reads to the records it writes and the response it hands back.

use vstd::prelude::*;

use crate::decimal::{Decimal, DECIMAL_FRACTIONAL};
use crate::denom::{collateral_pool_id, pool_id_spec};
use crate::error::ContractError;
use crate::response::{amount_text, decimal_text, is_lock, is_send, Instruction, Response};
use crate::state::{capacity_spec, Coin, Config, Debt, Funds, LendPool, MessageInfo};
use crate::valuation::{collateral_value, split_pool_assets, split_spec, value_spec};
use vstd::utf8::encode_utf8;

verus! {

/// The pool whose shares collateral deposits are locked under.
pub const LOCK_DENOM: &'static str = "gamm/pool/1";

/// How long collateral deposits stay locked.
pub const LOCK_DURATION: &'static str = "336h";

/// Parameters of initialization.
#[derive(Debug, PartialEq)]
pub struct InstantiateMsg {
    /// The admin; the sender when absent.
    pub admin: Option<String>,
    pub funds_denom: String,
    pub collateral_denom: String,
}

/// The records written at initialization.
#[derive(Debug, PartialEq)]
pub struct Instantiated {
    pub config: Config,
    pub pool: LendPool,
    pub response: Response,
}

/// The records written by a deposit of lendable funds.
#[derive(Debug, PartialEq)]
pub struct Supplied {
    /// The sender's new lender record.
    pub lender: Funds,
    pub pool: LendPool,
    pub response: Response,
}

/// The record written by a deposit of collateral.
#[derive(Debug, PartialEq)]
pub struct CollateralPosted {
    /// The sender's new borrower record.
    pub debt: Debt,
    pub response: Response,
}

/// The record written by a loan.
#[derive(Debug, PartialEq)]
pub struct Borrowed {
    /// The sender's borrower record, its debt grown by the loan.
    pub debt: Debt,
    pub response: Response,
}

/// What the coins attached to an action are worth in `denom`: exactly one
/// coin of that denomination is accepted.
pub open spec fn funds_from_spec(coins: Seq<Coin>, denom: String) -> Result<Funds, ContractError> {
    if coins.len() == 1 {
        if coins[0].denom@ == denom@ {
            Ok(Funds { value: coins[0].amount })
        } else {
            Err(ContractError::InvalidFunds { funds: Some(coins[0]), expected: denom })
        }
    } else {
        Err(ContractError::FundsRequired {})
    }
}

/// The pool after `amount` more has been supplied.
pub open spec fn supply_spec(pool: LendPool, amount: u128) -> LendPool {
    LendPool { used: pool.used, available: (pool.available + amount) as u128 }
}

/// The borrower record after `amount` more collateral has been posted.
pub open spec fn post_collateral_spec(prior: Option<Debt>, amount: u128) -> Debt {
    match prior {
        Some(d) => Debt { debt: d.debt, collateral: (d.collateral + amount) as u128 },
        None => Debt { debt: 0, collateral: amount },
    }
}

/// Whether posting `amount` more collateral would leave the `u128` range.
pub open spec fn collateral_overflows(prior: Option<Debt>, amount: u128) -> bool {
    match prior {
        Some(d) => d.collateral + amount > u128::MAX,
        None => false,
    }
}

/// Accepts exactly one coin of `match_denom`, and returns its amount.
pub fn get_funds_from(info: &MessageInfo, match_denom: &String) -> (r: Result<Funds, ContractError>)
    ensures
        r == funds_from_spec(info.funds@, *match_denom),
{
    if info.funds.len() == 1 {
        let coin = &info.funds[0];
        if coin.denom == *match_denom {
            Ok(Funds { value: coin.amount })
        } else {
            Err(ContractError::InvalidFunds { funds: Some(coin.copied()), expected: match_denom.clone() })
        }
    } else {
        Err(ContractError::FundsRequired {})
    }
}

/// Sets up the configuration and an empty pool. The admin is the one named,
/// or else the sender; the host validates it before anything is stored.
pub fn instantiate(info: &MessageInfo, msg: InstantiateMsg) -> (r: Instantiated)
    ensures
        r.config.admin@ == (match msg.admin {
            Some(a) => a@,
            None => info.sender@,
        }),
        r.config.funds_denom == msg.funds_denom,
        r.config.collateral_denom == msg.collateral_denom,
        r.pool == (LendPool { used: 0, available: 0 }),
        r.response.attrs() == seq![("action"@, "instantiate"@), ("admin"@, r.config.admin@)],
        r.response.messages@.len() == 0,
{
    let admin = match msg.admin {
        Some(a) => a,
        None => info.sender.clone(),
    };
    let mut response = Response::new();
    response.add_attribute("action", "instantiate".to_owned());
    response.add_attribute("admin", admin.clone());
    let config = Config {
        admin,
        funds_denom: msg.funds_denom,
        collateral_denom: msg.collateral_denom,
    };
    Instantiated { config, pool: LendPool { used: 0, available: 0 }, response }
}

/// Deposit of lendable funds: the sender's lender record becomes the amount
/// attached (replacing, not adding to, an earlier one), and the pool's
/// available funds grow by it.
pub fn execute_supply(config: &Config, pool: LendPool, info: &MessageInfo) -> (r: Result<Supplied, ContractError>)
    ensures
        match funds_from_spec(info.funds@, config.funds_denom) {
            Err(e) => r == Err::<Supplied, ContractError>(e),
            Ok(f) => if pool.available + f.value > u128::MAX {
                r == Err::<Supplied, ContractError>(ContractError::Overflow {})
            } else {
                &&& r is Ok
                &&& r->Ok_0.lender == f
                &&& r->Ok_0.pool == supply_spec(pool, f.value)
                &&& r->Ok_0.response.attrs() == seq![
                    ("action"@, "supply_funds"@),
                    ("available_funds"@, decimal_text(r->Ok_0.pool.available as nat)),
                ]
                &&& r->Ok_0.response.messages@.len() == 0
            },
        },
{
    let funds = match get_funds_from(info, &config.funds_denom) {
        Ok(f) => f,
        Err(e) => return Err(e),
    };
    let available = match pool.available.checked_add(funds.value) {
        Some(a) => a,
        None => return Err(ContractError::Overflow {}),
    };
    let pool = LendPool { used: pool.used, available };
    let mut response = Response::new();
    response.add_attribute("action", "supply_funds".to_owned());
    response.add_attribute("available_funds", amount_text(available));
    Ok(Supplied { lender: funds, pool, response })
}

/// Deposit of collateral: the sender's borrower record is created with no
/// debt, or its collateral grows by the amount attached; the deposit is
/// locked for a fixed duration.
pub fn execute_supply_collateral(config: &Config, prior: Option<Debt>, info: &MessageInfo) -> (r: Result<CollateralPosted, ContractError>)
    ensures
        match funds_from_spec(info.funds@, config.collateral_denom) {
            Err(e) => r == Err::<CollateralPosted, ContractError>(e),
            Ok(f) => if collateral_overflows(prior, f.value) {
                r == Err::<CollateralPosted, ContractError>(ContractError::Overflow {})
            } else {
                &&& r is Ok
                &&& r->Ok_0.debt == post_collateral_spec(prior, f.value)
                &&& r->Ok_0.response.attrs() == seq![
                    ("action"@, "execute_supply_collateral"@),
                    ("collateral"@, decimal_text(r->Ok_0.debt.collateral as nat)),
                    ("debt"@, decimal_text(r->Ok_0.debt.debt as nat)),
                ]
                &&& r->Ok_0.response.messages@.len() == 1
                &&& is_lock(r->Ok_0.response.messages@[0], LOCK_DENOM@, f.value, LOCK_DURATION@)
            },
        },
{
    let funds = match get_funds_from(info, &config.collateral_denom) {
        Ok(f) => f,
        Err(e) => return Err(e),
    };
    let debt = match prior {
        Some(d) => match d.collateral.checked_add(funds.value) {
            Some(c) => Debt { debt: d.debt, collateral: c },
            None => return Err(ContractError::Overflow {}),
        },
        None => Debt { debt: 0, collateral: funds.value },
    };
    let mut response = Response::new();
    response.add_attribute("action", "execute_supply_collateral".to_owned());
    response.add_attribute("collateral", amount_text(debt.collateral));
    response.add_attribute("debt", amount_text(debt.debt));
    response.add_message(Instruction::LockTokens {
        denom: LOCK_DENOM.to_owned(),
        amount: funds.value,
        duration: LOCK_DURATION.to_owned(),
    });
    Ok(CollateralPosted { debt, response })
}

/// How much more a borrower may take: the worth of the collateral against
/// the pool's reserves at `price`, less the debt, floored at zero. `None`
/// where the pool does not split into base and other, or the worth leaves
/// the decimal range.
pub open spec fn borrow_capacity_spec(d: Debt, assets: Seq<Coin>, funds_denom: Seq<char>, price: Decimal) -> Option<Decimal> {
    match split_spec(assets, funds_denom) {
        Some((base, other)) => match value_spec(d.collateral, base.amount, other.amount, price) {
            Some(value) => Some(capacity_spec(d, value)),
            None => None,
        },
        None => None,
    }
}

/// Whether a loan of `amount` fits within `capacity`: the capacity is not
/// zero and covers the whole amount.
pub open spec fn loan_fits(capacity: Decimal, amount: u128) -> bool {
    capacity.atomics > 0 && amount * DECIMAL_FRACTIONAL <= capacity.atomics
}

/// The liquidity pool to query before a loan: refused for a sender with no
/// collateral on record, or when the collateral denomination names no pool.
pub fn borrow_pool_id(config: &Config, prior: &Option<Debt>) -> (r: Result<u64, ContractError>)
    ensures
        prior is None ==> r == Err::<u64, ContractError>(ContractError::InsuficientCollateral {}),
        prior is Some ==> r == match pool_id_spec(encode_utf8(config.collateral_denom@)) {
            Some(id) => Ok::<u64, ContractError>(id),
            None => Err(ContractError::InvalidPool {}),
        },
{
    if prior.is_none() {
        return Err(ContractError::InsuficientCollateral {});
    }
    match collateral_pool_id(config.collateral_denom.as_str()) {
        Some(id) => Ok(id),
        None => Err(ContractError::InvalidPool {}),
    }
}

/// The pair whose spot price a loan needs, as `(denom_in, denom_out)`: the
/// pool's base asset priced in the funds asset.
pub fn spot_price_pair(config: &Config, assets: &Vec<Coin>) -> (r: Result<(String, String), ContractError>)
    ensures
        match split_spec(assets@, config.funds_denom@) {
            Some((base, _)) => r is Ok && r->Ok_0.0@ == base.denom@ && r->Ok_0.1@ == config.funds_denom@,
            None => r == Err::<(String, String), ContractError>(ContractError::InvalidPool {}),
        },
{
    match split_pool_assets(assets, &config.funds_denom) {
        Some((base, _)) => Ok((base.denom, config.funds_denom.clone())),
        None => Err(ContractError::InvalidPool {}),
    }
}

/// A loan of `amount` of the funds asset, given the pool's reserves
/// `assets` and the spot `price` of its base asset in the funds asset.
/// Refused with no collateral on record, or when the capacity is zero or
/// short of the amount; otherwise the debt grows by the amount and a
/// transfer of it to the sender is emitted.
pub fn execute_borrow(
    config: &Config,
    prior: Option<Debt>,
    info: &MessageInfo,
    amount: u128,
    assets: &Vec<Coin>,
    price: Decimal,
) -> (r: Result<Borrowed, ContractError>)
    ensures
        match prior {
            None => r == Err::<Borrowed, ContractError>(ContractError::InsuficientCollateral {}),
            Some(d) => match split_spec(assets@, config.funds_denom@) {
                None => r == Err::<Borrowed, ContractError>(ContractError::InvalidPool {}),
                Some(_) => match borrow_capacity_spec(d, assets@, config.funds_denom@, price) {
                    Some(capacity) if loan_fits(capacity, amount) => {
                        &&& r is Ok
                        &&& r->Ok_0.debt == (Debt { debt: (d.debt + amount) as u128, collateral: d.collateral })
                        &&& r->Ok_0.response.attrs() == seq![
                            ("action"@, "execute_borrow"@),
                            ("borrowed_denom"@, config.funds_denom@),
                            ("borrowed_amount"@, decimal_text(amount as nat)),
                        ]
                        &&& r->Ok_0.response.messages@.len() == 1
                        &&& is_send(r->Ok_0.response.messages@[0], info.sender@, config.funds_denom@, amount)
                    },
                    _ => r == Err::<Borrowed, ContractError>(ContractError::InsuficientCollateral {}),
                },
            },
        },
{
    let d = match prior {
        Some(d) => d,
        None => return Err(ContractError::InsuficientCollateral {}),
    };
    let (base, other) = match split_pool_assets(assets, &config.funds_denom) {
        Some(pair) => pair,
        None => return Err(ContractError::InvalidPool {}),
    };
    let value = match collateral_value(d.collateral, base.amount, other.amount, price) {
        Some(v) => v,
        None => return Err(ContractError::InsuficientCollateral {}),
    };
    let capacity = d.capacity(value);
    if capacity.atomics == 0 {
        return Err(ContractError::InsuficientCollateral {});
    }
    let requested = match Decimal::from_whole(amount) {
        Some(x) => x,
        None => return Err(ContractError::InsuficientCollateral {}),
    };
    if requested.atomics > capacity.atomics {
        return Err(ContractError::InsuficientCollateral {});
    }
    proof {
        assert((d.debt + amount) * DECIMAL_FRACTIONAL == d.debt * DECIMAL_FRACTIONAL + amount * DECIMAL_FRACTIONAL)
            by (nonlinear_arith);
        assert(d.debt + amount <= u128::MAX) by (nonlinear_arith)
            requires
                (d.debt + amount) * DECIMAL_FRACTIONAL <= u128::MAX,
                DECIMAL_FRACTIONAL >= 1,
                d.debt + amount >= 0,
        ;
    }
    let debt = Debt { debt: d.debt + amount, collateral: d.collateral };
    let mut response = Response::new();
    response.add_attribute("action", "execute_borrow".to_owned());
    response.add_attribute("borrowed_denom", config.funds_denom.clone());
    response.add_attribute("borrowed_amount", amount_text(amount));
    let mut coins = Vec::new();
    coins.push(Coin { denom: config.funds_denom.clone(), amount });
    response.add_message(Instruction::BankSend { to_address: info.sender.clone(), amount: coins });
    Ok(Borrowed { debt, response })
}

} // verus!
