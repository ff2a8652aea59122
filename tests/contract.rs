use shark::contract::{
    borrow_pool_id, execute_borrow, execute_supply, execute_supply_collateral, get_funds_from,
    instantiate, spot_price_pair, InstantiateMsg, LOCK_DENOM, LOCK_DURATION,
};
use shark::decimal::Decimal;
use shark::error::ContractError;
use shark::response::{Instruction, Response};
use shark::state::{Coin, Config, Debt, Funds, LendPool, MessageInfo};

const OWNER_ADDR: &str = "osmo1t3gjpqadhhqcd29v64xa06z66mmz7kazsvkp69";
const LENDER_ADDR: &str = "osmo1t3gjpqadhhqcd29v64xa06z66mmz7kazsvkp69";
const BORROWER_ADDR: &str = "osmo1y244hh4g6ku4kznyy5c53adgu9m8jucf0kmz82";

const ONE: u128 = 1_000_000_000_000_000_000;

fn info(sender: &str, funds: Vec<Coin>) -> MessageInfo {
    MessageInfo { sender: sender.to_string(), funds }
}

fn config() -> Config {
    let msg = InstantiateMsg {
        admin: None,
        funds_denom: "usdc".to_string(),
        collateral_denom: "gamm/pool/1".to_string(),
    };
    instantiate(&info(OWNER_ADDR, vec![]), msg).config
}

fn attrs(r: &Response) -> Vec<(String, String)> {
    r.attributes.iter().map(|a| (a.key.clone(), a.value.clone())).collect()
}

fn pair(k: &str, v: &str) -> (String, String) {
    (k.to_string(), v.to_string())
}

/// The pool of the scenario: 100 usdc against 50 osmo.
fn reserves() -> Vec<Coin> {
    vec![Coin::new(100, "usdc"), Coin::new(50, "osmo")]
}

/// What `to` has received in `denom` through the instructions of `responses`.
fn received(responses: &[&Response], to: &str, denom: &str) -> u128 {
    let mut total = 0;
    for r in responses {
        for m in &r.messages {
            if let Instruction::BankSend { to_address, amount } = m {
                if to_address == to {
                    for c in amount {
                        if c.denom == denom {
                            total += c.amount;
                        }
                    }
                }
            }
        }
    }
    total
}

#[test]
fn contract_test_execute_borrow() {
    let cfg = config();
    let pool = LendPool { used: 0, available: 0 };

    let supplied = execute_supply(&cfg, pool, &info(LENDER_ADDR, vec![Coin::new(200, "usdc")])).unwrap();

    let posted = execute_supply_collateral(
        &cfg,
        None,
        &info(BORROWER_ADDR, vec![Coin::new(15, "gamm/pool/1")]),
    )
    .unwrap();

    let balance = received(&[&supplied.response, &posted.response], BORROWER_ADDR, "usdc");
    assert_eq!(balance, 0);

    let amount = 6;
    let borrowed = execute_borrow(
        &cfg,
        Some(posted.debt),
        &info(BORROWER_ADDR, vec![]),
        amount,
        &reserves(),
        Decimal { atomics: ONE },
    )
    .unwrap();

    let balance = received(
        &[&supplied.response, &posted.response, &borrowed.response],
        BORROWER_ADDR,
        "usdc",
    );
    assert_eq!(balance, amount);
}

#[test]
fn end_to_end_scenario() {
    let init = instantiate(
        &info(OWNER_ADDR, vec![]),
        InstantiateMsg {
            admin: None,
            funds_denom: "usdc".to_string(),
            collateral_denom: "gamm/pool/1".to_string(),
        },
    );
    assert_eq!(init.pool, LendPool { used: 0, available: 0 });
    let cfg = init.config;

    let supplied = execute_supply(&cfg, init.pool, &info(LENDER_ADDR, vec![Coin::new(200, "usdc")])).unwrap();
    assert_eq!(supplied.pool.available, 200);
    assert_eq!(supplied.lender, Funds { value: 200 });

    let posted = execute_supply_collateral(
        &cfg,
        None,
        &info(BORROWER_ADDR, vec![Coin::new(15, "gamm/pool/1")]),
    )
    .unwrap();
    assert_eq!(posted.debt, Debt { collateral: 15, debt: 0 });
    assert_eq!(
        posted.response.messages,
        vec![Instruction::LockTokens {
            denom: "gamm/pool/1".to_string(),
            amount: 15,
            duration: "336h".to_string(),
        }]
    );

    let id = borrow_pool_id(&cfg, &Some(posted.debt)).unwrap();
    assert_eq!(id, 1);
    let (denom_in, denom_out) = spot_price_pair(&cfg, &reserves()).unwrap();
    assert_eq!((denom_in.as_str(), denom_out.as_str()), ("osmo", "usdc"));

    let borrowed = execute_borrow(
        &cfg,
        Some(posted.debt),
        &info(BORROWER_ADDR, vec![]),
        6,
        &reserves(),
        Decimal { atomics: ONE },
    )
    .unwrap();
    assert_eq!(
        borrowed.response.messages,
        vec![Instruction::BankSend {
            to_address: BORROWER_ADDR.to_string(),
            amount: vec![Coin::new(6, "usdc")],
        }]
    );
    assert_eq!(
        attrs(&borrowed.response),
        vec![
            pair("action", "execute_borrow"),
            pair("borrowed_denom", "usdc"),
            pair("borrowed_amount", "6"),
        ]
    );
    assert_eq!(borrowed.debt, Debt { collateral: 15, debt: 6 });
    assert_eq!(received(&[&borrowed.response], BORROWER_ADDR, "usdc"), 6);
}

#[test]
fn instantiate_defaults_admin_to_sender() {
    let out = instantiate(
        &info(OWNER_ADDR, vec![]),
        InstantiateMsg { admin: None, funds_denom: "usdc".to_string(), collateral_denom: "gamm/pool/1".to_string() },
    );
    assert_eq!(out.config.admin, OWNER_ADDR);
    assert_eq!(out.config.funds_denom, "usdc");
    assert_eq!(out.config.collateral_denom, "gamm/pool/1");
    assert_eq!(attrs(&out.response), vec![pair("action", "instantiate"), pair("admin", OWNER_ADDR)]);
    assert!(out.response.messages.is_empty());
}

#[test]
fn instantiate_takes_named_admin() {
    let out = instantiate(
        &info(OWNER_ADDR, vec![]),
        InstantiateMsg {
            admin: Some(BORROWER_ADDR.to_string()),
            funds_denom: "usdc".to_string(),
            collateral_denom: "gamm/pool/1".to_string(),
        },
    );
    assert_eq!(out.config.admin, BORROWER_ADDR);
    assert_eq!(attrs(&out.response)[1], pair("admin", BORROWER_ADDR));
}

#[test]
fn funds_matcher_accepts_one_matching_coin() {
    let r = get_funds_from(&info(LENDER_ADDR, vec![Coin::new(42, "usdc")]), &"usdc".to_string());
    assert_eq!(r, Ok(Funds { value: 42 }));
    let zero = get_funds_from(&info(LENDER_ADDR, vec![Coin::new(0, "usdc")]), &"usdc".to_string());
    assert_eq!(zero, Ok(Funds { value: 0 }));
}

#[test]
fn funds_matcher_rejects_wrong_denom() {
    let r = get_funds_from(&info(LENDER_ADDR, vec![Coin::new(42, "osmo")]), &"usdc".to_string());
    assert_eq!(
        r,
        Err(ContractError::InvalidFunds { funds: Some(Coin::new(42, "osmo")), expected: "usdc".to_string() })
    );
}

#[test]
fn funds_matcher_rejects_no_coin_or_several() {
    let none = get_funds_from(&info(LENDER_ADDR, vec![]), &"usdc".to_string());
    assert_eq!(none, Err(ContractError::FundsRequired {}));
    let two = get_funds_from(
        &info(LENDER_ADDR, vec![Coin::new(1, "usdc"), Coin::new(2, "usdc")]),
        &"usdc".to_string(),
    );
    assert_eq!(two, Err(ContractError::FundsRequired {}));
}

#[test]
fn supply_enforces_denom() {
    let cfg = config();
    let pool = LendPool { used: 0, available: 7 };
    let wrong = execute_supply(&cfg, pool, &info(LENDER_ADDR, vec![Coin::new(5, "gamm/pool/1")]));
    assert_eq!(
        wrong,
        Err(ContractError::InvalidFunds { funds: Some(Coin::new(5, "gamm/pool/1")), expected: "usdc".to_string() })
    );
    let none = execute_supply(&cfg, pool, &info(LENDER_ADDR, vec![]));
    assert_eq!(none, Err(ContractError::FundsRequired {}));
    let two = execute_supply(&cfg, pool, &info(LENDER_ADDR, vec![Coin::new(5, "usdc"), Coin::new(5, "osmo")]));
    assert_eq!(two, Err(ContractError::FundsRequired {}));
}

#[test]
fn supply_collateral_enforces_denom() {
    let cfg = config();
    let wrong = execute_supply_collateral(&cfg, None, &info(BORROWER_ADDR, vec![Coin::new(5, "usdc")]));
    assert_eq!(
        wrong,
        Err(ContractError::InvalidFunds { funds: Some(Coin::new(5, "usdc")), expected: "gamm/pool/1".to_string() })
    );
    let none = execute_supply_collateral(&cfg, None, &info(BORROWER_ADDR, vec![]));
    assert_eq!(none, Err(ContractError::FundsRequired {}));
    let two = execute_supply_collateral(
        &cfg,
        None,
        &info(BORROWER_ADDR, vec![Coin::new(5, "gamm/pool/1"), Coin::new(1, "gamm/pool/1")]),
    );
    assert_eq!(two, Err(ContractError::FundsRequired {}));
}

#[test]
fn supply_conserves_funds_and_overwrites_lender() {
    let cfg = config();
    let mut pool = LendPool { used: 0, available: 0 };
    let mut total = 0;
    let mut last = Funds { value: 0 };
    for (sender, amount) in [(LENDER_ADDR, 200u128), (BORROWER_ADDR, 30), (LENDER_ADDR, 5), (LENDER_ADDR, 0)] {
        let out = execute_supply(&cfg, pool, &info(sender, vec![Coin::new(amount, "usdc")])).unwrap();
        total += amount;
        assert_eq!(out.pool.available, total);
        assert_eq!(out.pool.used, 0);
        assert_eq!(attrs(&out.response), vec![pair("action", "supply_funds"), pair("available_funds", &total.to_string())]);
        pool = out.pool;
        last = out.lender;
    }
    assert_eq!(pool.available, 235);
    // the last deposit replaces the lender's record rather than adding to it
    assert_eq!(last, Funds { value: 0 });
}

#[test]
fn supply_keeps_used_funds() {
    let cfg = config();
    let out = execute_supply(&cfg, LendPool { used: 9, available: 1 }, &info(LENDER_ADDR, vec![Coin::new(10, "usdc")])).unwrap();
    assert_eq!(out.pool, LendPool { used: 9, available: 11 });
    assert_eq!(attrs(&out.response)[1], pair("available_funds", "11"));
}

#[test]
fn supply_refuses_overflow() {
    let cfg = config();
    let pool = LendPool { used: 0, available: u128::MAX };
    let r = execute_supply(&cfg, pool, &info(LENDER_ADDR, vec![Coin::new(1, "usdc")]));
    assert_eq!(r, Err(ContractError::Overflow {}));
    let edge = execute_supply(&cfg, LendPool { used: 0, available: u128::MAX - 1 }, &info(LENDER_ADDR, vec![Coin::new(1, "usdc")]));
    assert_eq!(edge.unwrap().pool.available, u128::MAX);
}

#[test]
fn collateral_adds_up() {
    let cfg = config();
    let first = execute_supply_collateral(&cfg, None, &info(BORROWER_ADDR, vec![Coin::new(10, "gamm/pool/1")])).unwrap();
    assert_eq!(first.debt, Debt { debt: 0, collateral: 10 });
    let second = execute_supply_collateral(&cfg, Some(first.debt), &info(BORROWER_ADDR, vec![Coin::new(5, "gamm/pool/1")])).unwrap();
    assert_eq!(second.debt, Debt { debt: 0, collateral: 15 });
    assert_eq!(
        attrs(&second.response),
        vec![pair("action", "execute_supply_collateral"), pair("collateral", "15"), pair("debt", "0")]
    );
    assert_eq!(
        second.response.messages,
        vec![Instruction::LockTokens { denom: LOCK_DENOM.to_string(), amount: 5, duration: LOCK_DURATION.to_string() }]
    );
}

#[test]
fn collateral_keeps_debt() {
    let cfg = config();
    let out = execute_supply_collateral(
        &cfg,
        Some(Debt { debt: 4, collateral: 20 }),
        &info(BORROWER_ADDR, vec![Coin::new(3, "gamm/pool/1")]),
    )
    .unwrap();
    assert_eq!(out.debt, Debt { debt: 4, collateral: 23 });
    assert_eq!(attrs(&out.response)[2], pair("debt", "4"));
}

#[test]
fn collateral_refuses_overflow() {
    let cfg = config();
    let r = execute_supply_collateral(
        &cfg,
        Some(Debt { debt: 0, collateral: u128::MAX }),
        &info(BORROWER_ADDR, vec![Coin::new(1, "gamm/pool/1")]),
    );
    assert_eq!(r, Err(ContractError::Overflow {}));
}

#[test]
fn borrow_without_collateral_is_refused() {
    let cfg = config();
    for amount in [0u128, 1, 6, u128::MAX] {
        let r = execute_borrow(&cfg, None, &info(BORROWER_ADDR, vec![]), amount, &reserves(), Decimal { atomics: ONE });
        assert_eq!(r, Err(ContractError::InsuficientCollateral {}));
    }
    assert_eq!(borrow_pool_id(&cfg, &None), Err(ContractError::InsuficientCollateral {}));
}

#[test]
fn borrow_at_zero_capacity_is_refused() {
    let cfg = config();
    // 10 shares against 100 usdc / 50 osmo at price 1 are worth exactly 15
    let at_value = Debt { debt: 15, collateral: 10 };
    for amount in [0u128, 1] {
        let r = execute_borrow(&cfg, Some(at_value), &info(BORROWER_ADDR, vec![]), amount, &reserves(), Decimal { atomics: ONE });
        assert_eq!(r, Err(ContractError::InsuficientCollateral {}));
    }
    let beyond = Debt { debt: 23, collateral: 15 };
    let r = execute_borrow(&cfg, Some(beyond), &info(BORROWER_ADDR, vec![]), 1, &reserves(), Decimal { atomics: ONE });
    assert_eq!(r, Err(ContractError::InsuficientCollateral {}));
    let no_shares = Debt { debt: 0, collateral: 0 };
    let r = execute_borrow(&cfg, Some(no_shares), &info(BORROWER_ADDR, vec![]), 0, &reserves(), Decimal { atomics: ONE });
    assert_eq!(r, Err(ContractError::InsuficientCollateral {}));
}

#[test]
fn borrow_above_capacity_is_refused() {
    let cfg = config();
    // capacity 22.5: 22 fits, 23 does not
    let d = Debt { debt: 0, collateral: 15 };
    let ok = execute_borrow(&cfg, Some(d), &info(BORROWER_ADDR, vec![]), 22, &reserves(), Decimal { atomics: ONE });
    assert_eq!(ok.unwrap().debt, Debt { debt: 22, collateral: 15 });
    let r = execute_borrow(&cfg, Some(d), &info(BORROWER_ADDR, vec![]), 23, &reserves(), Decimal { atomics: ONE });
    assert_eq!(r, Err(ContractError::InsuficientCollateral {}));
    let huge = execute_borrow(&cfg, Some(d), &info(BORROWER_ADDR, vec![]), u128::MAX, &reserves(), Decimal { atomics: ONE });
    assert_eq!(huge, Err(ContractError::InsuficientCollateral {}));
}

#[test]
fn repeated_borrows_run_capacity_down() {
    let cfg = config();
    let mut debt = Debt { debt: 0, collateral: 15 };
    let mut accepted = 0;
    loop {
        let r = execute_borrow(&cfg, Some(debt), &info(BORROWER_ADDR, vec![]), 6, &reserves(), Decimal { atomics: ONE });
        match r {
            Ok(out) => {
                assert_eq!(out.debt.debt, debt.debt + 6);
                debt = out.debt;
                accepted += 1;
            }
            Err(e) => {
                assert_eq!(e, ContractError::InsuficientCollateral {});
                break;
            }
        }
    }
    // 22.5 of capacity covers three loans of 6, not a fourth
    assert_eq!(accepted, 3);
    assert_eq!(debt, Debt { debt: 18, collateral: 15 });
    assert_eq!(debt.capacity(Decimal { atomics: 22 * ONE + ONE / 2 }), Decimal { atomics: 4 * ONE + ONE / 2 });
}

#[test]
fn borrow_rejects_pools_that_do_not_split() {
    let cfg = config();
    let d = Some(Debt { debt: 0, collateral: 15 });
    let both_funds = vec![Coin::new(100, "usdc"), Coin::new(50, "usdc")];
    let no_funds = vec![Coin::new(100, "atom"), Coin::new(50, "osmo")];
    let three = vec![Coin::new(100, "usdc"), Coin::new(50, "osmo"), Coin::new(5, "atom")];
    for assets in [both_funds, no_funds, three, vec![]] {
        let r = execute_borrow(&cfg, d, &info(BORROWER_ADDR, vec![]), 1, &assets, Decimal { atomics: ONE });
        assert_eq!(r, Err(ContractError::InvalidPool {}));
        assert_eq!(spot_price_pair(&cfg, &assets), Err(ContractError::InvalidPool {}));
    }
}

#[test]
fn borrow_pool_id_needs_a_pool_denom() {
    let mut cfg = config();
    let d = Some(Debt { debt: 0, collateral: 1 });
    assert_eq!(borrow_pool_id(&cfg, &d), Ok(1));
    cfg.collateral_denom = "gamm/pool/77".to_string();
    assert_eq!(borrow_pool_id(&cfg, &d), Ok(77));
    cfg.collateral_denom = "uosmo".to_string();
    assert_eq!(borrow_pool_id(&cfg, &d), Err(ContractError::InvalidPool {}));
}

#[test]
fn borrow_fails_closed_when_value_overflows() {
    let cfg = config();
    // the other reserve alone exceeds the decimal range
    let assets = vec![Coin::new(u128::MAX, "usdc"), Coin::new(50, "osmo")];
    let r = execute_borrow(&cfg, Some(Debt { debt: 0, collateral: 15 }), &info(BORROWER_ADDR, vec![]), 1, &assets, Decimal { atomics: ONE });
    assert_eq!(r, Err(ContractError::InsuficientCollateral {}));
}

#[test]
fn borrow_order_of_reserves_does_not_matter() {
    let cfg = config();
    let swapped = vec![Coin::new(50, "osmo"), Coin::new(100, "usdc")];
    let r = execute_borrow(&cfg, Some(Debt { debt: 0, collateral: 15 }), &info(BORROWER_ADDR, vec![]), 22, &swapped, Decimal { atomics: ONE });
    assert_eq!(r.unwrap().debt.debt, 22);
    assert_eq!(spot_price_pair(&cfg, &swapped), Ok(("osmo".to_string(), "usdc".to_string())));
}
