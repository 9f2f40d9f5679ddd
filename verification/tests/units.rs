use gonka_thesoul_vesting::contract::{
    emergency_withdraw, get_native_denom, instantiate, migrate, query, query_all_tranches,
    query_tranche, QueryReplies, release_tranche, update_recipient, withdraw_native_tokens, CoinProto,
    QueryTotalSupplyResponse,
};
use gonka_thesoul_vesting::decimal::{u128_to_decimal, U256};
use gonka_thesoul_vesting::error::ContractError;
use gonka_thesoul_vesting::msg::{QueryMsg, QueryResponse};
use gonka_thesoul_vesting::response::{BankMsg, Coin, Response};
use gonka_thesoul_vesting::state::{
    tranche_gnk_amount, tranche_unlock_offset, Tranche, VestingState,
};

const START: u64 = 1_571_797_419;
const DAY: u64 = 24 * 3600;

fn fresh() -> VestingState {
    instantiate(
        Ok("admin".to_string()),
        Ok("recipient".to_string()),
        Err(ContractError::Std("no grpc".to_string())),
        START,
    )
    .unwrap()
    .0
}

fn coin(amount: U256) -> Result<Coin, ContractError> {
    Ok(Coin { denom: "ngonka".to_string(), amount })
}

fn attrs(res: &Response) -> Vec<(String, String)> {
    res.attributes.iter().map(|a| (a.key.clone(), a.value.clone())).collect()
}

fn pairs(v: &[(&str, &str)]) -> Vec<(String, String)> {
    v.iter().map(|(k, x)| (k.to_string(), x.to_string())).collect()
}

#[test]
fn decimal_of_small_and_large_numbers() {
    assert_eq!(u128_to_decimal(0), "0");
    assert_eq!(u128_to_decimal(9), "9");
    assert_eq!(u128_to_decimal(10), "10");
    assert_eq!(u128_to_decimal(1_234_567_890), "1234567890");
    assert_eq!(u128_to_decimal(u128::MAX), u128::MAX.to_string());
}

#[test]
fn decimal_of_256_bit_numbers() {
    // 2^128
    let x = U256 { high: 1, low: 0 };
    assert_eq!(x.to_decimal(), "340282366920938463463374607431768211456");
    // 2^256 - 1
    let max = U256 { high: u128::MAX, low: u128::MAX };
    assert_eq!(
        max.to_decimal(),
        "115792089237316195423570985008687907853269984665640564039457584007913129639935"
    );
}

#[test]
fn u256_comparisons() {
    let big = U256 { high: 1, low: 0 };
    assert!(!big.lt_u128(u128::MAX));
    assert_eq!(big.saturating_u128(), u128::MAX);
    assert!(U256::from_u128(5).lt_u128(6));
    assert!(!U256::from_u128(6).lt_u128(6));
    assert!(U256::from_u128(0).is_zero());
    assert!(!big.is_zero());
    assert_eq!(U256::from_u128(77).saturating_u128(), 77);
}

#[test]
fn error_messages() {
    assert_eq!(ContractError::Unauthorized {}.message(), "Unauthorized");
    assert_eq!(ContractError::ContractPaused {}.message(), "Contract is paused");
    assert_eq!(ContractError::ZeroAmount {}.message(), "Zero amount not allowed");
    assert_eq!(
        ContractError::InsufficientBalance { available: 5, needed: 7 }.message(),
        "Insufficient contract balance: 5, needed: 7"
    );
    assert_eq!(
        ContractError::TrancheNotFound { id: 9 }.message(),
        "Tranche 9 not found (valid: 0-3)"
    );
    assert_eq!(
        ContractError::TrancheAlreadyReleased { id: 2 }.message(),
        "Tranche 2 already released"
    );
    assert_eq!(
        ContractError::TrancheNotUnlocked { id: 3, unlock_at: 1000 }.message(),
        "Tranche 3 is locked until timestamp 1000"
    );
    assert_eq!(ContractError::Std("boom".to_string()).message(), "boom");
}

#[test]
fn native_denom_from_supply() {
    let supply = |d: &str| {
        Ok(QueryTotalSupplyResponse {
            supply: vec![CoinProto { denom: d.to_string(), amount: "1".to_string() }],
        })
    };
    assert_eq!(get_native_denom(&supply("ugnk")).unwrap(), "ugnk");
    assert_eq!(get_native_denom(&supply("")).unwrap(), "ngonka");
    assert_eq!(
        get_native_denom(&Ok(QueryTotalSupplyResponse { supply: vec![] })).unwrap(),
        "ngonka"
    );
    assert_eq!(
        get_native_denom(&Err(ContractError::Std("x".to_string()))).unwrap(),
        "ngonka"
    );
}

#[test]
fn instantiate_builds_schedule_and_response() {
    let (state, res) = instantiate(
        Ok("admin".to_string()),
        Ok("recipient".to_string()),
        Ok(QueryTotalSupplyResponse {
            supply: vec![CoinProto { denom: "ugnk".to_string(), amount: "1".to_string() }],
        }),
        START,
    )
    .unwrap();
    assert!(state.check_well_formed());
    assert_eq!(state.config.native_denom, "ugnk");
    assert!(!state.config.is_paused);
    assert_eq!(state.tranches[0].unlock_time, START);
    assert_eq!(state.tranches[1].unlock_time, START + 90 * DAY);
    assert_eq!(state.tranches[2].unlock_time, START + 180 * DAY);
    assert_eq!(state.tranches[3].unlock_time, START + 270 * DAY);
    assert_eq!(
        attrs(&res),
        pairs(&[
            ("method", "instantiate"),
            ("admin", "admin"),
            ("recipient", "recipient"),
            ("native_denom", "ugnk"),
            ("start_time", "1571797419"),
            ("tranches", "4"),
        ])
    );
    assert!(res.messages.is_empty());
}

#[test]
fn instantiate_reports_invalid_addresses_in_order() {
    let r = instantiate(
        Err(ContractError::Std("bad admin".to_string())),
        Err(ContractError::Std("bad recipient".to_string())),
        Err(ContractError::Std("x".to_string())),
        START,
    );
    assert_eq!(r.err(), Some(ContractError::Std("bad admin".to_string())));
    let r = instantiate(
        Ok("admin".to_string()),
        Err(ContractError::Std("bad recipient".to_string())),
        Err(ContractError::Std("x".to_string())),
        START,
    );
    assert_eq!(r.err(), Some(ContractError::Std("bad recipient".to_string())));
}

#[test]
fn schedule_values() {
    let total: u128 = (0..4).map(tranche_gnk_amount).sum();
    assert_eq!(total, 970_000_000_000_000);
    assert_eq!(tranche_unlock_offset(0), 0);
    assert_eq!(tranche_unlock_offset(1), 7_776_000);
    assert_eq!(tranche_unlock_offset(2), 15_552_000);
    assert_eq!(tranche_unlock_offset(3), 23_328_000);
}

#[test]
fn release_sends_to_recipient_in_native_denom() {
    let mut state = fresh();
    let res = release_tranche(&mut state, 0, START, coin(U256::from_u128(500_000_000_000_000)))
        .unwrap();
    assert_eq!(res.messages.len(), 1);
    match &res.messages[0] {
        BankMsg::Send { to_address, amount } => {
            assert_eq!(to_address, "recipient");
            assert_eq!(amount.len(), 1);
            assert_eq!(amount[0].denom, "ngonka");
            assert_eq!(amount[0].amount, U256::from_u128(500_000_000_000_000));
        }
    }
    assert_eq!(
        attrs(&res),
        pairs(&[
            ("method", "release_tranche"),
            ("tranche_id", "0"),
            ("gnk_amount", "500000000000000"),
            ("recipient", "recipient"),
        ])
    );
    assert!(state.tranches[0].released);
    assert!(!state.tranches[1].released);
}

#[test]
fn release_unknown_tranche() {
    let mut state = fresh();
    let err = release_tranche(&mut state, 4, START + 400 * DAY, coin(U256::from_u128(1)))
        .unwrap_err();
    assert_eq!(err, ContractError::TrancheNotFound { id: 4 });
}

#[test]
fn release_locked_reports_unlock_time() {
    let mut state = fresh();
    let err = release_tranche(&mut state, 2, START + 180 * DAY - 1, coin(U256::from_u128(1)))
        .unwrap_err();
    assert_eq!(err, ContractError::TrancheNotUnlocked { id: 2, unlock_at: START + 180 * DAY });
    // exactly at the unlock time it goes through
    release_tranche(&mut state, 2, START + 180 * DAY, coin(U256::from_u128(150_000_000_000_000)))
        .unwrap();
}

#[test]
fn release_with_insufficient_balance() {
    let mut state = fresh();
    let err = release_tranche(&mut state, 0, START, coin(U256::from_u128(7))).unwrap_err();
    assert_eq!(
        err,
        ContractError::InsufficientBalance { available: 7, needed: 500_000_000_000_000 }
    );
    assert!(!state.tranches[0].released);
}

#[test]
fn release_passes_on_balance_query_failure() {
    let mut state = fresh();
    let err = release_tranche(&mut state, 0, START, Err(ContractError::Std("query".to_string())))
        .unwrap_err();
    assert_eq!(err, ContractError::Std("query".to_string()));
    assert!(!state.tranches[0].released);
}

#[test]
fn update_recipient_rejects_invalid_address() {
    let mut state = fresh();
    let err = update_recipient(
        &mut state,
        &"admin".to_string(),
        Err(ContractError::Std("invalid".to_string())),
    )
    .unwrap_err();
    assert_eq!(err, ContractError::Std("invalid".to_string()));
    assert_eq!(state.config.recipient, "recipient");
}

#[test]
fn withdraw_zero_amount_is_refused() {
    let state = fresh();
    let err = withdraw_native_tokens(
        &state,
        &"admin".to_string(),
        0,
        "dest".to_string(),
        Ok("dest".to_string()),
    )
    .unwrap_err();
    assert_eq!(err, ContractError::ZeroAmount {});
}

#[test]
fn withdraw_by_non_admin_is_refused_before_validation() {
    let state = fresh();
    let err = withdraw_native_tokens(
        &state,
        &"someone".to_string(),
        0,
        "dest".to_string(),
        Err(ContractError::Std("invalid".to_string())),
    )
    .unwrap_err();
    assert_eq!(err, ContractError::Unauthorized {});
}

#[test]
fn withdraw_sends_amount() {
    let state = fresh();
    let res = withdraw_native_tokens(
        &state,
        &"admin".to_string(),
        42,
        "dest".to_string(),
        Ok("dest".to_string()),
    )
    .unwrap();
    match &res.messages[0] {
        BankMsg::Send { to_address, amount } => {
            assert_eq!(to_address, "dest");
            assert_eq!(amount[0].amount, U256::from_u128(42));
            assert_eq!(amount[0].denom, "ngonka");
        }
    }
    assert_eq!(
        attrs(&res),
        pairs(&[("method", "withdraw"), ("amount", "42"), ("recipient", "dest")])
    );
}

#[test]
fn emergency_withdraw_without_funds() {
    let state = fresh();
    let res = emergency_withdraw(
        &state,
        &"admin".to_string(),
        "dest".to_string(),
        Ok("dest".to_string()),
        coin(U256::from_u128(0)),
    )
    .unwrap();
    assert!(res.messages.is_empty());
    assert_eq!(attrs(&res), pairs(&[("method", "emergency_withdraw"), ("message", "no_funds")]));
}

#[test]
fn emergency_withdraw_sends_whole_balance() {
    let state = fresh();
    let balance = U256 { high: 1, low: 5 };
    let res = emergency_withdraw(
        &state,
        &"admin".to_string(),
        "dest".to_string(),
        Ok("dest".to_string()),
        coin(balance),
    )
    .unwrap();
    match &res.messages[0] {
        BankMsg::Send { to_address, amount } => {
            assert_eq!(to_address, "dest");
            assert_eq!(amount[0].amount, balance);
        }
    }
    assert_eq!(
        attrs(&res),
        pairs(&[
            ("method", "emergency_withdraw"),
            ("amount", "340282366920938463463374607431768211461"),
            ("recipient", "dest"),
        ])
    );
}

#[test]
fn query_answers() {
    let state = fresh();
    assert!(query_tranche(&state, 4).is_none());
    let t = query_tranche(&state, 3).unwrap();
    assert_eq!(t.unlock_time, START + 270 * DAY);
    assert_eq!(query_all_tranches(&state).unwrap().tranches.len(), 4);
    let mut short = fresh();
    short.tranches.pop();
    assert!(query_all_tranches(&short).is_none());
    assert_eq!(
        query(
            &short,
            QueryMsg::AllTranches {},
            QueryReplies {
                balance: coin(U256::from_u128(0)),
                absent_tranche: ContractError::Std("tranche 3 not found".to_string()),
            },
        )
        .err(),
        Some(ContractError::Std("tranche 3 not found".to_string()))
    );
    let replies = |balance: Result<Coin, ContractError>| QueryReplies {
        balance,
        absent_tranche: ContractError::Std("tranche 7 not found".to_string()),
    };
    assert_eq!(
        query(&state, QueryMsg::Tranche { tranche_id: 7 }, replies(coin(U256::from_u128(0)))).err(),
        Some(ContractError::Std("tranche 7 not found".to_string()))
    );
    match query(&state, QueryMsg::NativeBalance {}, replies(coin(U256::from_u128(11)))).unwrap() {
        QueryResponse::NativeBalance(b) => assert_eq!(b.balance.amount, U256::from_u128(11)),
        _ => panic!("wrong answer"),
    }
    assert_eq!(
        query(&state, QueryMsg::NativeBalance {}, replies(Err(ContractError::Std("q".to_string()))))
            .err(),
        Some(ContractError::Std("q".to_string()))
    );
}

#[test]
fn migrate_reports_versions() {
    let res = migrate("0.0.9".to_string(), "0.1.0");
    assert_eq!(
        attrs(&res),
        pairs(&[("action", "migrate"), ("from_version", "0.0.9"), ("to_version", "0.1.0")])
    );
}

#[test]
fn well_formedness_check() {
    let mut state = fresh();
    assert!(state.check_well_formed());
    state.tranches[1] = Tranche { gnk_amount: 1, ..state.tranches[1] };
    assert!(!state.check_well_formed());
    let mut state = fresh();
    state.tranches.pop();
    assert!(!state.check_well_formed());
}
