use cosmwasm_std::testing::{mock_env, MockApi};
use cosmwasm_std::Api;
use gonka_thesoul_vesting::contract::{
    execute, instantiate, query, ChainReplies, QueryReplies, QueryTotalSupplyResponse,
};
use gonka_thesoul_vesting::decimal::U256;
use gonka_thesoul_vesting::error::ContractError;
use gonka_thesoul_vesting::msg::{ExecuteMsg, InstantiateMsg, QueryMsg, QueryResponse};
use gonka_thesoul_vesting::response::{Coin, Response};
use gonka_thesoul_vesting::state::VestingState;

fn validate(api: &MockApi, addr: &str) -> Result<String, ContractError> {
    api.addr_validate(addr)
        .map(|a| a.to_string())
        .map_err(|e| ContractError::Std(e.to_string()))
}

fn mock_instantiate_msg(api: &MockApi) -> InstantiateMsg {
    InstantiateMsg {
        admin: api.addr_make("admin").to_string(),
        recipient: api.addr_make("recipient").to_string(),
    }
}

/// The mock chain answers no gRPC query, so the total supply query fails.
fn no_supply() -> Result<QueryTotalSupplyResponse, ContractError> {
    Err(ContractError::Std("Unsupported query type: Grpc".to_string()))
}

fn now_seconds() -> u64 {
    mock_env().block.time.seconds()
}

fn setup(api: &MockApi) -> (VestingState, Response) {
    let msg = mock_instantiate_msg(api);
    instantiate(
        validate(api, &msg.admin),
        validate(api, &msg.recipient),
        no_supply(),
        now_seconds(),
    )
    .unwrap()
}

fn funded(amount: u128) -> Result<Coin, ContractError> {
    Ok(Coin { denom: "ngonka".to_string(), amount: U256::from_u128(amount) })
}

fn replies(api: &MockApi, recipient: Option<&str>, balance: u128) -> ChainReplies {
    ChainReplies {
        recipient: match recipient {
            Some(r) => validate(api, r),
            None => Ok(String::new()),
        },
        balance: funded(balance),
    }
}

fn query_replies() -> QueryReplies {
    QueryReplies {
        balance: funded(0),
        absent_tranche: ContractError::Std("not found".to_string()),
    }
}

fn has_attribute(res: &Response, key: &str, value: &str) -> bool {
    res.attributes.iter().any(|a| a.key == key && a.value == value)
}

#[test]
fn proper_instantiation() {
    let api = MockApi::default();
    let recipient_addr = api.addr_make("recipient").to_string();
    let (state, res) = setup(&api);
    assert!(has_attribute(&res, "recipient", &recipient_addr));
    assert!(has_attribute(&res, "tranches", "4"));

    let all = match query(&state, QueryMsg::AllTranches {}, query_replies()).unwrap() {
        QueryResponse::AllTranches(a) => a,
        _ => panic!("wrong answer"),
    };
    assert_eq!(all.tranches.len(), 4);
    assert_eq!(all.tranches[0].gnk_amount, 500_000_000_000_000u128);
    assert_eq!(all.tranches[1].gnk_amount, 150_000_000_000_000u128);
    assert_eq!(all.tranches[2].gnk_amount, 150_000_000_000_000u128);
    assert_eq!(all.tranches[3].gnk_amount, 170_000_000_000_000u128);
    assert!(!all.tranches[0].released);
}

#[test]
fn test_pause_resume() {
    let api = MockApi::default();
    let admin_addr = api.addr_make("admin").to_string();
    let (mut state, _) = setup(&api);

    execute(&mut state, now_seconds(), &admin_addr, ExecuteMsg::Pause {}, replies(&api, None, 0))
        .unwrap();
    let config = match query(&state, QueryMsg::Config {}, query_replies()).unwrap() {
        QueryResponse::Config(c) => c,
        _ => panic!("wrong answer"),
    };
    assert!(config.is_paused);

    execute(&mut state, now_seconds(), &admin_addr, ExecuteMsg::Resume {}, replies(&api, None, 0))
        .unwrap();
    let config = match query(&state, QueryMsg::Config {}, query_replies()).unwrap() {
        QueryResponse::Config(c) => c,
        _ => panic!("wrong answer"),
    };
    assert!(!config.is_paused);
}

#[test]
fn test_update_recipient() {
    let api = MockApi::default();
    let admin_addr = api.addr_make("admin").to_string();
    let new_recipient = api.addr_make("newrecipient").to_string();
    let (mut state, _) = setup(&api);

    execute(
        &mut state,
        now_seconds(),
        &admin_addr,
        ExecuteMsg::UpdateRecipient { recipient: new_recipient.clone() },
        replies(&api, Some(&new_recipient), 0),
    )
    .unwrap();

    let config = match query(&state, QueryMsg::Config {}, query_replies()).unwrap() {
        QueryResponse::Config(c) => c,
        _ => panic!("wrong answer"),
    };
    assert_eq!(config.recipient, new_recipient);
}

#[test]
fn test_release_tranche_0() {
    let api = MockApi::default();
    let (mut state, _) = setup(&api);

    // Anyone can release tranche 0 (immediate), once the contract is funded
    let res = execute(
        &mut state,
        now_seconds(),
        &"anyone".to_string(),
        ExecuteMsg::ReleaseTranche { tranche_id: 0 },
        replies(&api, None, 970_000_000_000_000),
    )
    .unwrap();

    assert!(res.messages.len() == 1);
    assert!(has_attribute(&res, "gnk_amount", "500000000000000"));

    // The tranche is marked released
    let t = match query(&state, QueryMsg::Tranche { tranche_id: 0 }, query_replies()).unwrap() {
        QueryResponse::Tranche(t) => t,
        _ => panic!("wrong answer"),
    };
    assert!(t.released);
}

#[test]
fn test_cannot_release_locked_tranche() {
    let api = MockApi::default();
    let (mut state, _) = setup(&api);

    let err = execute(
        &mut state,
        now_seconds(),
        &"anyone".to_string(),
        ExecuteMsg::ReleaseTranche { tranche_id: 1 },
        replies(&api, None, 970_000_000_000_000),
    )
    .unwrap_err();

    assert!(matches!(err, ContractError::TrancheNotUnlocked { id: 1, .. }));
}

#[test]
fn test_release_tranche_after_unlock() {
    let api = MockApi::default();
    let (mut state, _) = setup(&api);

    // Advance time by 91 days
    let later = mock_env().block.time.plus_seconds(91 * 24 * 3600).seconds();
    let res = execute(
        &mut state,
        later,
        &"anyone".to_string(),
        ExecuteMsg::ReleaseTranche { tranche_id: 1 },
        replies(&api, None, 970_000_000_000_000),
    )
    .unwrap();

    assert!(has_attribute(&res, "gnk_amount", "150000000000000"));
}

#[test]
fn test_cannot_release_twice() {
    let api = MockApi::default();
    let (mut state, _) = setup(&api);
    let anyone = "anyone".to_string();

    execute(
        &mut state,
        now_seconds(),
        &anyone,
        ExecuteMsg::ReleaseTranche { tranche_id: 0 },
        replies(&api, None, 970_000_000_000_000),
    )
    .unwrap();

    let err = execute(
        &mut state,
        now_seconds(),
        &anyone,
        ExecuteMsg::ReleaseTranche { tranche_id: 0 },
        replies(&api, None, 970_000_000_000_000),
    )
    .unwrap_err();

    assert!(matches!(err, ContractError::TrancheAlreadyReleased { id: 0 }));
}

#[test]
fn test_pause_blocks_release() {
    let api = MockApi::default();
    let admin_addr = api.addr_make("admin").to_string();
    let (mut state, _) = setup(&api);

    // Admin pauses
    execute(&mut state, now_seconds(), &admin_addr, ExecuteMsg::Pause {}, replies(&api, None, 0))
        .unwrap();

    // Release fails
    let err = execute(
        &mut state,
        now_seconds(),
        &"anyone".to_string(),
        ExecuteMsg::ReleaseTranche { tranche_id: 0 },
        replies(&api, None, 970_000_000_000_000),
    )
    .unwrap_err();

    assert!(matches!(err, ContractError::ContractPaused {}));
}

#[test]
fn test_unauthorized_update() {
    let api = MockApi::default();
    let attacker = api.addr_make("attacker").to_string();
    let hacker = api.addr_make("hacker").to_string();
    let (mut state, _) = setup(&api);

    let err = execute(
        &mut state,
        now_seconds(),
        &attacker,
        ExecuteMsg::UpdateRecipient { recipient: hacker.clone() },
        replies(&api, Some(&hacker), 0),
    )
    .unwrap_err();
    assert!(matches!(err, ContractError::Unauthorized {}));
}
