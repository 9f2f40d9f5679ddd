use vstd::prelude::*;

use crate::decimal::{decimal, u128_to_decimal, U256};
use crate::error::ContractError;
use crate::msg::{
    AllTranchesResponse, ConfigResponse, ExecuteMsg, NativeBalanceResponse, QueryMsg,
    QueryResponse, QueryResponseView, TrancheResponse,
};
use crate::response::{send_coin, send_one, Coin, Response, ResponseView};
use crate::state::{
    scheduled_amount, scheduled_offset, tranche_gnk_amount, tranche_matches_schedule,
    tranche_unlock_offset, Config, ConfigView, StateView, Tranche, VestingState, NUM_TRANCHES,
};

verus! {

/// The bank module's `TotalSupply` query (it has no fields).
#[derive(Debug)]
pub struct QueryTotalSupplyRequest {}

/// The answer to the bank module's `TotalSupply` query.
#[derive(Debug)]
pub struct QueryTotalSupplyResponse {
    pub supply: Vec<CoinProto>,
}

/// A coin as the bank module encodes it.
#[derive(Debug)]
pub struct CoinProto {
    pub denom: String,
    pub amount: String,
}

/// What the chain answered for one execute message: the validated form of the message's
/// recipient (for the messages that carry one) and the contract's balance in its native
/// denomination (for the messages that move funds). A message ignores what it does not use.
#[derive(Debug)]
pub struct ChainReplies {
    pub recipient: Result<String, ContractError>,
    pub balance: Result<Coin, ContractError>,
}

// ---------------------------------------------------------------------------------------------
// Native denomination
// ---------------------------------------------------------------------------------------------

/// The denomination that the contract adopts, given the answer to the total supply query:
/// the denomination of the first coin of the supply where there is one and it is not empty,
/// "ngonka" otherwise (also when the query failed).
pub open spec fn native_denom_of(supply: Result<QueryTotalSupplyResponse, ContractError>) -> Seq<
    char,
> {
    match supply {
        Ok(r) => if r.supply@.len() > 0 && r.supply@[0].denom@.len() > 0 {
            r.supply@[0].denom@
        } else {
            "ngonka"@
        },
        Err(_) => "ngonka"@,
    }
}

/// The native denomination, from the answer to the total supply query. Never fails.
pub fn get_native_denom(supply: &Result<QueryTotalSupplyResponse, ContractError>) -> (r: Result<
    String,
    ContractError,
>)
    ensures
        r matches Ok(d) && d@ == native_denom_of(*supply),
{
    match supply {
        Ok(response) => {
            if response.supply.len() > 0 {
                let coin = &response.supply[0];
                if !coin.denom.as_str().is_empty() {
                    return Ok(coin.denom.clone());
                }
            }
            Ok(String::from_str("ngonka"))
        },
        Err(_) => Ok(String::from_str("ngonka")),
    }
}

// ---------------------------------------------------------------------------------------------
// Instantiation
// ---------------------------------------------------------------------------------------------

/// Tranche `i` as instantiation creates it for a contract started at `start`.
pub open spec fn initial_tranche(i: int, start: u64) -> Tranche {
    Tranche {
        id: i as u32,
        gnk_amount: scheduled_amount(i),
        unlock_time: (start + scheduled_offset(i)) as u64,
        released: false,
    }
}

/// The state right after instantiation.
pub open spec fn initial_state(
    admin: Seq<char>,
    recipient: Seq<char>,
    native_denom: Seq<char>,
    start: u64,
) -> StateView {
    StateView {
        config: ConfigView { admin, recipient, native_denom, is_paused: false, start_time: start },
        tranches: Seq::new(NUM_TRANCHES as nat, |i: int| initial_tranche(i, start)),
    }
}

/// The response to a successful instantiation.
pub open spec fn instantiate_response(
    admin: Seq<char>,
    recipient: Seq<char>,
    native_denom: Seq<char>,
    start: u64,
) -> ResponseView {
    ResponseView::empty().attr("method"@, "instantiate"@).attr("admin"@, admin).attr(
        "recipient"@,
        recipient,
    ).attr("native_denom"@, native_denom).attr("start_time"@, decimal(start as nat)).attr(
        "tranches"@,
        decimal(NUM_TRANCHES as nat),
    )
}

/// What instantiation gives: the first failed address validation, else the initial state
/// and its response.
pub open spec fn instantiate_result(
    admin: Result<String, ContractError>,
    recipient: Result<String, ContractError>,
    supply: Result<QueryTotalSupplyResponse, ContractError>,
    start: u64,
) -> Result<(StateView, ResponseView), ContractError> {
    match admin {
        Err(e) => Err(e),
        Ok(a) => match recipient {
            Err(e) => Err(e),
            Ok(r) => Ok(
                (
                    initial_state(a@, r@, native_denom_of(supply), start),
                    instantiate_response(a@, r@, native_denom_of(supply), start),
                ),
            ),
        },
    }
}

/// An instantiation result as a mathematical value.
pub open spec fn instantiate_view(r: Result<(VestingState, Response), ContractError>) -> Result<
    (StateView, ResponseView),
    ContractError,
> {
    match r {
        Ok((s, resp)) => Ok((s@, resp@)),
        Err(e) => Err(e),
    }
}

/// Sets the contract up: `admin` and `recipient` are the chain's validation of the addresses
/// in the instantiate message, `supply` its answer to the total supply query, `start_time`
/// the block time in seconds.
pub fn instantiate(
    admin: Result<String, ContractError>,
    recipient: Result<String, ContractError>,
    supply: Result<QueryTotalSupplyResponse, ContractError>,
    start_time: u64,
) -> (r: Result<(VestingState, Response), ContractError>)
    requires
        start_time + scheduled_offset(NUM_TRANCHES - 1) <= u64::MAX,
    ensures
        instantiate_view(r) == instantiate_result(admin, recipient, supply, start_time),
        r matches Ok((s, _)) ==> s@.well_formed(),
{
    let admin = match admin {
        Ok(a) => a,
        Err(e) => return Err(e),
    };
    let recipient = match recipient {
        Ok(a) => a,
        Err(e) => return Err(e),
    };
    let native_denom = match get_native_denom(&supply) {
        Ok(d) => d,
        Err(e) => return Err(e),
    };
    let config = Config {
        admin: admin.clone(),
        recipient: recipient.clone(),
        native_denom: native_denom.clone(),
        is_paused: false,
        start_time,
    };
    let mut tranches: Vec<Tranche> = Vec::new();
    let mut i: u32 = 0;
    while i < NUM_TRANCHES
        invariant
            i <= NUM_TRANCHES,
            start_time + scheduled_offset(NUM_TRANCHES - 1) <= u64::MAX,
            tranches@.len() == i,
            forall|j: int| 0 <= j < i ==> #[trigger] tranches@[j] == initial_tranche(j, start_time),
        decreases NUM_TRANCHES - i,
    {
        let tranche = Tranche {
            id: i,
            gnk_amount: tranche_gnk_amount(i),
            unlock_time: start_time + tranche_unlock_offset(i),
            released: false,
        };
        tranches.push(tranche);
        i = i + 1;
    }
    let state = VestingState { config, tranches };
    let ghost expected = initial_state(admin@, recipient@, native_denom@, start_time);
    assert(state@.tranches =~= expected.tranches);
    assert forall|j: int| 0 <= j < NUM_TRANCHES implies #[trigger] tranche_matches_schedule(
        state@.tranches[j],
        j,
        start_time,
    ) by {
        assert(state@.tranches[j] == initial_tranche(j, start_time));
    }
    let start_text = u128_to_decimal(start_time as u128);
    let count_text = u128_to_decimal(NUM_TRANCHES as u128);
    let response = Response::new().add_attribute("method", String::from_str("instantiate")).add_attribute(
        "admin",
        admin,
    ).add_attribute("recipient", recipient).add_attribute("native_denom", native_denom).add_attribute(
        "start_time",
        start_text,
    ).add_attribute("tranches", count_text);
    Ok((state, response))
}

// ---------------------------------------------------------------------------------------------
// Execution
// ---------------------------------------------------------------------------------------------

/// An execution outcome as a mathematical value.
pub open spec fn outcome(r: Result<Response, ContractError>) -> Result<ResponseView, ContractError> {
    match r {
        Ok(resp) => Ok(resp@),
        Err(e) => Err(e),
    }
}

/// The state with tranche `id` marked released.
pub open spec fn mark_released(s: StateView, id: u32) -> StateView {
    StateView {
        config: s.config,
        tranches: s.tranches.update(
            id as int,
            Tranche { released: true, ..s.tranches[id as int] },
        ),
    }
}

/// The response to releasing `amount` of tranche `id` to `recipient`.
pub open spec fn release_response(
    recipient: Seq<char>,
    native_denom: Seq<char>,
    id: u32,
    amount: u128,
) -> ResponseView {
    ResponseView::empty().message(send_one(recipient, native_denom, amount as nat)).attr(
        "method"@,
        "release_tranche"@,
    ).attr("tranche_id"@, decimal(id as nat)).attr("gnk_amount"@, decimal(amount as nat)).attr(
        "recipient"@,
        recipient,
    )
}

/// What `ReleaseTranche { tranche_id: id }` does at block time `now`, given the contract's
/// balance: refused while paused, for an id that holds no tranche, for a released tranche,
/// before the unlock time and when the balance does not cover the tranche; else the tranche
/// is marked released and its amount is sent to the configured recipient.
pub open spec fn release_tranche_step(
    s: StateView,
    id: u32,
    now: u64,
    balance: Result<Coin, ContractError>,
) -> (StateView, Result<ResponseView, ContractError>) {
    if s.config.is_paused {
        (s, Err(ContractError::ContractPaused {  }))
    } else if id >= s.tranches.len() {
        (s, Err(ContractError::TrancheNotFound { id }))
    } else {
        let t = s.tranches[id as int];
        if t.released {
            (s, Err(ContractError::TrancheAlreadyReleased { id }))
        } else if now < t.unlock_time {
            (s, Err(ContractError::TrancheNotUnlocked { id, unlock_at: t.unlock_time }))
        } else {
            match balance {
                Err(e) => (s, Err(e)),
                Ok(c) => if c.amount.value() < t.gnk_amount {
                    (
                        s,
                        Err(
                            ContractError::InsufficientBalance {
                                available: if c.amount.value() <= u128::MAX {
                                    c.amount.value() as u128
                                } else {
                                    u128::MAX
                                },
                                needed: t.gnk_amount,
                            },
                        ),
                    )
                } else {
                    (
                        mark_released(s, id),
                        Ok(
                            release_response(
                                s.config.recipient,
                                s.config.native_denom,
                                id,
                                t.gnk_amount,
                            ),
                        ),
                    )
                },
            }
        }
    }
}

/// Release GNK for a tranche whose unlock time has passed. Anyone may call it: the GNK always
/// goes to the configured recipient.
pub fn release_tranche(
    state: &mut VestingState,
    tranche_id: u32,
    now: u64,
    balance: Result<Coin, ContractError>,
) -> (r: Result<Response, ContractError>)
    ensures
        (final(state)@, outcome(r)) == release_tranche_step(old(state)@, tranche_id, now, balance),
{
    if state.config.is_paused {
        return Err(ContractError::ContractPaused {  });
    }
    if tranche_id as usize >= state.tranches.len() {
        return Err(ContractError::TrancheNotFound { id: tranche_id });
    }
    let tranche = state.tranches[tranche_id as usize];
    if tranche.released {
        return Err(ContractError::TrancheAlreadyReleased { id: tranche_id });
    }
    if now < tranche.unlock_time {
        return Err(ContractError::TrancheNotUnlocked { id: tranche_id, unlock_at: tranche.unlock_time });
    }
    let contract_balance = match balance {
        Ok(c) => c,
        Err(e) => return Err(e),
    };
    if contract_balance.amount.lt_u128(tranche.gnk_amount) {
        return Err(
            ContractError::InsufficientBalance {
                available: contract_balance.amount.saturating_u128(),
                needed: tranche.gnk_amount,
            },
        );
    }
    let ghost old_state = state@;
    state.tranches.set(
        tranche_id as usize,
        Tranche {
            id: tranche.id,
            gnk_amount: tranche.gnk_amount,
            unlock_time: tranche.unlock_time,
            released: true,
        },
    );
    assert(state@.tranches =~= mark_released(old_state, tranche_id).tranches);
    let send_msg = send_coin(
        state.config.recipient.clone(),
        Coin {
            denom: state.config.native_denom.clone(),
            amount: U256::from_u128(tranche.gnk_amount),
        },
    );
    let id_text = u128_to_decimal(tranche_id as u128);
    let amount_text = u128_to_decimal(tranche.gnk_amount);
    let response = Response::new().add_message(send_msg).add_attribute(
        "method",
        String::from_str("release_tranche"),
    ).add_attribute("tranche_id", id_text).add_attribute("gnk_amount", amount_text).add_attribute(
        "recipient",
        state.config.recipient.clone(),
    );
    Ok(response)
}

/// The state with the pause flag set to `paused`.
pub open spec fn with_paused(s: StateView, paused: bool) -> StateView {
    StateView { config: ConfigView { is_paused: paused, ..s.config }, tranches: s.tranches }
}

/// What `Pause {}` from `sender` does: refused unless the sender is the admin; else the
/// contract is paused.
pub open spec fn pause_step(s: StateView, sender: Seq<char>) -> (
    StateView,
    Result<ResponseView, ContractError>,
) {
    if sender != s.config.admin {
        (s, Err(ContractError::Unauthorized {  }))
    } else {
        (with_paused(s, true), Ok(ResponseView::empty().attr("method"@, "pause"@)))
    }
}

/// What `Resume {}` from `sender` does: refused unless the sender is the admin; else the
/// contract is resumed.
pub open spec fn resume_step(s: StateView, sender: Seq<char>) -> (
    StateView,
    Result<ResponseView, ContractError>,
) {
    if sender != s.config.admin {
        (s, Err(ContractError::Unauthorized {  }))
    } else {
        (with_paused(s, false), Ok(ResponseView::empty().attr("method"@, "resume"@)))
    }
}

/// Pause all releases (admin only).
pub fn pause_contract(state: &mut VestingState, sender: &String) -> (r: Result<
    Response,
    ContractError,
>)
    ensures
        (final(state)@, outcome(r)) == pause_step(old(state)@, sender@),
{
    if !sender.eq(&state.config.admin) {
        return Err(ContractError::Unauthorized {  });
    }
    state.config.is_paused = true;
    Ok(Response::new().add_attribute("method", String::from_str("pause")))
}

/// Resume releases (admin only).
pub fn resume_contract(state: &mut VestingState, sender: &String) -> (r: Result<
    Response,
    ContractError,
>)
    ensures
        (final(state)@, outcome(r)) == resume_step(old(state)@, sender@),
{
    if !sender.eq(&state.config.admin) {
        return Err(ContractError::Unauthorized {  });
    }
    state.config.is_paused = false;
    Ok(Response::new().add_attribute("method", String::from_str("resume")))
}

/// What `UpdateRecipient` from `sender` does, given the chain's validation of the new
/// recipient: refused unless the sender is the admin, then refused if the address is invalid;
/// else the recipient becomes the validated address.
pub open spec fn update_recipient_step(
    s: StateView,
    sender: Seq<char>,
    validated: Result<String, ContractError>,
) -> (StateView, Result<ResponseView, ContractError>) {
    if sender != s.config.admin {
        (s, Err(ContractError::Unauthorized {  }))
    } else {
        match validated {
            Err(e) => (s, Err(e)),
            Ok(a) => (
                StateView { config: ConfigView { recipient: a@, ..s.config }, tranches: s.tranches },
                Ok(
                    ResponseView::empty().attr("method"@, "update_recipient"@).attr(
                        "recipient"@,
                        a@,
                    ),
                ),
            ),
        }
    }
}

/// Change the recipient address (admin only).
pub fn update_recipient(
    state: &mut VestingState,
    sender: &String,
    validated_recipient: Result<String, ContractError>,
) -> (r: Result<Response, ContractError>)
    ensures
        (final(state)@, outcome(r)) == update_recipient_step(
            old(state)@,
            sender@,
            validated_recipient,
        ),
{
    if !sender.eq(&state.config.admin) {
        return Err(ContractError::Unauthorized {  });
    }
    let validated = match validated_recipient {
        Ok(a) => a,
        Err(e) => return Err(e),
    };
    state.config.recipient = validated.clone();
    Ok(
        Response::new().add_attribute("method", String::from_str("update_recipient")).add_attribute(
            "recipient",
            validated,
        ),
    )
}

/// What `WithdrawNativeTokens { amount, recipient }` from `sender` does: refused unless the
/// sender is the admin, then if the address is invalid, then for a zero amount; else `amount`
/// of the native denomination is sent to the validated address. The state does not change.
pub open spec fn withdraw_step(
    s: StateView,
    sender: Seq<char>,
    amount: u128,
    recipient: Seq<char>,
    validated: Result<String, ContractError>,
) -> (StateView, Result<ResponseView, ContractError>) {
    if sender != s.config.admin {
        (s, Err(ContractError::Unauthorized {  }))
    } else {
        match validated {
            Err(e) => (s, Err(e)),
            Ok(a) => if amount == 0 {
                (s, Err(ContractError::ZeroAmount {  }))
            } else {
                (
                    s,
                    Ok(
                        ResponseView::empty().message(
                            send_one(a@, s.config.native_denom, amount as nat),
                        ).attr("method"@, "withdraw"@).attr("amount"@, decimal(amount as nat)).attr(
                            "recipient"@,
                            recipient,
                        ),
                    ),
                )
            },
        }
    }
}

/// Withdraw a given amount of the native token (admin only).
pub fn withdraw_native_tokens(
    state: &VestingState,
    sender: &String,
    amount: u128,
    recipient: String,
    validated_recipient: Result<String, ContractError>,
) -> (r: Result<Response, ContractError>)
    ensures
        (state@, outcome(r)) == withdraw_step(
            state@,
            sender@,
            amount,
            recipient@,
            validated_recipient,
        ),
{
    if !sender.eq(&state.config.admin) {
        return Err(ContractError::Unauthorized {  });
    }
    let recipient_addr = match validated_recipient {
        Ok(a) => a,
        Err(e) => return Err(e),
    };
    if amount == 0 {
        return Err(ContractError::ZeroAmount {  });
    }
    let send_msg = send_coin(
        recipient_addr,
        Coin { denom: state.config.native_denom.clone(), amount: U256::from_u128(amount) },
    );
    let amount_text = u128_to_decimal(amount);
    Ok(
        Response::new().add_message(send_msg).add_attribute(
            "method",
            String::from_str("withdraw"),
        ).add_attribute("amount", amount_text).add_attribute("recipient", recipient),
    )
}

/// What `EmergencyWithdraw { recipient }` from `sender` does, given the contract's balance:
/// refused unless the sender is the admin, then if the address is invalid, then if the balance
/// query failed; with no funds it reports so; else the whole balance is sent to the validated
/// address. The state does not change.
pub open spec fn emergency_withdraw_step(
    s: StateView,
    sender: Seq<char>,
    recipient: Seq<char>,
    validated: Result<String, ContractError>,
    balance: Result<Coin, ContractError>,
) -> (StateView, Result<ResponseView, ContractError>) {
    if sender != s.config.admin {
        (s, Err(ContractError::Unauthorized {  }))
    } else {
        match validated {
            Err(e) => (s, Err(e)),
            Ok(a) => match balance {
                Err(e) => (s, Err(e)),
                Ok(c) => if c.amount.value() == 0 {
                    (
                        s,
                        Ok(
                            ResponseView::empty().attr("method"@, "emergency_withdraw"@).attr(
                                "message"@,
                                "no_funds"@,
                            ),
                        ),
                    )
                } else {
                    (
                        s,
                        Ok(
                            ResponseView::empty().message(
                                send_one(a@, c@.denom, c@.amount),
                            ).attr("method"@, "emergency_withdraw"@).attr(
                                "amount"@,
                                decimal(c@.amount),
                            ).attr("recipient"@, recipient),
                        ),
                    )
                },
            },
        }
    }
}

/// Withdraw the whole native balance (admin only).
pub fn emergency_withdraw(
    state: &VestingState,
    sender: &String,
    recipient: String,
    validated_recipient: Result<String, ContractError>,
    balance: Result<Coin, ContractError>,
) -> (r: Result<Response, ContractError>)
    ensures
        (state@, outcome(r)) == emergency_withdraw_step(
            state@,
            sender@,
            recipient@,
            validated_recipient,
            balance,
        ),
{
    if !sender.eq(&state.config.admin) {
        return Err(ContractError::Unauthorized {  });
    }
    let recipient_addr = match validated_recipient {
        Ok(a) => a,
        Err(e) => return Err(e),
    };
    let balance = match balance {
        Ok(c) => c,
        Err(e) => return Err(e),
    };
    if balance.amount.is_zero() {
        return Ok(
            Response::new().add_attribute(
                "method",
                String::from_str("emergency_withdraw"),
            ).add_attribute("message", String::from_str("no_funds")),
        );
    }
    let amount_text = balance.amount.to_decimal();
    let send_msg = send_coin(recipient_addr, balance);
    Ok(
        Response::new().add_message(send_msg).add_attribute(
            "method",
            String::from_str("emergency_withdraw"),
        ).add_attribute("amount", amount_text).add_attribute("recipient", recipient),
    )
}

/// What one execute message from `sender` at block time `now` does, given the chain's replies.
pub open spec fn execute_step(
    s: StateView,
    now: u64,
    sender: Seq<char>,
    msg: ExecuteMsg,
    replies: ChainReplies,
) -> (StateView, Result<ResponseView, ContractError>) {
    match msg {
        ExecuteMsg::ReleaseTranche { tranche_id } => release_tranche_step(
            s,
            tranche_id,
            now,
            replies.balance,
        ),
        ExecuteMsg::Pause {  } => pause_step(s, sender),
        ExecuteMsg::Resume {  } => resume_step(s, sender),
        ExecuteMsg::UpdateRecipient { recipient } => update_recipient_step(
            s,
            sender,
            replies.recipient,
        ),
        ExecuteMsg::WithdrawNativeTokens { amount, recipient } => withdraw_step(
            s,
            sender,
            amount,
            recipient@,
            replies.recipient,
        ),
        ExecuteMsg::EmergencyWithdraw { recipient } => emergency_withdraw_step(
            s,
            sender,
            recipient@,
            replies.recipient,
            replies.balance,
        ),
    }
}

/// Handles one execute message from `sender` at block time `now`.
pub fn execute(
    state: &mut VestingState,
    now: u64,
    sender: &String,
    msg: ExecuteMsg,
    replies: ChainReplies,
) -> (r: Result<Response, ContractError>)
    ensures
        (final(state)@, outcome(r)) == execute_step(old(state)@, now, sender@, msg, replies),
        old(state)@.well_formed() ==> final(state)@.well_formed(),
{
    let ghost s0 = state@;
    let ghost m = msg;
    let ghost rp = replies;
    let r = match msg {
        ExecuteMsg::ReleaseTranche { tranche_id } => release_tranche(
            state,
            tranche_id,
            now,
            replies.balance,
        ),
        ExecuteMsg::Pause {  } => pause_contract(state, sender),
        ExecuteMsg::Resume {  } => resume_contract(state, sender),
        ExecuteMsg::UpdateRecipient { recipient } => update_recipient(
            state,
            sender,
            replies.recipient,
        ),
        ExecuteMsg::WithdrawNativeTokens { amount, recipient } => withdraw_native_tokens(
            state,
            sender,
            amount,
            recipient,
            replies.recipient,
        ),
        ExecuteMsg::EmergencyWithdraw { recipient } => emergency_withdraw(
            state,
            sender,
            recipient,
            replies.recipient,
            replies.balance,
        ),
    };
    proof {
        if s0.well_formed() {
            crate::laws::lemma_step_keeps_well_formed(s0, now, sender@, m, rp);
        }
    }
    r
}

// ---------------------------------------------------------------------------------------------
// Queries and migration
// ---------------------------------------------------------------------------------------------

/// A stored tranche as a query reports it.
pub open spec fn tranche_response(t: Tranche) -> TrancheResponse {
    TrancheResponse {
        id: t.id,
        gnk_amount: t.gnk_amount,
        unlock_time: t.unlock_time,
        released: t.released,
    }
}

/// What the chain answered for one query: the contract's balance in its native denomination
/// (read by `QueryMsg::NativeBalance`) and the storage's failure to read the first tranche id
/// that the query asks for and under which nothing is stored (the id of `QueryMsg::Tranche`, or
/// the first missing id of 0..NUM_TRANCHES for `QueryMsg::AllTranches`). A query ignores what
/// it does not use.
#[derive(Debug)]
pub struct QueryReplies {
    pub balance: Result<Coin, ContractError>,
    pub absent_tranche: ContractError,
}

/// What a query answers, given the chain's replies: the configuration; one tranche, or the
/// storage's failure where nothing is stored under the id; the tranches stored under ids
/// 0..NUM_TRANCHES in id order, or the storage's failure where one of them is missing; or the
/// balance (or the failure of its query).
pub open spec fn query_result(s: StateView, msg: QueryMsg, replies: QueryReplies) -> Result<
    QueryResponseView,
    ContractError,
> {
    match msg {
        QueryMsg::Config {  } => Ok(QueryResponseView::Config(s.config)),
        QueryMsg::Tranche { tranche_id } => match s.tranche(tranche_id) {
            Some(t) => Ok(QueryResponseView::Tranche(tranche_response(t))),
            None => Err(replies.absent_tranche),
        },
        QueryMsg::AllTranches {  } => if s.tranches.len() >= NUM_TRANCHES {
            Ok(
                QueryResponseView::AllTranches(
                    s.tranches.take(NUM_TRANCHES as int).map_values(
                        |t: Tranche| tranche_response(t),
                    ),
                ),
            )
        } else {
            Err(replies.absent_tranche)
        },
        QueryMsg::NativeBalance {  } => match replies.balance {
            Ok(c) => Ok(QueryResponseView::NativeBalance(c@)),
            Err(e) => Err(e),
        },
    }
}

/// A query answer as a mathematical value.
pub open spec fn query_view(r: Result<QueryResponse, ContractError>) -> Result<
    QueryResponseView,
    ContractError,
> {
    match r {
        Ok(q) => Ok(q@),
        Err(e) => Err(e),
    }
}

/// Answers a query, given the chain's replies.
pub fn query(state: &VestingState, msg: QueryMsg, replies: QueryReplies) -> (r: Result<
    QueryResponse,
    ContractError,
>)
    ensures
        query_view(r) == query_result(state@, msg, replies),
{
    match msg {
        QueryMsg::Config {  } => Ok(QueryResponse::Config(query_config(state))),
        QueryMsg::Tranche { tranche_id } => match query_tranche(state, tranche_id) {
            Some(t) => Ok(QueryResponse::Tranche(t)),
            None => Err(replies.absent_tranche),
        },
        QueryMsg::AllTranches {  } => match query_all_tranches(state) {
            Some(a) => Ok(QueryResponse::AllTranches(a)),
            None => Err(replies.absent_tranche),
        },
        QueryMsg::NativeBalance {  } => match replies.balance {
            Ok(c) => Ok(QueryResponse::NativeBalance(query_native_balance(c))),
            Err(e) => Err(e),
        },
    }
}

/// The configuration.
pub fn query_config(state: &VestingState) -> (r: ConfigResponse)
    ensures
        r@ == state@.config,
{
    ConfigResponse {
        admin: state.config.admin.clone(),
        recipient: state.config.recipient.clone(),
        native_denom: state.config.native_denom.clone(),
        is_paused: state.config.is_paused,
        start_time: state.config.start_time,
    }
}

/// The tranche stored under `tranche_id`, if any.
pub fn query_tranche(state: &VestingState, tranche_id: u32) -> (r: Option<TrancheResponse>)
    ensures
        r == match state@.tranche(tranche_id) {
            Some(t) => Some(tranche_response(t)),
            None => None::<TrancheResponse>,
        },
{
    if tranche_id as usize >= state.tranches.len() {
        return None;
    }
    let t = state.tranches[tranche_id as usize];
    Some(TrancheResponse {
        id: t.id,
        gnk_amount: t.gnk_amount,
        unlock_time: t.unlock_time,
        released: t.released,
    })
}

/// The tranches stored under ids 0..NUM_TRANCHES, by id; `None` where one of these ids holds
/// nothing.
pub fn query_all_tranches(state: &VestingState) -> (r: Option<AllTranchesResponse>)
    ensures
        r is Some <==> state@.tranches.len() >= NUM_TRANCHES,
        r matches Some(a) ==> a.tranches@ == state@.tranches.take(NUM_TRANCHES as int).map_values(
            |t: Tranche| tranche_response(t),
        ),
{
    let mut tranches: Vec<TrancheResponse> = Vec::new();
    let mut i: u32 = 0;
    while i < NUM_TRANCHES
        invariant
            i <= NUM_TRANCHES,
            i <= state@.tranches.len(),
            tranches@ =~= state@.tranches.take(i as int).map_values(
                |t: Tranche| tranche_response(t),
            ),
        decreases NUM_TRANCHES - i,
    {
        if i as usize >= state.tranches.len() {
            return None;
        }
        let t = state.tranches[i as usize];
        tranches.push(
            TrancheResponse {
                id: t.id,
                gnk_amount: t.gnk_amount,
                unlock_time: t.unlock_time,
                released: t.released,
            },
        );
        assert(state@.tranches.take(i + 1) =~= state@.tranches.take(i as int).push(t));
        i = i + 1;
    }
    Some(AllTranchesResponse { tranches })
}

/// The contract's native balance, as the chain reported it.
pub fn query_native_balance(balance: Coin) -> (r: NativeBalanceResponse)
    ensures
        r.balance == balance,
{
    NativeBalanceResponse { balance }
}

/// The response to a migration from contract version `from_version` to `to_version`.
pub open spec fn migrate_response(from_version: Seq<char>, to_version: Seq<char>) -> ResponseView {
    ResponseView::empty().attr("action"@, "migrate"@).attr("from_version"@, from_version).attr(
        "to_version"@,
        to_version,
    )
}

/// The response to a migration; the stored state does not change.
pub fn migrate(from_version: String, to_version: &str) -> (r: Response)
    ensures
        r@ == migrate_response(from_version@, to_version@),
{
    Response::new().add_attribute("action", String::from_str("migrate")).add_attribute(
        "from_version",
        from_version,
    ).add_attribute("to_version", String::from_str(to_version))
}

} // verus!
