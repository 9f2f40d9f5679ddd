use vstd::prelude::*;

use crate::contract::{
    execute_step, initial_state, instantiate_result, mark_released, query_result,
    release_response, tranche_response, with_paused, ChainReplies, QueryReplies,
    QueryTotalSupplyResponse,
};
use crate::decimal::decimal;
use crate::error::ContractError;
use crate::msg::{ExecuteMsg, QueryMsg, QueryResponseView, TrancheResponse};
use crate::response::{BankMsgView, Coin, CoinView, ResponseView};
use crate::state::{
    ConfigView, scheduled_amount, scheduled_offset, tranche_matches_schedule, StateView, Tranche,
    NUM_TRANCHES, SECONDS_PER_DAY,
};

verus! {

/// Marking a tranche released keeps the state well formed.
pub proof fn lemma_mark_released_keeps_well_formed(s: StateView, id: u32)
    requires
        s.well_formed(),
        id < NUM_TRANCHES,
    ensures
        mark_released(s, id).well_formed(),
{
    let s2 = mark_released(s, id);
    assert forall|i: int| 0 <= i < NUM_TRANCHES implies #[trigger] tranche_matches_schedule(
        s2.tranches[i],
        i,
        s2.config.start_time,
    ) by {
        assert(tranche_matches_schedule(s.tranches[i], i, s.config.start_time));
    }
}

/// Every execute message keeps the state well formed: the scheduled tranches stay, by id, with
/// their amounts and unlock times.
pub proof fn lemma_step_keeps_well_formed(
    s: StateView,
    now: u64,
    sender: Seq<char>,
    msg: ExecuteMsg,
    replies: ChainReplies,
)
    requires
        s.well_formed(),
    ensures
        execute_step(s, now, sender, msg, replies).0.well_formed(),
{
    let s2 = execute_step(s, now, sender, msg, replies).0;
    if let ExecuteMsg::ReleaseTranche { tranche_id } = msg {
        if tranche_id < NUM_TRANCHES {
            lemma_mark_released_keeps_well_formed(s, tranche_id);
        }
    }
    assert forall|i: int| 0 <= i < NUM_TRANCHES implies #[trigger] tranche_matches_schedule(
        s2.tranches[i],
        i,
        s2.config.start_time,
    ) by {
        assert(tranche_matches_schedule(s.tranches[i], i, s.config.start_time));
        if let ExecuteMsg::ReleaseTranche { tranche_id } = msg {
            if tranche_id < NUM_TRANCHES {
                assert(tranche_matches_schedule(
                    mark_released(s, tranche_id).tranches[i],
                    i,
                    s.config.start_time,
                ));
            }
        }
    }
}

/// The amount of tranche `t` that has gone out to the recipient.
pub open spec fn released_amount(t: Tranche) -> int {
    if t.released {
        t.gnk_amount as int
    } else {
        0
    }
}

/// The amount released so far, over the four tranches.
pub open spec fn released_total(s: StateView) -> int {
    released_amount(s.tranches[0]) + released_amount(s.tranches[1]) + released_amount(
        s.tranches[2],
    ) + released_amount(s.tranches[3])
}

/// The schedule: 500,000 GNK at once, then 150,000, 150,000 and 170,000 GNK after 90, 180 and
/// 270 days, 970,000 GNK in all (1 GNK = 10^9 ngonka).
pub proof fn lemma_schedule()
    ensures
        scheduled_amount(0) == 500_000 * 1_000_000_000,
        scheduled_amount(1) == 150_000 * 1_000_000_000,
        scheduled_amount(2) == 150_000 * 1_000_000_000,
        scheduled_amount(3) == 170_000 * 1_000_000_000,
        scheduled_amount(0) + scheduled_amount(1) + scheduled_amount(2) + scheduled_amount(3)
            == 970_000_000_000_000,
        scheduled_offset(0) == 0,
        scheduled_offset(1) == 90 * SECONDS_PER_DAY,
        scheduled_offset(2) == 180 * SECONDS_PER_DAY,
        scheduled_offset(3) == 270 * SECONDS_PER_DAY,
{
}

/// In a well-formed state the first tranche unlocks at instantiation and the tranches unlock
/// in the order of their ids.
pub proof fn lemma_unlock_order(s: StateView, i: int, j: int)
    requires
        s.well_formed(),
        0 <= i <= j < NUM_TRANCHES,
    ensures
        s.tranches[0].unlock_time == s.config.start_time,
        s.tranches[i].unlock_time <= s.tranches[j].unlock_time,
{
    assert(tranche_matches_schedule(s.tranches[0], 0, s.config.start_time));
    assert(tranche_matches_schedule(s.tranches[i], i, s.config.start_time));
    assert(tranche_matches_schedule(s.tranches[j], j, s.config.start_time));
}

/// A freshly instantiated contract is well formed, not paused, and has released nothing.
pub proof fn lemma_initial_state(
    admin: Seq<char>,
    recipient: Seq<char>,
    native_denom: Seq<char>,
    start: u64,
)
    requires
        start + scheduled_offset(NUM_TRANCHES - 1) <= u64::MAX,
    ensures
        initial_state(admin, recipient, native_denom, start).well_formed(),
        !initial_state(admin, recipient, native_denom, start).config.is_paused,
        forall|i: int|
            0 <= i < NUM_TRANCHES ==> !(#[trigger] initial_state(
                admin,
                recipient,
                native_denom,
                start,
            ).tranches[i]).released,
        released_total(initial_state(admin, recipient, native_denom, start)) == 0,
{
    let s = initial_state(admin, recipient, native_denom, start);
    assert forall|i: int| 0 <= i < NUM_TRANCHES implies #[trigger] tranche_matches_schedule(
        s.tranches[i],
        i,
        s.config.start_time,
    ) by {}
}

/// What is released never exceeds the 970,000 GNK of the schedule.
pub proof fn lemma_released_total_bounded(s: StateView)
    requires
        s.well_formed(),
    ensures
        0 <= released_total(s) <= 970_000_000_000_000,
{
    assert(tranche_matches_schedule(s.tranches[0], 0, s.config.start_time));
    assert(tranche_matches_schedule(s.tranches[1], 1, s.config.start_time));
    assert(tranche_matches_schedule(s.tranches[2], 2, s.config.start_time));
    assert(tranche_matches_schedule(s.tranches[3], 3, s.config.start_time));
}

/// A refused message changes nothing.
pub proof fn lemma_refusal_keeps_state(
    s: StateView,
    now: u64,
    sender: Seq<char>,
    msg: ExecuteMsg,
    replies: ChainReplies,
)
    requires
        execute_step(s, now, sender, msg, replies).1 is Err,
    ensures
        execute_step(s, now, sender, msg, replies).0 == s,
{
}

/// A released tranche stays released, whatever message comes next.
pub proof fn lemma_released_stays_released(
    s: StateView,
    now: u64,
    sender: Seq<char>,
    msg: ExecuteMsg,
    replies: ChainReplies,
    i: int,
)
    requires
        s.well_formed(),
        0 <= i < NUM_TRANCHES,
        s.tranches[i].released,
    ensures
        execute_step(s, now, sender, msg, replies).0.tranches[i].released,
{
}

/// A tranche becomes released only through `ReleaseTranche` for its own id, while the contract
/// is not paused, at or after its unlock time, with a balance that covers it; the call then
/// sends exactly the tranche's amount, in the native denomination, to the configured recipient.
pub proof fn lemma_release_only_when_unlocked(
    s: StateView,
    now: u64,
    sender: Seq<char>,
    msg: ExecuteMsg,
    replies: ChainReplies,
    i: int,
)
    requires
        s.well_formed(),
        0 <= i < NUM_TRANCHES,
        !s.tranches[i].released,
        execute_step(s, now, sender, msg, replies).0.tranches[i].released,
    ensures
        msg == (ExecuteMsg::ReleaseTranche { tranche_id: i as u32 }),
        !s.config.is_paused,
        now >= s.tranches[i].unlock_time,
        replies.balance matches Ok(c) && c.amount.value() >= s.tranches[i].gnk_amount,
        execute_step(s, now, sender, msg, replies).1 == Ok::<ResponseView, ContractError>(
            release_response(
                s.config.recipient,
                s.config.native_denom,
                i as u32,
                s.tranches[i].gnk_amount,
            ),
        ),
{
    assert(tranche_matches_schedule(s.tranches[i], i, s.config.start_time));
}

/// Each successful release adds exactly the tranche's amount to what has been released, and
/// no other message changes that total.
pub proof fn lemma_release_accounting(
    s: StateView,
    now: u64,
    sender: Seq<char>,
    msg: ExecuteMsg,
    replies: ChainReplies,
)
    requires
        s.well_formed(),
    ensures
        ({
            let (s2, r) = execute_step(s, now, sender, msg, replies);
            match msg {
                ExecuteMsg::ReleaseTranche { tranche_id } => r is Ok ==> released_total(s2)
                    == released_total(s) + s.tranches[tranche_id as int].gnk_amount,
                _ => released_total(s2) == released_total(s),
            }
        }),
{
}

/// Only the admin changes the configuration; every admin message from anyone else is refused
/// with `Unauthorized`.
pub proof fn lemma_only_admin_configures(
    s: StateView,
    now: u64,
    sender: Seq<char>,
    msg: ExecuteMsg,
    replies: ChainReplies,
)
    requires
        sender != s.config.admin,
    ensures
        execute_step(s, now, sender, msg, replies).0.config == s.config,
        !(msg is ReleaseTranche) ==> execute_step(s, now, sender, msg, replies).1 == Err::<
            ResponseView,
            ContractError,
        >(ContractError::Unauthorized {  }),
{
}

/// Funds leave the contract only by a release, to the configured recipient, or by a withdrawal
/// that the admin asked for.
pub proof fn lemma_funds_leave_by_release_or_admin(
    s: StateView,
    now: u64,
    sender: Seq<char>,
    msg: ExecuteMsg,
    replies: ChainReplies,
)
    requires
        execute_step(s, now, sender, msg, replies).1 matches Ok(resp) && resp.messages.len() > 0,
    ensures
        msg is ReleaseTranche || sender == s.config.admin,
{
}

/// Releasing is open to anyone: the sender does not matter.
pub proof fn lemma_release_ignores_sender(
    s: StateView,
    now: u64,
    a: Seq<char>,
    b: Seq<char>,
    tranche_id: u32,
    replies: ChainReplies,
)
    ensures
        execute_step(s, now, a, ExecuteMsg::ReleaseTranche { tranche_id }, replies) == execute_step(
            s,
            now,
            b,
            ExecuteMsg::ReleaseTranche { tranche_id },
            replies,
        ),
{
}

/// While the contract is paused, no tranche can be released.
pub proof fn lemma_pause_blocks_release(
    s: StateView,
    t1: u64,
    t2: u64,
    anyone: Seq<char>,
    tranche_id: u32,
    r1: ChainReplies,
    r2: ChainReplies,
)
    ensures
        ({
            let s1 = execute_step(s, t1, s.config.admin, ExecuteMsg::Pause {  }, r1).0;
            execute_step(s1, t2, anyone, ExecuteMsg::ReleaseTranche { tranche_id }, r2) == (
                s1,
                Err::<ResponseView, ContractError>(ContractError::ContractPaused {  }),
            )
        }),
{
}

/// The admin can always pause and resume; pausing and then resuming leaves the contract as it
/// was, unpaused.
pub proof fn lemma_pause_resume_round_trip(
    s: StateView,
    t1: u64,
    t2: u64,
    r1: ChainReplies,
    r2: ChainReplies,
)
    ensures
        ({
            let (s1, p) = execute_step(s, t1, s.config.admin, ExecuteMsg::Pause {  }, r1);
            let (s2, q) = execute_step(s1, t2, s.config.admin, ExecuteMsg::Resume {  }, r2);
            &&& p is Ok && q is Ok
            &&& s1.config.is_paused
            &&& s2 == with_paused(s, false)
        }),
{
}

/// A tranche is released at most once: after a successful release, the same release is
/// refused with `TrancheAlreadyReleased`.
pub proof fn lemma_no_double_release(
    s: StateView,
    t1: u64,
    t2: u64,
    a: Seq<char>,
    b: Seq<char>,
    tranche_id: u32,
    r1: ChainReplies,
    r2: ChainReplies,
)
    requires
        s.well_formed(),
        execute_step(s, t1, a, ExecuteMsg::ReleaseTranche { tranche_id }, r1).1 is Ok,
    ensures
        ({
            let s1 = execute_step(s, t1, a, ExecuteMsg::ReleaseTranche { tranche_id }, r1).0;
            execute_step(s1, t2, b, ExecuteMsg::ReleaseTranche { tranche_id }, r2) == (
                s1,
                Err::<ResponseView, ContractError>(
                    ContractError::TrancheAlreadyReleased { id: tranche_id },
                ),
            )
        }),
{
}

/// Once its unlock time has passed, anyone can release an unreleased tranche of a contract that
/// is not paused and holds enough funds; the amount goes to the configured recipient.
pub proof fn lemma_unlocked_tranche_is_releasable(
    s: StateView,
    now: u64,
    anyone: Seq<char>,
    tranche_id: u32,
    replies: ChainReplies,
)
    requires
        s.well_formed(),
        tranche_id < NUM_TRANCHES,
        !s.config.is_paused,
        !s.tranches[tranche_id as int].released,
        now >= s.tranches[tranche_id as int].unlock_time,
        replies.balance matches Ok(c) && c.amount.value() >= s.tranches[tranche_id as int].gnk_amount,
    ensures
        execute_step(s, now, anyone, ExecuteMsg::ReleaseTranche { tranche_id }, replies) == (
            mark_released(s, tranche_id),
            Ok::<ResponseView, ContractError>(
                release_response(
                    s.config.recipient,
                    s.config.native_denom,
                    tranche_id,
                    s.tranches[tranche_id as int].gnk_amount,
                ),
            ),
        ),
{
}

/// The admin's emergency withdrawal to a valid address takes the whole balance, whatever state
/// the contract is in (paused or not), and changes no state.
pub proof fn lemma_emergency_withdraw_takes_everything(
    s: StateView,
    now: u64,
    recipient: String,
    address: String,
    balance: Coin,
)
    requires
        balance.amount.value() > 0,
    ensures
        ({
            let replies = ChainReplies { recipient: Ok(address), balance: Ok(balance) };
            let (s2, r) = execute_step(
                s,
                now,
                s.config.admin,
                ExecuteMsg::EmergencyWithdraw { recipient },
                replies,
            );
            &&& s2 == s
            &&& r matches Ok(resp) && resp.messages == seq![
                BankMsgView::Send {
                    to_address: address@,
                    amount: seq![CoinView { denom: balance.denom@, amount: balance.amount.value() }],
                },
            ] && resp.attributes == seq![
                ("method"@, "emergency_withdraw"@),
                ("amount"@, decimal(balance.amount.value())),
                ("recipient"@, recipient@),
            ]
        }),
{
}

/// After a release, the tranche query reports the tranche as released.
pub proof fn lemma_release_visible_in_query(
    s: StateView,
    now: u64,
    anyone: Seq<char>,
    tranche_id: u32,
    replies: ChainReplies,
    query_replies: QueryReplies,
)
    requires
        s.well_formed(),
        execute_step(s, now, anyone, ExecuteMsg::ReleaseTranche { tranche_id }, replies).1 is Ok,
    ensures
        ({
            let s2 = execute_step(
                s,
                now,
                anyone,
                ExecuteMsg::ReleaseTranche { tranche_id },
                replies,
            ).0;
            query_result(s2, QueryMsg::Tranche { tranche_id }, query_replies) == Ok::<
                QueryResponseView,
                ContractError,
            >(QueryResponseView::Tranche(tranche_response(s2.tranches[tranche_id as int])))
                && s2.tranches[tranche_id as int].released
        }),
{
}

/// After the admin updates the recipient, releases go to the new address.
pub proof fn lemma_release_follows_recipient(
    s: StateView,
    t1: u64,
    t2: u64,
    new_recipient: String,
    anyone: Seq<char>,
    tranche_id: u32,
    r1: ChainReplies,
    r2: ChainReplies,
)
    requires
        r1.recipient == Ok::<String, ContractError>(new_recipient),
    ensures
        ({
            let s1 = execute_step(
                s,
                t1,
                s.config.admin,
                ExecuteMsg::UpdateRecipient { recipient: new_recipient },
                r1,
            ).0;
            &&& s1.config.recipient == new_recipient@
            &&& execute_step(s1, t2, anyone, ExecuteMsg::ReleaseTranche { tranche_id }, r2).1 matches Ok(
                resp,
            ) ==> resp.messages[0] matches BankMsgView::Send { to_address, .. }
                && to_address == new_recipient@
        }),
{
}

/// One execute call: block time, sender, message, and the chain's replies for it.
pub struct Call {
    pub now: u64,
    pub sender: Seq<char>,
    pub msg: ExecuteMsg,
    pub replies: ChainReplies,
}

/// The state after the calls, one after another, from `s`.
pub open spec fn run(s: StateView, calls: Seq<Call>) -> StateView
    decreases calls.len(),
{
    if calls.len() == 0 {
        s
    } else {
        let c = calls.last();
        execute_step(run(s, calls.drop_last()), c.now, c.sender, c.msg, c.replies).0
    }
}

/// What the last of the calls answers, after the others have run from `s`.
pub open spec fn last_outcome(s: StateView, calls: Seq<Call>) -> Result<ResponseView, ContractError>
    recommends
        calls.len() > 0,
{
    let c = calls.last();
    execute_step(run(s, calls.drop_last()), c.now, c.sender, c.msg, c.replies).1
}

/// The amount that a response's first message sends in its first coin.
pub open spec fn first_coin_sent(resp: ResponseView) -> int {
    match resp.messages[0] {
        BankMsgView::Send { amount, .. } => amount[0].amount as int,
    }
}

/// How many of the calls released tranche `i` successfully.
pub open spec fn release_count(s: StateView, calls: Seq<Call>, i: int) -> nat
    decreases calls.len(),
{
    if calls.len() == 0 {
        0
    } else {
        release_count(s, calls.drop_last(), i) + if calls.last().msg == (ExecuteMsg::ReleaseTranche {
            tranche_id: i as u32,
        }) && last_outcome(s, calls) is Ok {
            1nat
        } else {
            0nat
        }
    }
}

/// The total that the successful releases among the calls sent out.
pub open spec fn released_by_calls(s: StateView, calls: Seq<Call>) -> int
    decreases calls.len(),
{
    if calls.len() == 0 {
        0
    } else {
        released_by_calls(s, calls.drop_last()) + match (calls.last().msg, last_outcome(s, calls)) {
            (ExecuteMsg::ReleaseTranche { .. }, Ok(resp)) => first_coin_sent(resp),
            _ => 0,
        }
    }
}

/// Over any calls from a well-formed state, the state stays well formed, each tranche is
/// released successfully once for each time it went from unreleased to released, and the
/// releases send out exactly what the released total grew by.
pub proof fn lemma_run_accounting(s: StateView, calls: Seq<Call>)
    requires
        s.well_formed(),
    ensures
        run(s, calls).well_formed(),
        forall|i: int|
            0 <= i < NUM_TRANCHES && s.tranches[i].released ==> #[trigger] run(
                s,
                calls,
            ).tranches[i].released,
        forall|i: int|
            0 <= i < NUM_TRANCHES ==> #[trigger] release_count(s, calls, i) == (if run(
                s,
                calls,
            ).tranches[i].released && !s.tranches[i].released {
                1int
            } else {
                0int
            }),
        released_by_calls(s, calls) == released_total(run(s, calls)) - released_total(s),
    decreases calls.len(),
{
    if calls.len() > 0 {
        let prefix = calls.drop_last();
        lemma_run_accounting(s, prefix);
        let s1 = run(s, prefix);
        let c = calls.last();
        lemma_step_keeps_well_formed(s1, c.now, c.sender, c.msg, c.replies);
        lemma_release_accounting(s1, c.now, c.sender, c.msg, c.replies);
        assert forall|i: int| 0 <= i < NUM_TRANCHES implies #[trigger] release_count(s, calls, i)
            == (if run(s, calls).tranches[i].released && !s.tranches[i].released {
            1int
        } else {
            0int
        }) by {
            assert(release_count(s, prefix, i) == (if s1.tranches[i].released
                && !s.tranches[i].released {
                1int
            } else {
                0int
            }));
            let (s2, r) = execute_step(s1, c.now, c.sender, c.msg, c.replies);
            assert(s2 == run(s, calls));
            assert(r == last_outcome(s, calls));
            if s1.tranches[i].released {
                lemma_released_stays_released(s1, c.now, c.sender, c.msg, c.replies, i);
            }
            if c.msg == (ExecuteMsg::ReleaseTranche { tranche_id: i as u32 }) && r is Ok {
                assert(!s1.tranches[i].released);
                assert(s2.tranches[i].released);
            } else {
                assert(s2.tranches[i].released == s1.tranches[i].released);
            }
        }
        assert forall|i: int| 0 <= i < NUM_TRANCHES && s.tranches[i].released implies #[trigger] run(
            s,
            calls,
        ).tranches[i].released by {
            assert(s1.tranches[i].released);
            lemma_released_stays_released(s1, c.now, c.sender, c.msg, c.replies, i);
        }
    }
}

/// From instantiation, over any calls: each tranche is released successfully at most once,
/// and what the successful releases send equals the amount of the released tranches, at most
/// the 970,000 GNK of the schedule.
pub proof fn lemma_run_from_instantiation(
    admin: Seq<char>,
    recipient: Seq<char>,
    native_denom: Seq<char>,
    start: u64,
    calls: Seq<Call>,
)
    requires
        start + scheduled_offset(NUM_TRANCHES - 1) <= u64::MAX,
    ensures
        ({
            let s0 = initial_state(admin, recipient, native_denom, start);
            &&& forall|i: int|
                0 <= i < NUM_TRANCHES ==> #[trigger] release_count(s0, calls, i) <= 1
            &&& released_by_calls(s0, calls) == released_total(run(s0, calls))
            &&& released_by_calls(s0, calls) <= 970_000_000_000_000
        }),
{
    let s0 = initial_state(admin, recipient, native_denom, start);
    lemma_initial_state(admin, recipient, native_denom, start);
    lemma_run_accounting(s0, calls);
    lemma_released_total_bounded(run(s0, calls));
    assert forall|i: int| 0 <= i < NUM_TRANCHES implies #[trigger] release_count(s0, calls, i)
        <= 1 by {
        assert(release_count(s0, calls, i) == (if run(s0, calls).tranches[i].released
            && !s0.tranches[i].released {
            1int
        } else {
            0int
        }));
    }
}

/// The all-tranches query answers, in id order, exactly what the single-tranche query answers
/// for each id 0..NUM_TRANCHES; it fails, with the storage's failure, exactly when one of
/// these ids holds nothing.
pub proof fn lemma_all_tranches_agrees_with_single(s: StateView, replies: QueryReplies)
    ensures
        query_result(s, QueryMsg::AllTranches {  }, replies) is Err <==> s.tranches.len()
            < NUM_TRANCHES,
        query_result(s, QueryMsg::AllTranches {  }, replies) matches Err(e) ==> e
            == replies.absent_tranche,
        query_result(s, QueryMsg::AllTranches {  }, replies) matches Ok(
            QueryResponseView::AllTranches(a),
        ) ==> a.len() == NUM_TRANCHES && forall|i: int|
            0 <= i < NUM_TRANCHES ==> query_result(s, QueryMsg::Tranche { tranche_id: i as u32 }, replies)
                == Ok::<QueryResponseView, ContractError>(QueryResponseView::Tranche(#[trigger] a[i])),
{
}

/// The admin's withdrawal of a nonzero amount to a valid address succeeds whatever the balance,
/// changes no state, and sends exactly that amount of the configured native denomination, in one
/// bank message, to the validated address.
pub proof fn lemma_withdraw_sends_exactly_the_amount(
    s: StateView,
    now: u64,
    amount: u128,
    recipient: String,
    address: String,
    balance: Result<Coin, ContractError>,
)
    requires
        amount > 0,
    ensures
        ({
            let replies = ChainReplies { recipient: Ok(address), balance };
            let (s2, r) = execute_step(
                s,
                now,
                s.config.admin,
                ExecuteMsg::WithdrawNativeTokens { amount, recipient },
                replies,
            );
            &&& s2 == s
            &&& r matches Ok(resp)
            &&& resp.messages == seq![
                BankMsgView::Send {
                    to_address: address@,
                    amount: seq![CoinView { denom: s.config.native_denom, amount: amount as nat }],
                },
            ]
            &&& resp.attributes == seq![
                ("method"@, "withdraw"@),
                ("amount"@, decimal(amount as nat)),
                ("recipient"@, recipient@),
            ]
        }),
{
}

/// Instantiation adopts the denomination of the first coin of the total supply where that coin
/// exists and its denomination is not empty, and "ngonka" otherwise; it stores that denomination
/// and reports it.
pub proof fn lemma_instantiate_adopts_first_supply_denom(
    admin: String,
    recipient: String,
    supply: Result<QueryTotalSupplyResponse, ContractError>,
    start: u64,
)
    ensures
        instantiate_result(Ok(admin), Ok(recipient), supply, start) matches Ok((st, resp)) && ({
            let expected = match supply {
                Ok(r) => if r.supply@.len() > 0 && r.supply@[0].denom@.len() > 0 {
                    r.supply@[0].denom@
                } else {
                    "ngonka"@
                },
                Err(_) => "ngonka"@,
            };
            &&& st.config.native_denom == expected
            &&& st.config.admin == admin@
            &&& st.config.recipient == recipient@
            &&& !st.config.is_paused
            &&& st.config.start_time == start
            &&& resp.attributes[3] == ("native_denom"@, expected)
        }),
{
}

/// A successful release marks only that tranche released and sends exactly its amount, in the
/// configured native denomination, in one bank message, to the configured recipient.
pub proof fn lemma_release_pays_recipient_in_native_denom(
    s: StateView,
    now: u64,
    sender: Seq<char>,
    tranche_id: u32,
    replies: ChainReplies,
)
    requires
        execute_step(s, now, sender, ExecuteMsg::ReleaseTranche { tranche_id }, replies).1 is Ok,
    ensures
        ({
            let (s2, r) = execute_step(
                s,
                now,
                sender,
                ExecuteMsg::ReleaseTranche { tranche_id },
                replies,
            );
            let t = s.tranches[tranche_id as int];
            &&& tranche_id < s.tranches.len()
            &&& !t.released
            &&& s2.config == s.config
            &&& s2.tranches.len() == s.tranches.len()
            &&& s2.tranches[tranche_id as int] == (Tranche {
                id: t.id,
                gnk_amount: t.gnk_amount,
                unlock_time: t.unlock_time,
                released: true,
            })
            &&& forall|j: int|
                0 <= j < s.tranches.len() && j != tranche_id ==> #[trigger] s2.tranches[j]
                    == s.tranches[j]
            &&& r matches Ok(resp)
            &&& resp.messages == seq![
                BankMsgView::Send {
                    to_address: s.config.recipient,
                    amount: seq![
                        CoinView { denom: s.config.native_denom, amount: t.gnk_amount as nat },
                    ],
                },
            ]
            &&& resp.attributes == seq![
                ("method"@, "release_tranche"@),
                ("tranche_id"@, decimal(tranche_id as nat)),
                ("gnk_amount"@, decimal(t.gnk_amount as nat)),
                ("recipient"@, s.config.recipient),
            ]
        }),
{
}

/// The tranche queries report each stored tranche's fields exactly as stored: the single query
/// for any stored id, and the all-tranches query for each of ids 0..NUM_TRANCHES.
pub proof fn lemma_tranche_queries_report_stored_fields(
    s: StateView,
    replies: QueryReplies,
    i: int,
)
    requires
        0 <= i < s.tranches.len(),
        i <= u32::MAX,
    ensures
        query_result(s, QueryMsg::Tranche { tranche_id: i as u32 }, replies) == Ok::<
            QueryResponseView,
            ContractError,
        >(
            QueryResponseView::Tranche(
                TrancheResponse {
                    id: s.tranches[i].id,
                    gnk_amount: s.tranches[i].gnk_amount,
                    unlock_time: s.tranches[i].unlock_time,
                    released: s.tranches[i].released,
                },
            ),
        ),
        i < NUM_TRANCHES <= s.tranches.len() ==> (query_result(
            s,
            QueryMsg::AllTranches {  },
            replies,
        ) matches Ok(QueryResponseView::AllTranches(a)) && a.len() == NUM_TRANCHES && a[i]
            == (TrancheResponse {
            id: s.tranches[i].id,
            gnk_amount: s.tranches[i].gnk_amount,
            unlock_time: s.tranches[i].unlock_time,
            released: s.tranches[i].released,
        })),
{
    if i < NUM_TRANCHES <= s.tranches.len() {
        assert(s.tranches.take(NUM_TRANCHES as int)[i] == s.tranches[i]);
    }
}

/// The configuration query reports the stored configuration field by field.
pub proof fn lemma_config_query_reports_stored_config(s: StateView, replies: QueryReplies)
    ensures
        query_result(s, QueryMsg::Config {  }, replies) == Ok::<QueryResponseView, ContractError>(
            QueryResponseView::Config(
                ConfigView {
                    admin: s.config.admin,
                    recipient: s.config.recipient,
                    native_denom: s.config.native_denom,
                    is_paused: s.config.is_paused,
                    start_time: s.config.start_time,
                },
            ),
        ),
{
}

} // verus!
