use vstd::prelude::*;

use crate::command::decoded_command;
use crate::router::OutputPolicy;
use crate::router::PlanSpec;
use crate::router::ack_text;
use crate::router::check_op;
use crate::router::diagnostic_op;
use crate::router::invalid_type_text;
use crate::router::plan_spec;
use crate::router::response_text_spec;
use crate::router::uptime_op;
use crate::session::ConnectionState;
use crate::session::RECONNECT_DELAY_MS;
use crate::session::SessionAction;
use crate::session::SessionEvent;
use crate::session::lemma_run_actions_len;
use crate::session::run_actions;
use crate::session::run_state;
use crate::session::step_spec;

verus! {

/// Every payload that decodes to a command with a recognized executing
/// code (A, U or C) is planned as exactly one operation — the one the
/// code selects — and whenever the operation produces output, the plan's
/// policy yields exactly one response, equal to that output.
pub proof fn lemma_recognized_code_dispatch(payload: Seq<char>, out: Seq<char>)
    requires
        decoded_command(payload) matches Some(d) && d.0.len() > 0 && (d.0[0] == 'A' || d.0[0]
            == 'U' || d.0[0] == 'C'),
    ensures
        ({
            let d = decoded_command(payload)->Some_0;
            let expected_op = if d.0[0] == 'A' {
                diagnostic_op(d.1)
            } else if d.0[0] == 'U' {
                uptime_op()
            } else {
                check_op()
            };
            plan_spec(decoded_command(payload)) matches PlanSpec::Execute { op, policy } && op
                == expected_op && response_text_spec(policy, Some(out)) == Some(out)
        }),
{
}

/// The acknowledge code 'D' runs no operation and is answered with the
/// fixed acknowledgement text in exactly one response.
pub proof fn lemma_ack_code_dispatch(payload: Seq<char>)
    requires
        decoded_command(payload) matches Some(d) && d.0.len() > 0 && d.0[0] == 'D',
    ensures
        plan_spec(decoded_command(payload)) == (PlanSpec::Respond { text: ack_text() }),
{
}

/// A payload that fails to decode is silently dropped: its plan runs no
/// operation and publishes nothing, and the session stays connected, so
/// every later message is still delivered and processed.
pub proof fn lemma_undecodable_payload_dropped(payload: String)
    requires
        decoded_command(payload@) is None,
    ensures
        plan_spec(decoded_command(payload@)) == PlanSpec::Ignore,
        step_spec(ConnectionState::Connected, SessionEvent::MessageArrived { payload }).0
            == ConnectionState::Connected,
{
}

/// A decoded command whose type code is unrecognized — the empty type
/// string included — runs no operation and is answered with the fixed
/// invalid-type text.
pub proof fn lemma_unrecognized_code_answered(payload: Seq<char>)
    requires
        decoded_command(payload) matches Some(d) && (d.0.len() == 0 || !(d.0[0] == 'A' || d.0[0]
            == 'U' || d.0[0] == 'C' || d.0[0] == 'D')),
    ensures
        plan_spec(decoded_command(payload)) == (PlanSpec::Respond { text: invalid_type_text() }),
{
}

/// The retry loop alone: from Reconnecting, `n` failed attempts followed
/// by one success ask for `n` further attempts, each a full delay after
/// the failure before it, then resume waiting, never subscribing again.
proof fn lemma_retry_loop(n: nat)
    ensures
        ({
            let events = Seq::new(n, |i: int| SessionEvent::ConnectFailed) + seq![
                SessionEvent::ConnectSucceeded,
            ];
            let actions = run_actions(ConnectionState::Reconnecting, events);
            &&& actions.len() == n + 1
            &&& forall|i: int|
                0 <= i < n ==> actions[i] == (SessionAction::Reconnect {
                    delay_ms: RECONNECT_DELAY_MS,
                })
            &&& actions[n as int] == SessionAction::AwaitNext
            &&& forall|i: int|
                0 <= i <= n ==> !((#[trigger] actions[i]) matches SessionAction::Subscribe)
            &&& run_state(ConnectionState::Reconnecting, events) == ConnectionState::Connected
        }),
    decreases n,
{
    let events = Seq::new(n, |i: int| SessionEvent::ConnectFailed) + seq![
        SessionEvent::ConnectSucceeded,
    ];
    lemma_run_actions_len(ConnectionState::Reconnecting, events);
    if n == 0 {
        assert(events =~= seq![SessionEvent::ConnectSucceeded]);
        assert(events.drop_first() =~= Seq::<SessionEvent>::empty());
        assert(run_state(ConnectionState::Connected, Seq::<SessionEvent>::empty())
            == ConnectionState::Connected);
    } else {
        lemma_retry_loop((n - 1) as nat);
        let tail = Seq::new((n - 1) as nat, |i: int| SessionEvent::ConnectFailed) + seq![
            SessionEvent::ConnectSucceeded,
        ];
        assert(events[0] == SessionEvent::ConnectFailed);
        assert(events.drop_first() =~= tail);
        assert(run_state(ConnectionState::Reconnecting, events) == run_state(
            ConnectionState::Reconnecting,
            tail,
        ));
    }
}

/// Reconnection: after a lost connection, `n` consecutive failed connect
/// attempts followed by one success produce exactly `n + 1` attempts —
/// the first immediate, every later one scheduled a full fixed delay
/// after the failure before it — the subscribe call is never re-issued,
/// and message delivery resumes (the session waits for the next inbound
/// event) only after the successful attempt, back in the Connected state.
pub proof fn lemma_reconnect_protocol(n: nat)
    ensures
        ({
            let events = seq![SessionEvent::StreamClosed] + Seq::new(
                n,
                |i: int| SessionEvent::ConnectFailed,
            ) + seq![SessionEvent::ConnectSucceeded];
            let actions = run_actions(ConnectionState::Connected, events);
            &&& actions.len() == n + 2
            &&& actions[0] == (SessionAction::Reconnect { delay_ms: 0u64 })
            &&& forall|i: int|
                1 <= i <= n ==> actions[i] == (SessionAction::Reconnect {
                    delay_ms: RECONNECT_DELAY_MS,
                })
            &&& actions[n as int + 1] == SessionAction::AwaitNext
            &&& forall|i: int|
                0 <= i < n + 2 ==> !((#[trigger] actions[i]) matches SessionAction::Subscribe)
            &&& run_state(ConnectionState::Connected, events) == ConnectionState::Connected
        }),
{
    let events = seq![SessionEvent::StreamClosed] + Seq::new(
        n,
        |i: int| SessionEvent::ConnectFailed,
    ) + seq![SessionEvent::ConnectSucceeded];
    let tail = Seq::new(n, |i: int| SessionEvent::ConnectFailed) + seq![
        SessionEvent::ConnectSucceeded,
    ];
    lemma_run_actions_len(ConnectionState::Connected, events);
    assert(events[0] == SessionEvent::StreamClosed);
    assert(events.drop_first() =~= tail);
    lemma_retry_loop(n);
    assert(run_state(ConnectionState::Connected, events) == run_state(
        ConnectionState::Reconnecting,
        tail,
    ));
}

/// Ordering: while connected, the action asked for at each position is
/// the synchronous processing — execution and response publish included —
/// of exactly the payload that arrived at that position. A later
/// message's response is therefore never published before an earlier
/// message's, because the earlier processing completes before the later
/// event is even consumed.
pub proof fn lemma_messages_processed_in_order(payloads: Seq<String>)
    ensures
        ({
            let events = payloads.map_values(
                |p: String| SessionEvent::MessageArrived { payload: p },
            );
            let actions = run_actions(ConnectionState::Connected, events);
            &&& actions.len() == payloads.len()
            &&& forall|i: int|
                0 <= i < payloads.len() ==> actions[i] == (SessionAction::Process {
                    payload: payloads[i],
                })
        }),
    decreases payloads.len(),
{
    let events = payloads.map_values(|p: String| SessionEvent::MessageArrived { payload: p });
    lemma_run_actions_len(ConnectionState::Connected, events);
    if payloads.len() > 0 {
        lemma_messages_processed_in_order(payloads.drop_first());
        assert(events[0] == (SessionEvent::MessageArrived { payload: payloads[0] }));
        assert(events.drop_first() =~= payloads.drop_first().map_values(
            |p: String| SessionEvent::MessageArrived { payload: p },
        ));
    }
}

} // verus!
