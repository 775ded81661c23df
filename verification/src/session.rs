use vstd::prelude::*;
use vstd::string::StringExecFns;

use crate::config::Config;
use crate::router::OutboundMessage;

verus! {

/// The fixed delay, in milliseconds, between consecutive reconnect
/// attempts after a lost connection.
pub const RECONNECT_DELAY_MS: u64 = 1000;

/// The keep-alive interval, in seconds, of the broker connection.
pub const KEEP_ALIVE_SECS: u64 = 30;

/// Where the session stands with the broker.
#[derive(Clone, Copy, PartialEq, Eq, Structural, Debug)]
pub enum ConnectionState {
    /// No connection and none being attempted; also the resting state
    /// after a fatal error.
    Disconnected,
    /// The initial connect (and the subscription that follows it) is in
    /// flight; a failure here is fatal.
    Connecting,
    /// Live: inbound messages are delivered, one at a time.
    Connected,
    /// The connection was lost after initial success; reconnect attempts
    /// run indefinitely until one succeeds.
    Reconnecting,
}

/// One thing the outside world reports to the session.
pub enum SessionEvent {
    /// The process started; open the connection.
    Start,
    /// A connect (or reconnect) attempt succeeded.
    ConnectSucceeded,
    /// A connect (or reconnect) attempt failed.
    ConnectFailed,
    /// The command-topic subscription was acknowledged.
    SubscribeSucceeded,
    /// The command-topic subscription was refused.
    SubscribeFailed,
    /// One inbound message arrived with this payload.
    MessageArrived { payload: String },
    /// The inbound stream signalled a lost connection.
    StreamClosed,
    /// Publishing a response failed.
    PublishFailed,
}

/// What the session asks the driver to do next.
pub enum SessionAction {
    /// Open the broker connection, with last-will registration and a
    /// persistent (non-clean) session.
    Connect,
    /// Subscribe to the command topic at the configured QoS.
    Subscribe,
    /// Wait for the next inbound stream event.
    AwaitNext,
    /// Decode, execute and answer this payload to completion, then wait
    /// for the next event.
    Process { payload: String },
    /// Wait `delay_ms` milliseconds, then attempt one reconnect.
    Reconnect { delay_ms: u64 },
    /// Unrecoverable: report the error and end the process.
    Fail,
}

/// The session transition function: from a state and an event to the next
/// state and the one action owed in it.
///
/// The initial connect path runs Disconnected → Connecting → Connected,
/// subscribing between connect and the first wait; any failure on that
/// path is fatal. Once connected, each arriving message is processed to
/// completion before the next event is consumed, a closed stream moves to
/// Reconnecting, and a failed publish is fatal. While reconnecting, each
/// failed attempt schedules the next one after the fixed delay, and a
/// success resumes waiting for messages without subscribing again (the
/// broker session is persistent). An event no driver following the
/// actions can produce is treated as an unrecoverable protocol error.
pub open spec fn step_spec(s: ConnectionState, e: SessionEvent) -> (ConnectionState, SessionAction) {
    match (s, e) {
        (ConnectionState::Disconnected, SessionEvent::Start) => (
            ConnectionState::Connecting,
            SessionAction::Connect,
        ),
        (ConnectionState::Connecting, SessionEvent::ConnectSucceeded) => (
            ConnectionState::Connecting,
            SessionAction::Subscribe,
        ),
        (ConnectionState::Connecting, SessionEvent::SubscribeSucceeded) => (
            ConnectionState::Connected,
            SessionAction::AwaitNext,
        ),
        (ConnectionState::Connected, SessionEvent::MessageArrived { payload }) => (
            ConnectionState::Connected,
            SessionAction::Process { payload },
        ),
        (ConnectionState::Connected, SessionEvent::StreamClosed) => (
            ConnectionState::Reconnecting,
            SessionAction::Reconnect { delay_ms: 0 },
        ),
        (ConnectionState::Reconnecting, SessionEvent::ConnectFailed) => (
            ConnectionState::Reconnecting,
            SessionAction::Reconnect { delay_ms: RECONNECT_DELAY_MS },
        ),
        (ConnectionState::Reconnecting, SessionEvent::ConnectSucceeded) => (
            ConnectionState::Connected,
            SessionAction::AwaitNext,
        ),
        _ => (ConnectionState::Disconnected, SessionAction::Fail),
    }
}

/// Advances the session by one event.
pub fn step(s: ConnectionState, e: SessionEvent) -> (r: (ConnectionState, SessionAction))
    ensures
        r == step_spec(s, e),
{
    match (s, e) {
        (ConnectionState::Disconnected, SessionEvent::Start) => (
            ConnectionState::Connecting,
            SessionAction::Connect,
        ),
        (ConnectionState::Connecting, SessionEvent::ConnectSucceeded) => (
            ConnectionState::Connecting,
            SessionAction::Subscribe,
        ),
        (ConnectionState::Connecting, SessionEvent::SubscribeSucceeded) => (
            ConnectionState::Connected,
            SessionAction::AwaitNext,
        ),
        (ConnectionState::Connected, SessionEvent::MessageArrived { payload }) => (
            ConnectionState::Connected,
            SessionAction::Process { payload },
        ),
        (ConnectionState::Connected, SessionEvent::StreamClosed) => (
            ConnectionState::Reconnecting,
            SessionAction::Reconnect { delay_ms: 0 },
        ),
        (ConnectionState::Reconnecting, SessionEvent::ConnectFailed) => (
            ConnectionState::Reconnecting,
            SessionAction::Reconnect { delay_ms: RECONNECT_DELAY_MS },
        ),
        (ConnectionState::Reconnecting, SessionEvent::ConnectSucceeded) => (
            ConnectionState::Connected,
            SessionAction::AwaitNext,
        ),
        _ => (ConnectionState::Disconnected, SessionAction::Fail),
    }
}

/// The state the session is in after consuming `events` from `s`.
pub open spec fn run_state(s: ConnectionState, events: Seq<SessionEvent>) -> ConnectionState
    decreases events.len(),
{
    if events.len() == 0 {
        s
    } else {
        run_state(step_spec(s, events[0]).0, events.drop_first())
    }
}

/// The actions the session asks for while consuming `events` from `s`:
/// exactly one per event, in order.
pub open spec fn run_actions(s: ConnectionState, events: Seq<SessionEvent>) -> Seq<SessionAction>
    decreases events.len(),
{
    if events.len() == 0 {
        Seq::empty()
    } else {
        seq![step_spec(s, events[0]).1] + run_actions(step_spec(s, events[0]).0, events.drop_first())
    }
}

/// One action is asked for per event consumed.
pub proof fn lemma_run_actions_len(s: ConnectionState, events: Seq<SessionEvent>)
    ensures
        run_actions(s, events).len() == events.len(),
    decreases events.len(),
{
    if events.len() > 0 {
        lemma_run_actions_len(step_spec(s, events[0]).0, events.drop_first());
    }
}

/// The connection parameters of the initial connect: keep-alive interval,
/// a persistent (non-clean) session, and the last-will registration.
pub struct ConnectParams {
    pub keep_alive_secs: u64,
    pub clean_session: bool,
    pub will: OutboundMessage,
}

/// Builds the connection parameters: a 30-second keep-alive, a persistent
/// session so the subscription survives a reconnect, and a last-will
/// message carrying the fixed liveness marker on the last-will topic at
/// QoS 1.
pub fn connect_params(cfg: &Config) -> (p: ConnectParams)
    requires
        cfg.well_formed(),
    ensures
        p.keep_alive_secs == KEEP_ALIVE_SECS,
        !p.clean_session,
        p.will.topic@ == cfg.topics@[2]@,
        p.will.payload@ == "ALIVE"@,
        p.will.qos == 1,
{
    let will = OutboundMessage {
        topic: cfg.topics[2].clone(),
        payload: String::from_str("ALIVE"),
        qos: 1,
    };
    ConnectParams { keep_alive_secs: KEEP_ALIVE_SECS, clean_session: false, will }
}

} // verus!
