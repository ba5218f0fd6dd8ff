//! Decisions of the websocket session and of the device watcher; the loops
//! that perform them run outside the library.

use vstd::prelude::*;

verus! {

/// The queue item that asks for a protocol ping instead of a text frame.
pub open spec fn heartbeat_token() -> Seq<char> {
    seq!['P', 'I', 'N', 'G']
}

/// Seconds to wait after a failed connection attempt.
pub const RETRY_DELAY_SECS: u64 = 5;

/// Seconds between heartbeats, and between polls of the device ports.
pub const POLL_INTERVAL_SECS: u64 = 1;

/// Capacity of the command queue.
pub const QUEUE_CAPACITY: usize = 100;

/// The heartbeat token as a string.
pub fn heartbeat() -> (r: String)
    ensures
        r@ == heartbeat_token(),
{
    proof {
        reveal_strlit("PING");
    }
    String::from_str("PING")
}

/// Whether queue item `item` is the heartbeat token.
pub fn is_heartbeat(item: &String) -> (r: bool)
    ensures
        r == (item@ == heartbeat_token()),
{
    let token = heartbeat();
    *item == token
}

/// State of the websocket session.
#[derive(Clone, Copy, Debug, PartialEq, Eq, Structural)]
pub enum SessionState {
    /// No connection is open; one is being made.
    Connecting,
    /// A connection is open and the queue is being drained into it.
    Open,
}

/// What happened since the last action.
#[derive(Clone, Debug)]
pub enum SessionEvent {
    ConnectFailed,
    Connected,
    /// An item was taken from the queue.
    Dequeued(String),
    Sent,
    SendFailed,
}

/// What to do next.
#[derive(Clone, Debug)]
pub enum SessionAction {
    /// Open a connection.
    Connect,
    /// Wait the retry delay, then open a connection.
    RetryLater,
    /// Block on the queue for the next item.
    Receive,
    /// Send a protocol ping frame.
    SendPing,
    /// Send this text frame.
    SendText(String),
}

/// Whether `a` takes an item from the queue.
pub open spec fn takes_from_queue(a: SessionAction) -> bool {
    a is Receive
}

/// The session's state after event `e` in state `s`.
pub open spec fn next_state(s: SessionState, e: SessionEvent) -> SessionState {
    match (s, e) {
        (SessionState::Connecting, SessionEvent::Connected) => SessionState::Open,
        (SessionState::Connecting, _) => SessionState::Connecting,
        (SessionState::Open, SessionEvent::SendFailed) => SessionState::Connecting,
        (SessionState::Open, _) => SessionState::Open,
    }
}

/// Whether the action after event `e` in state `s` takes an item from the queue.
pub open spec fn next_takes(s: SessionState, e: SessionEvent) -> bool {
    match (s, e) {
        (SessionState::Connecting, SessionEvent::Connected) => true,
        (SessionState::Connecting, _) => false,
        (SessionState::Open, SessionEvent::Dequeued(_)) => false,
        (SessionState::Open, SessionEvent::SendFailed) => false,
        (SessionState::Open, _) => true,
    }
}

/// The state after the events `es`, from state `s`.
pub open spec fn run_state(s: SessionState, es: Seq<SessionEvent>) -> SessionState
    decreases es.len(),
{
    if es.len() == 0 { s } else { run_state(next_state(s, es[0]), es.drop_first()) }
}

/// Whether any action along the events `es`, from state `s`, takes from the queue.
pub open spec fn run_takes(s: SessionState, es: Seq<SessionEvent>) -> bool
    decreases es.len(),
{
    if es.len() == 0 {
        false
    } else {
        next_takes(s, es[0]) || run_takes(next_state(s, es[0]), es.drop_first())
    }
}

/// A failed send closes the session, and until a connection is made again
/// nothing is taken from the queue: the items still queued stay there, in
/// their order, for the next connection.
pub proof fn lemma_queue_kept_until_reconnected(es: Seq<SessionEvent>)
    requires
        forall|i: int| 0 <= i < es.len() ==> !(es[i] is Connected),
    ensures
        next_state(SessionState::Open, SessionEvent::SendFailed) == SessionState::Connecting,
        !next_takes(SessionState::Open, SessionEvent::SendFailed),
        run_state(SessionState::Connecting, es) == SessionState::Connecting,
        !run_takes(SessionState::Connecting, es),
    decreases es.len(),
{
    if es.len() > 0 {
        let rest = es.drop_first();
        assert forall|i: int| 0 <= i < rest.len() implies !(rest[i] is Connected) by {
            assert(rest[i] == es[i + 1]);
        }
        lemma_queue_kept_until_reconnected(rest);
    }
}

/// The session's next state and action after event `e` in state `s`.
/// An event that cannot come in state `s` repeats that state's own action.
pub fn session_step(s: SessionState, e: SessionEvent) -> (r: (SessionState, SessionAction))
    ensures
        r.0 == next_state(s, e),
        takes_from_queue(r.1) == next_takes(s, e),
        match (s, e) {
            (SessionState::Connecting, SessionEvent::ConnectFailed) =>
                r.0 == SessionState::Connecting && r.1 is RetryLater,
            (SessionState::Connecting, SessionEvent::Connected) =>
                r.0 == SessionState::Open && r.1 is Receive,
            (SessionState::Connecting, _) =>
                r.0 == SessionState::Connecting && r.1 is Connect,
            (SessionState::Open, SessionEvent::Dequeued(item)) =>
                r.0 == SessionState::Open && if item@ == heartbeat_token() {
                    r.1 is SendPing
                } else {
                    r.1 matches SessionAction::SendText(t) && t@ == item@
                },
            (SessionState::Open, SessionEvent::SendFailed) =>
                r.0 == SessionState::Connecting && r.1 is Connect,
            (SessionState::Open, _) =>
                r.0 == SessionState::Open && r.1 is Receive,
        },
{
    match s {
        SessionState::Connecting => match e {
            SessionEvent::ConnectFailed => (SessionState::Connecting, SessionAction::RetryLater),
            SessionEvent::Connected => (SessionState::Open, SessionAction::Receive),
            _ => (SessionState::Connecting, SessionAction::Connect),
        },
        SessionState::Open => match e {
            SessionEvent::Dequeued(item) => {
                if is_heartbeat(&item) {
                    (SessionState::Open, SessionAction::SendPing)
                } else {
                    (SessionState::Open, SessionAction::SendText(item))
                }
            },
            SessionEvent::SendFailed => (SessionState::Connecting, SessionAction::Connect),
            _ => (SessionState::Open, SessionAction::Receive),
        },
    }
}

/// What the device watcher does after a poll.
#[derive(Clone, Copy, Debug, PartialEq, Eq, Structural)]
pub enum WatchAction {
    /// Nothing changes.
    Keep,
    /// The attached device is gone: drop its session.
    Lost,
    /// Attach the matching port with a fresh session.
    Attach,
}

/// Decides a poll: `attached` whether a device is attached, `found` whether a
/// matching port was found, `same` whether that port is the attached one.
pub fn watch_step(attached: bool, found: bool, same: bool) -> (r: WatchAction)
    ensures
        !found ==> r == (if attached { WatchAction::Lost } else { WatchAction::Keep }),
        found ==> r == (if attached && same { WatchAction::Keep } else { WatchAction::Attach }),
{
    if !found {
        if attached { WatchAction::Lost } else { WatchAction::Keep }
    } else if attached && same {
        WatchAction::Keep
    } else {
        WatchAction::Attach
    }
}

} // verus!
