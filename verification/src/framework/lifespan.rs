//! The ASGI lifespan protocol: the events handed to the app's `receive`,
//! and what the app's `send` events mean for startup and shutdown.
use vstd::prelude::*;
use crate::text::{concat2, str_eq};

verus! {

/// Where the lifespan `receive` callable stands.
#[derive(Debug, Clone, Copy, PartialEq, Eq, Structural)]
pub enum ReceiveState {
    /// The next call returns `lifespan.startup`.
    Startup,
    /// The next call waits for shutdown, then returns `lifespan.shutdown`.
    WaitingShutdown,
    /// No more events: calls pend forever.
    Done,
}

/// What a call of `receive` hands the app.
#[derive(Debug, Clone, Copy, PartialEq, Eq, Structural)]
pub enum ReceiveAction {
    /// `{"type": "lifespan.startup"}` at once.
    Startup,
    /// `{"type": "lifespan.shutdown"}` once shutdown is signalled.
    AwaitShutdown,
    /// A future that never resolves.
    Pend,
}

/// The state after a call of `receive` in `s`.
pub open spec fn receive_next(s: ReceiveState) -> ReceiveState {
    match s {
        ReceiveState::Startup => ReceiveState::WaitingShutdown,
        ReceiveState::WaitingShutdown => ReceiveState::Done,
        ReceiveState::Done => ReceiveState::Done,
    }
}

/// One call of `receive`: startup first, then shutdown, then nothing.
pub fn receive_step(state: ReceiveState) -> (r: (ReceiveState, ReceiveAction))
    ensures
        r.0 == receive_next(state),
        r.1 == match state {
            ReceiveState::Startup => ReceiveAction::Startup,
            ReceiveState::WaitingShutdown => ReceiveAction::AwaitShutdown,
            ReceiveState::Done => ReceiveAction::Pend,
        },
{
    match state {
        ReceiveState::Startup => (ReceiveState::WaitingShutdown, ReceiveAction::Startup),
        ReceiveState::WaitingShutdown => (ReceiveState::Done, ReceiveAction::AwaitShutdown),
        ReceiveState::Done => (ReceiveState::Done, ReceiveAction::Pend),
    }
}

/// The state after `n` calls of `receive` from `s`.
pub open spec fn receive_after(s: ReceiveState, n: nat) -> ReceiveState
    decreases n,
{
    if n == 0 {
        s
    } else {
        receive_after(receive_next(s), (n - 1) as nat)
    }
}

/// From the first call, `receive` hands out the startup event once and the
/// shutdown event once; from the third call on it only pends.
pub proof fn law_receive_sequence(n: nat)
    ensures
        receive_after(ReceiveState::Startup, 1) == ReceiveState::WaitingShutdown,
        receive_after(ReceiveState::Startup, 2) == ReceiveState::Done,
        n >= 2 ==> receive_after(ReceiveState::Startup, n) == ReceiveState::Done,
    decreases n,
{
    reveal_with_fuel(receive_after, 3);
    if n >= 2 {
        lemma_done_absorbs((n - 2) as nat);
        assert(receive_after(ReceiveState::Startup, n) == receive_after(ReceiveState::WaitingShutdown, (n - 1) as nat));
        assert(receive_after(ReceiveState::WaitingShutdown, (n - 1) as nat) == receive_after(ReceiveState::Done, (n - 2) as nat));
    }
}

proof fn lemma_done_absorbs(n: nat)
    ensures
        receive_after(ReceiveState::Done, n) == ReceiveState::Done,
    decreases n,
{
    if n > 0 {
        lemma_done_absorbs((n - 1) as nat);
    }
}

/// A lifespan event sent by the app.
#[derive(Debug)]
pub enum SendEvent {
    /// Startup completed.
    StartupComplete,
    /// Startup failed with message.
    StartupFailed(String),
    /// Shutdown completed.
    ShutdownComplete,
    /// Shutdown failed with message.
    ShutdownFailed(String),
}

/// The kinds of lifespan event an app may send.
#[derive(Debug, Clone, Copy, PartialEq, Eq, Structural)]
pub enum SendEventType {
    StartupComplete,
    StartupFailed,
    ShutdownComplete,
    ShutdownFailed,
}

/// The event kind a `type` value names.
pub open spec fn send_event_named(t: Seq<char>) -> Option<SendEventType> {
    if t == "lifespan.startup.complete"@ {
        Some(SendEventType::StartupComplete)
    } else if t == "lifespan.startup.failed"@ {
        Some(SendEventType::StartupFailed)
    } else if t == "lifespan.shutdown.complete"@ {
        Some(SendEventType::ShutdownComplete)
    } else if t == "lifespan.shutdown.failed"@ {
        Some(SendEventType::ShutdownFailed)
    } else {
        None
    }
}

/// Classify a lifespan send event from its `type` and optional `message`
/// (empty when absent), or the error for an unsupported type.
pub fn classify_send_event(event_type: &str, message: Option<String>) -> (r: Result<SendEvent, String>)
    ensures
        match send_event_named(event_type@) {
            Some(SendEventType::StartupComplete) => r matches Ok(SendEvent::StartupComplete),
            Some(SendEventType::StartupFailed) => r matches Ok(SendEvent::StartupFailed(m)) && m@
                == message_text(message),
            Some(SendEventType::ShutdownComplete) => r matches Ok(SendEvent::ShutdownComplete),
            Some(SendEventType::ShutdownFailed) => r matches Ok(SendEvent::ShutdownFailed(m)) && m@
                == message_text(message),
            None => r matches Err(e) && e@ == "unsupported lifespan event type: "@ + event_type@,
        },
{
    if str_eq(event_type, "lifespan.startup.complete") {
        Ok(SendEvent::StartupComplete)
    } else if str_eq(event_type, "lifespan.startup.failed") {
        Ok(SendEvent::StartupFailed(extract_message(message)))
    } else if str_eq(event_type, "lifespan.shutdown.complete") {
        Ok(SendEvent::ShutdownComplete)
    } else if str_eq(event_type, "lifespan.shutdown.failed") {
        Ok(SendEvent::ShutdownFailed(extract_message(message)))
    } else {
        Err(concat2("unsupported lifespan event type: ", event_type))
    }
}

/// The message of a failure event: empty when absent.
pub open spec fn message_text(message: Option<String>) -> Seq<char> {
    match message {
        Some(m) => m@,
        None => Seq::empty(),
    }
}

/// The message of a failure event: empty when absent.
pub fn extract_message(message: Option<String>) -> (r: String)
    ensures
        r@ == message_text(message),
{
    match message {
        Some(m) => m,
        None => String::new(),
    }
}

/// Which phase a send event settles.
#[derive(Debug, Clone, Copy, PartialEq, Eq, Structural)]
pub enum LifespanPhase {
    Startup,
    Shutdown,
}

/// The phase a send event settles and the result recorded for it:
/// `complete`, or `failed:` followed by the message.
pub fn send_outcome(event: SendEvent) -> (r: (LifespanPhase, String))
    ensures
        match event {
            SendEvent::StartupComplete => r.0 == LifespanPhase::Startup && r.1@ == "complete"@,
            SendEvent::StartupFailed(m) => r.0 == LifespanPhase::Startup && r.1@ == "failed:"@ + m@,
            SendEvent::ShutdownComplete => r.0 == LifespanPhase::Shutdown && r.1@ == "complete"@,
            SendEvent::ShutdownFailed(m) => r.0 == LifespanPhase::Shutdown && r.1@ == "failed:"@ + m@,
        },
{
    match event {
        SendEvent::StartupComplete => (LifespanPhase::Startup, String::from_str("complete")),
        SendEvent::StartupFailed(m) => (LifespanPhase::Startup, concat2("failed:", m.as_str())),
        SendEvent::ShutdownComplete => (LifespanPhase::Shutdown, String::from_str("complete")),
        SendEvent::ShutdownFailed(m) => (LifespanPhase::Shutdown, concat2("failed:", m.as_str())),
    }
}

/// The startup result recorded when the app raises instead of answering:
/// lifespan is unsupported.
pub fn unsupported_outcome() -> (r: (LifespanPhase, &'static str))
    ensures
        r.0 == LifespanPhase::Startup,
        r.1@ == "unsupported"@,
{
    (LifespanPhase::Startup, "unsupported")
}

} // verus!
