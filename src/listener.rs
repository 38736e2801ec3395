//! The decisions of the subscription loop: connect, subscribe, then take
//! each message in arrival order until the stream ends. The caller performs
//! each action and reports what came of it as the next event.
use vstd::prelude::*;
use crate::clock::{HandleError, SharedClockState, handle_outcome, handle_tick};

verus! {

/// Why the subscription could not be set up.
#[derive(Clone, Copy, Debug, PartialEq, Eq, Structural)]
pub enum ConnectError {
    /// The bus could not be reached.
    Connect,
    /// The bus refused the subscription to the tick topic.
    Subscribe,
}

/// Where the subscription loop stands.
#[derive(Clone, Copy, Debug, PartialEq, Eq)]
pub enum ListenerState {
    Disconnected,
    Connected,
    /// Subscribed, and taking messages one at a time.
    Receiving,
    /// Finished: `Ok` when the stream ended, the error when setup failed.
    Stopped(Result<(), ConnectError>),
}

/// What came of the last action.
#[derive(Debug)]
pub enum ListenerEvent {
    ConnectOk,
    ConnectFailed,
    SubscribeOk,
    SubscribeFailed,
    /// The next message, with its payload.
    Message(Vec<u8>),
    /// The message stream is closed.
    StreamEnded,
}

/// What the caller does next.
#[derive(Clone, Copy, Debug, PartialEq, Eq)]
pub enum ListenerAction {
    /// Connect to the bus.
    Connect,
    /// Subscribe to the tick topic.
    Subscribe,
    /// Wait for the next message.
    AwaitNext,
    /// Report that a message was dropped, then wait for the next one.
    Report(HandleError),
    /// End the loop with this outcome.
    Stop(Result<(), ConnectError>),
}

/// The action that a state waits on.
pub open spec fn pending(s: ListenerState) -> ListenerAction {
    match s {
        ListenerState::Disconnected => ListenerAction::Connect,
        ListenerState::Connected => ListenerAction::Subscribe,
        ListenerState::Receiving => ListenerAction::AwaitNext,
        ListenerState::Stopped(r) => ListenerAction::Stop(r),
    }
}

/// The next state and action. Setup failures stop the loop with their error;
/// each message is handled, and one that does not decode is reported without
/// ending the loop; only the end of the stream stops a running loop. An event
/// that does not belong to the state changes nothing.
pub open spec fn listener_next(s: ListenerState, e: ListenerEvent) -> (ListenerState, ListenerAction) {
    match (s, e) {
        (ListenerState::Disconnected, ListenerEvent::ConnectOk) =>
            (ListenerState::Connected, ListenerAction::Subscribe),
        (ListenerState::Disconnected, ListenerEvent::ConnectFailed) => (
            ListenerState::Stopped(Err(ConnectError::Connect)),
            ListenerAction::Stop(Err(ConnectError::Connect)),
        ),
        (ListenerState::Connected, ListenerEvent::SubscribeOk) =>
            (ListenerState::Receiving, ListenerAction::AwaitNext),
        (ListenerState::Connected, ListenerEvent::SubscribeFailed) => (
            ListenerState::Stopped(Err(ConnectError::Subscribe)),
            ListenerAction::Stop(Err(ConnectError::Subscribe)),
        ),
        (ListenerState::Receiving, ListenerEvent::Message(p)) => match handle_outcome(p@) {
            Ok(_) => (ListenerState::Receiving, ListenerAction::AwaitNext),
            Err(err) => (ListenerState::Receiving, ListenerAction::Report(err)),
        },
        (ListenerState::Receiving, ListenerEvent::StreamEnded) =>
            (ListenerState::Stopped(Ok(())), ListenerAction::Stop(Ok(()))),
        _ => (s, pending(s)),
    }
}

/// The loop starts disconnected, and its first action is to connect.
pub fn listener_start() -> (r: (ListenerState, ListenerAction))
    ensures
        r == (ListenerState::Disconnected, ListenerAction::Connect),
{
    (ListenerState::Disconnected, ListenerAction::Connect)
}

/// Takes one event. A message that arrives while receiving is handed to
/// `handle_tick`, which records it in the store where it decodes.
pub fn listener_step(s: ListenerState, e: &ListenerEvent, shared: &SharedClockState) -> (r: (
    ListenerState,
    ListenerAction,
))
    ensures
        r == listener_next(s, *e),
{
    match (s, e) {
        (ListenerState::Disconnected, ListenerEvent::ConnectOk) =>
            (ListenerState::Connected, ListenerAction::Subscribe),
        (ListenerState::Disconnected, ListenerEvent::ConnectFailed) => (
            ListenerState::Stopped(Err(ConnectError::Connect)),
            ListenerAction::Stop(Err(ConnectError::Connect)),
        ),
        (ListenerState::Connected, ListenerEvent::SubscribeOk) =>
            (ListenerState::Receiving, ListenerAction::AwaitNext),
        (ListenerState::Connected, ListenerEvent::SubscribeFailed) => (
            ListenerState::Stopped(Err(ConnectError::Subscribe)),
            ListenerAction::Stop(Err(ConnectError::Subscribe)),
        ),
        (ListenerState::Receiving, ListenerEvent::Message(p)) => match handle_tick(p.as_slice(), shared) {
            Ok(_) => (ListenerState::Receiving, ListenerAction::AwaitNext),
            Err(err) => (ListenerState::Receiving, ListenerAction::Report(err)),
        },
        (ListenerState::Receiving, ListenerEvent::StreamEnded) =>
            (ListenerState::Stopped(Ok(())), ListenerAction::Stop(Ok(()))),
        _ => {
            let a = match s {
                ListenerState::Disconnected => ListenerAction::Connect,
                ListenerState::Connected => ListenerAction::Subscribe,
                ListenerState::Receiving => ListenerAction::AwaitNext,
                ListenerState::Stopped(r) => ListenerAction::Stop(r),
            };
            (s, a)
        },
    }
}

/// A message never ends a running loop: it is applied, or reported with the
/// reason it was dropped, and the loop goes on receiving.
pub proof fn lemma_message_keeps_receiving(p: Vec<u8>)
    ensures
        listener_next(ListenerState::Receiving, ListenerEvent::Message(p)).0 == ListenerState::Receiving,
        handle_outcome(p@) matches Err(err) ==>
            listener_next(ListenerState::Receiving, ListenerEvent::Message(p)).1 == ListenerAction::Report(err),
        handle_outcome(p@) is Ok ==>
            listener_next(ListenerState::Receiving, ListenerEvent::Message(p)).1 == ListenerAction::AwaitNext,
{
}

/// A running loop stops only when the stream ends, and then with `Ok`.
pub proof fn lemma_stops_only_at_stream_end(e: ListenerEvent)
    ensures
        listener_next(ListenerState::Receiving, e).0 is Stopped <==> e is StreamEnded,
        e is StreamEnded ==> listener_next(ListenerState::Receiving, e).1 == ListenerAction::Stop(Ok(())),
{
}

/// A failure to connect or to subscribe stops the loop with that error.
pub proof fn lemma_setup_failure_is_fatal()
    ensures
        listener_next(ListenerState::Disconnected, ListenerEvent::ConnectFailed).1
            == ListenerAction::Stop(Err(ConnectError::Connect)),
        listener_next(ListenerState::Connected, ListenerEvent::SubscribeFailed).1
            == ListenerAction::Stop(Err(ConnectError::Subscribe)),
{
}

/// Once stopped, the loop stays stopped with the same outcome.
pub proof fn lemma_stopped_is_final(r: Result<(), ConnectError>, e: ListenerEvent)
    ensures
        listener_next(ListenerState::Stopped(r), e) == (ListenerState::Stopped(r), ListenerAction::Stop(r)),
{
}

} // verus!
