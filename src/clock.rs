//! The local clock state, the shared store that holds it, and the handling of
//! one tick payload.
use vstd::prelude::*;
use std::sync::{Arc, Mutex};
use std::time::Instant;
use crate::json::Num;
use crate::tick::{DecodeError, decode, decoded};

verus! {

#[verifier::external_type_specification]
#[verifier::external_body]
pub struct ExInstant(std::time::Instant);

#[verifier::external_type_specification]
#[verifier::external_body]
#[verifier::reject_recursive_types(T)]
pub struct ExMutex<T: ?Sized>(std::sync::Mutex<T>);

/// Relies on std::time::Instant::now for the moment of an update; nothing is
/// assumed of the value.
pub assume_specification[ std::time::Instant::now ]() -> std::time::Instant;

/// Relies on std::sync::Mutex::new to make the store's lock; nothing is
/// assumed of the value.
pub assume_specification<T>[ std::sync::Mutex::<T>::new ](t: T) -> std::sync::Mutex<T>;

/// The last-known state of the publisher's clock.
#[derive(Clone, Copy, Debug)]
pub struct ClockState {
    pub stamp: Num,
    pub paused: bool,
    /// When the last tick was applied; `None` until the first one.
    pub last_update: Option<Instant>,
}

/// The stamp of a clock that has not been updated: a double of value zero.
pub open spec fn zero_stamp() -> Num {
    Num::Float(0)
}

impl ClockState {
    /// Before the first update the clock holds the default stamp and runs.
    pub open spec fn wf(self) -> bool {
        self.last_update is None ==> self.stamp == zero_stamp() && !self.paused
    }

    /// The state that one update records.
    pub open spec fn recorded_spec(stamp: Num, paused: bool, now: Instant) -> ClockState {
        ClockState { stamp, paused, last_update: Some(now) }
    }

    pub fn recorded(stamp: Num, paused: bool, now: Instant) -> (r: ClockState)
        ensures
            r == Self::recorded_spec(stamp, paused, now),
            r.wf(),
    {
        ClockState { stamp, paused, last_update: Some(now) }
    }

    /// Applies one tick payload received at `now`: a payload that decodes
    /// replaces stamp and pause flag, one that does not leaves the state alone.
    pub fn apply_tick(&mut self, payload: &[u8], now: Instant) -> (r: Result<(), HandleError>)
        requires
            old(self).wf(),
        ensures
            *final(self) == after_tick(*old(self), payload@, now),
            r == handle_outcome(payload@),
            final(self).wf(),
    {
        match decode(payload) {
            Ok(m) => {
                *self = ClockState::recorded(m.stamp, m.paused, now);
                Ok(())
            },
            Err(e) => Err(HandleError::Decode(e)),
        }
    }
}

impl Default for ClockState {
    fn default() -> (r: ClockState)
        ensures
            r.stamp == zero_stamp(),
            !r.paused,
            r.last_update is None,
            r.wf(),
    {
        ClockState { stamp: Num::Float(0), paused: false, last_update: None }
    }
}

/// The clock state after a tick payload arrives at `now`.
pub open spec fn after_tick(s: ClockState, payload: Seq<u8>, now: Instant) -> ClockState {
    match decoded(payload) {
        Ok(v) => ClockState::recorded_spec(v.stamp, v.paused, now),
        Err(_) => s,
    }
}

/// Why a tick payload was not applied.
#[derive(Clone, Copy, Debug, PartialEq, Eq, Structural)]
pub enum HandleError {
    Decode(DecodeError),
}

/// The outcome of handling a payload.
pub open spec fn handle_outcome(payload: Seq<u8>) -> Result<(), HandleError> {
    match decoded(payload) {
        Ok(_) => Ok(()),
        Err(e) => Err(HandleError::Decode(e)),
    }
}

/// The store's lock was poisoned by a panic in another thread.
#[derive(Clone, Copy, Debug, PartialEq, Eq, Structural)]
pub struct StoreUnavailable;

/// The clock state shared between the thread that receives ticks and those
/// that read it. The lock is private: the store is made holding a well-formed
/// state, and every state written to it later is well-formed.
#[derive(Clone)]
pub struct SharedClockState {
    lock: Arc<Mutex<ClockState>>,
    made_with: Ghost<ClockState>,
}

impl SharedClockState {
    /// The state the store was made with.
    pub closed spec fn initial(&self) -> ClockState {
        self.made_with@
    }

    fn holding(s: ClockState) -> (r: SharedClockState)
        requires
            s.wf(),
        ensures
            r.initial() == s,
    {
        SharedClockState { lock: Arc::new(Mutex::new(s)), made_with: Ghost(s) }
    }

    /// A store that holds the default clock state: zero stamp, running, never
    /// updated.
    pub fn new() -> (r: SharedClockState)
        ensures
            r.initial().stamp == zero_stamp(),
            !r.initial().paused,
            r.initial().last_update is None,
            r.initial().wf(),
    {
        SharedClockState::holding(ClockState::default())
    }
}

/// Relies on std::sync::Mutex::lock to replace the store's state; where the
/// lock is poisoned nothing is written.
#[verifier::external_body]
fn store_state(store: &SharedClockState, s: ClockState)
    requires
        s.wf(),
{
    if let Ok(mut guard) = store.lock.lock() {
        *guard = s;
    }
}

/// Relies on std::sync::Mutex::lock to copy the store's state out; `None`
/// where the lock is poisoned. Only a store can be read, and a store's lock
/// only ever holds well-formed states: `holding` requires one, and
/// `store_state`, the one writer, requires one.
#[verifier::external_body]
fn load_state(store: &SharedClockState) -> (r: Option<ClockState>)
    ensures
        r matches Some(s) ==> s.wf(),
{
    store.lock.lock().ok().map(|guard| *guard)
}

/// Records a new stamp and pause flag, with the current time as the moment
/// of the update. The three fields are replaced together under the lock, and
/// the state handed to the store is returned.
pub fn update_clock(state: &SharedClockState, stamp: Num, paused: bool) -> (r: ClockState)
    ensures
        r.last_update is Some,
        r == ClockState::recorded_spec(stamp, paused, r.last_update->Some_0),
{
    let now = Instant::now();
    let s = ClockState::recorded(stamp, paused, now);
    store_state(state, s);
    s
}

/// A copy of the current clock state, or `StoreUnavailable` where the lock is
/// poisoned. A state without `last_update` holds the zero stamp and is not
/// paused.
pub fn read_clock(state: &SharedClockState) -> (r: Result<ClockState, StoreUnavailable>)
    ensures
        r matches Ok(s) ==> s.wf(),
{
    match load_state(state) {
        Some(s) => Ok(s),
        None => Err(StoreUnavailable),
    }
}

/// Decodes one tick payload and, where it decodes, records its stamp and pause
/// flag in the store and returns the state written: the state that
/// `after_tick` gives at the moment of the update. A payload that does not
/// decode leaves the store alone.
pub fn handle_tick(payload: &[u8], shared: &SharedClockState) -> (r: Result<ClockState, HandleError>)
    ensures
        match decoded(payload@) {
            Ok(v) => r matches Ok(s) && s.last_update is Some
                && s == ClockState::recorded_spec(v.stamp, v.paused, s.last_update->Some_0),
            Err(e) => r == Err::<ClockState, HandleError>(HandleError::Decode(e)),
        },
        r is Ok <==> handle_outcome(payload@) is Ok,
        r matches Ok(s) ==> forall|old: ClockState| s == #[trigger] after_tick(old, payload@, s.last_update->Some_0),
{
    match decode(payload) {
        Ok(m) => Ok(update_clock(shared, m.stamp, m.paused)),
        Err(e) => Err(HandleError::Decode(e)),
    }
}

/// A tick that decodes sets the clock to its stamp and pause flag, and marks
/// it as updated at the moment the tick was applied.
pub proof fn lemma_tick_sets_clock(s: ClockState, payload: Seq<u8>, now: Instant)
    requires
        decoded(payload) is Ok,
    ensures
        after_tick(s, payload, now).stamp == decoded(payload)->Ok_0.stamp,
        after_tick(s, payload, now).paused == decoded(payload)->Ok_0.paused,
        after_tick(s, payload, now).last_update == Some(now),
        handle_outcome(payload) is Ok,
{
}

/// Last value wins: after two ticks that decode, the clock holds what the
/// second one says, whatever the first one said.
pub proof fn lemma_last_tick_wins(
    s: ClockState,
    first: Seq<u8>,
    second: Seq<u8>,
    t1: Instant,
    t2: Instant,
)
    requires
        decoded(second) is Ok,
    ensures
        after_tick(after_tick(s, first, t1), second, t2) == after_tick(s, second, t2),
        after_tick(after_tick(s, first, t1), second, t2).stamp == decoded(second)->Ok_0.stamp,
        after_tick(after_tick(s, first, t1), second, t2).paused == decoded(second)->Ok_0.paused,
{
}

/// A payload that does not decode, arriving between two ticks, leaves the
/// value of the first in place and does not keep the second from applying.
pub proof fn lemma_malformed_tick_ignored(
    s: ClockState,
    first: Seq<u8>,
    bad: Seq<u8>,
    second: Seq<u8>,
    t1: Instant,
    tb: Instant,
    t2: Instant,
)
    requires
        decoded(bad) is Err,
    ensures
        after_tick(after_tick(s, first, t1), bad, tb) == after_tick(s, first, t1),
        after_tick(after_tick(after_tick(s, first, t1), bad, tb), second, t2)
            == after_tick(after_tick(s, first, t1), second, t2),
        handle_outcome(bad) is Err,
{
}

/// Every state reached from a well-formed one by ticks is well-formed.
pub proof fn lemma_tick_keeps_wf(s: ClockState, payload: Seq<u8>, now: Instant)
    requires
        s.wf(),
    ensures
        after_tick(s, payload, now).wf(),
{
}

} // verus!
