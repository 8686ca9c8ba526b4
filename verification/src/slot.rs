//! Tri-state cells for asynchronous loads.
//!
//! A load slot holds the lifecycle of one asynchronous fetch: `Empty`
//! before anything was requested, `Fetching` while a request is in
//! flight, and `Ready` with the last value that a completed request
//! produced. The front end marks a slot `Fetching` before it schedules
//! the operation, and hands the operation's outcome back to the slot
//! when it resolves; a failed outcome leaves the slot untouched, so a
//! slot that was `Fetching` stays `Fetching` (the viewer keeps showing
//! its loading placeholder rather than an error).

use vstd::prelude::*;

verus! {

/// The three states of one asynchronous fetch.
pub enum SlotState<T> {
    /// No load was ever requested.
    Empty,
    /// A load is in flight and no value has arrived yet.
    Fetching,
    /// The value that the last completed load produced.
    Ready(T),
}

/// What starting a load does to a slot's state: it always reads
/// `Fetching` from that moment on, whatever it held before.
pub open spec fn step_start<T>(s: SlotState<T>) -> SlotState<T> {
    SlotState::Fetching
}

/// What a resolved load does to a slot's state: a success replaces the
/// state with `Ready` around the produced value, a failure leaves the
/// state exactly as it was.
pub open spec fn step_finish<T, E>(s: SlotState<T>, outcome: Result<T, E>) -> SlotState<T> {
    match outcome {
        Ok(v) => SlotState::Ready(v),
        Err(_) => s,
    }
}

/// A single-value cell that tracks one asynchronous fetch.
pub struct LoadSlot<T> {
    /// The current lifecycle state of the fetch.
    pub state: SlotState<T>,
}

impl<T> LoadSlot<T> {
    /// A slot that has never seen a load request.
    pub fn new() -> (slot: Self)
        ensures
            slot.state is Empty,
    {
        LoadSlot { state: SlotState::Empty }
    }

    /// Replace the slot's contents outright.
    pub fn store(&mut self, state: SlotState<T>)
        ensures
            final(self).state == state,
    {
        self.state = state;
    }

    /// A snapshot of the current state, for a non-blocking reader.
    pub fn get(&self) -> (state: &SlotState<T>)
        ensures
            *state == self.state,
    {
        &self.state
    }

    /// Mark the slot `Fetching`; called synchronously before the
    /// asynchronous operation is scheduled.
    pub fn start(&mut self)
        ensures
            final(self).state == step_start(old(self).state),
    {
        self.state = SlotState::Fetching;
    }

    /// Record a resolved load. A success stores its value as `Ready`;
    /// a failure changes nothing and is handed back to the caller for
    /// diagnostics.
    pub fn finish<E>(&mut self, outcome: Result<T, E>) -> (failure: Option<E>)
        ensures
            final(self).state == step_finish(old(self).state, outcome),
            outcome matches Err(e) ==> failure == Some(e),
            outcome matches Ok(_) ==> failure is None,
    {
        match outcome {
            Ok(v) => {
                self.state = SlotState::Ready(v);
                None
            },
            Err(e) => Some(e),
        }
    }
}

/// Law of the load protocol: once a load starts, the slot reads
/// `Fetching` until the operation resolves; a successful resolution
/// leaves the slot `Ready` with exactly the value the operation
/// produced, and a failed one leaves the `Fetching` marker in place.
pub proof fn lemma_load_protocol<T, E>(s: SlotState<T>, v: T, e: E)
    ensures
        step_start::<T>(s) is Fetching,
        step_finish::<T, E>(step_start::<T>(s), Ok(v)) == SlotState::Ready(v),
        step_finish::<T, E>(step_start::<T>(s), Err(e)) is Fetching,
{
}

/// Law of overlapping loads: two loads racing into one slot are not
/// ordered by when they started — whichever outcome is recorded last
/// determines the slot's final contents.
pub proof fn lemma_last_completion_wins<T, E>(s: SlotState<T>, first: T, second: T)
    ensures
        step_finish::<T, E>(step_finish::<T, E>(s, Ok(first)), Ok(second)) == SlotState::Ready(
            second,
        ),
{
}

} // verus!
