//! The event-level protocol of one probe's completion state.
//!
//! The worker thread and the polling caller each apply steps to a
//! probe's [`CompletionState`]; this module describes every sequence of
//! those steps and proves the state machine's safety properties over
//! all of them: a supported sequence of events never observes the
//! transient marker, a wake-up goes only to the registered waiter and
//! consumes the registration, a callback that finds a waiter never
//! loses the wake-up, a state that has left the waiting states never
//! re-enters them, and one probe's evolution does not depend on how
//! another probe's events are interleaved with it.

use vstd::prelude::*;

use crate::buffer::Buffer;
use crate::future::step_poll;
use crate::state::{
    is_terminal, state_buffer, step_callback, step_send_return, CompletionState, ERROR_IO_PENDING,
};

verus! {

/// One event applied to a probe's completion state: the submission
/// call's immediate return, the completion callback, or a poll.
#[derive(Copy, Clone, Debug)]
pub enum ProbeEvent {
    /// The submission call returned on the worker thread.
    SendReturn {
        /// The call's immediate return value.
        ret: u32,
        /// The error code the thread read right after the call.
        last_error: u32,
    },
    /// The completion callback fired on the worker thread.
    Callback,
    /// The caller polled the handle.
    Poll {
        /// The waiter the poll registers.
        waiter: u64,
    },
}

/// The state a probe starts in at submission time.
pub open spec fn init_state(b: Buffer) -> CompletionState {
    CompletionState::Unpolled(b)
}

/// The step one event applies, and whether it wakes the registered
/// waiter.  A poll never wakes anybody; it registers.
pub open spec fn event_step(s: CompletionState, e: ProbeEvent) -> (CompletionState, bool) {
    match e {
        ProbeEvent::SendReturn { ret, last_error } => step_send_return(s, ret, last_error),
        ProbeEvent::Callback => step_callback(s),
        ProbeEvent::Poll { waiter } => (step_poll(s, waiter).0, false),
    }
}

/// The state after a sequence of events, starting from submission with
/// the given buffer.
pub open spec fn state_after(b0: Buffer, es: Seq<ProbeEvent>) -> CompletionState
    decreases es.len(),
{
    if es.len() == 0 {
        init_state(b0)
    } else {
        event_step(state_after(b0, es.drop_last()), es.last()).0
    }
}

/// Whether an event is the submission call's return.
pub open spec fn is_send_return(e: ProbeEvent) -> bool {
    e is SendReturn
}

/// Whether an event is the submission call's return reporting an
/// accepted, pending request.
pub open spec fn is_pending_send(e: ProbeEvent) -> bool {
    match e {
        ProbeEvent::SendReturn { ret, last_error } => ret == 0 && last_error == ERROR_IO_PENDING,
        _ => false,
    }
}

/// Whether an event is the completion callback.
pub open spec fn is_callback(e: ProbeEvent) -> bool {
    e is Callback
}

/// Whether an event is a poll.
pub open spec fn is_poll(e: ProbeEvent) -> bool {
    e is Poll
}

/// Whether the sequence holds a submission return.
pub open spec fn has_send_return(es: Seq<ProbeEvent>) -> bool
    decreases es.len(),
{
    es.len() > 0 && (is_send_return(es.last()) || has_send_return(es.drop_last()))
}

/// Whether the sequence holds a submission return that reported a
/// pending request.
pub open spec fn has_pending_send(es: Seq<ProbeEvent>) -> bool
    decreases es.len(),
{
    es.len() > 0 && (is_pending_send(es.last()) || has_pending_send(es.drop_last()))
}

/// Whether the sequence holds the completion callback.
pub open spec fn has_callback(es: Seq<ProbeEvent>) -> bool
    decreases es.len(),
{
    es.len() > 0 && (is_callback(es.last()) || has_callback(es.drop_last()))
}

/// Whether an event, applied in the given state, takes the probe's
/// outcome out of the state.
pub open spec fn is_extracting(s: CompletionState, e: ProbeEvent) -> bool {
    is_poll(e) && (s is Ready || s is Failed)
}

/// Whether some event of the sequence took the probe's outcome out.
pub open spec fn has_extraction(b0: Buffer, es: Seq<ProbeEvent>) -> bool
    decreases es.len(),
{
    es.len() > 0 && (is_extracting(state_after(b0, es.drop_last()), es.last()) || has_extraction(
        b0,
        es.drop_last(),
    ))
}

/// Which events the probe's protocol lets follow a given history: the
/// submission call returns exactly once; the callback fires at most
/// once and only after a submission return that reported a pending
/// request; and a caller does not poll again after a poll took the
/// outcome out.
pub open spec fn event_allowed(b0: Buffer, prefix: Seq<ProbeEvent>, e: ProbeEvent) -> bool {
    match e {
        ProbeEvent::SendReturn { .. } => !has_send_return(prefix),
        ProbeEvent::Callback => has_pending_send(prefix) && !has_callback(prefix),
        ProbeEvent::Poll { .. } => !has_extraction(b0, prefix),
    }
}

/// Whether every event of the sequence was allowed by the protocol
/// when it happened.
pub open spec fn valid_events(b0: Buffer, es: Seq<ProbeEvent>) -> bool
    decreases es.len(),
{
    es.len() == 0 || (valid_events(b0, es.drop_last()) && event_allowed(
        b0,
        es.drop_last(),
        es.last(),
    ))
}

/// Everything the history of events pins down about the current state.
pub open spec fn history_inv(b0: Buffer, es: Seq<ProbeEvent>) -> bool {
    let s = state_after(b0, es);
    &&& (s is Ready ==> has_callback(es))
    &&& (s is Failed ==> has_send_return(es) && !has_pending_send(es))
    &&& (s is FailedAsyncSend ==> has_send_return(es) && !has_pending_send(es))
    &&& (s is Invalid ==> has_send_return(es) && (has_callback(es) || !has_pending_send(es)))
    &&& (s is Invalid ==> has_extraction(b0, es))
    &&& (!has_send_return(es) ==> (s is Unpolled || s is Polled))
    &&& (has_pending_send(es) ==> has_send_return(es))
    &&& (has_callback(es) ==> has_pending_send(es))
    &&& (has_extraction(b0, es) ==> s is Invalid)
    &&& (!(s is Invalid) ==> state_buffer(s) == Some(b0))
}

/// The history of a supported event sequence pins the state down as
/// [`history_inv`] says.
pub proof fn lemma_history_invariant(b0: Buffer, es: Seq<ProbeEvent>)
    requires
        valid_events(b0, es),
    ensures
        history_inv(b0, es),
    decreases es.len(),
{
    if es.len() > 0 {
        let prefix = es.drop_last();
        lemma_history_invariant(b0, prefix);
    }
}

/// Every prefix of a supported event sequence is itself supported.
pub proof fn lemma_valid_prefix(b0: Buffer, es: Seq<ProbeEvent>, j: int)
    requires
        valid_events(b0, es),
        0 <= j <= es.len(),
    ensures
        valid_events(b0, es.take(j)),
    decreases es.len(),
{
    if j == es.len() {
        assert(es.take(j) =~= es);
    } else {
        assert(es.drop_last().take(j) =~= es.take(j));
        lemma_valid_prefix(b0, es.drop_last(), j);
    }
}

/// Stepping a history by its next event is the same as evaluating the
/// longer history.
pub proof fn lemma_state_after_take_succ(b0: Buffer, es: Seq<ProbeEvent>, k: int)
    requires
        0 <= k < es.len(),
    ensures
        state_after(b0, es.take(k + 1)) == event_step(state_after(b0, es.take(k)), es[k]).0,
{
    assert(es.take(k + 1).drop_last() =~= es.take(k));
    assert(es.take(k + 1).last() == es[k]);
}

/// State-machine exclusivity: at no point within a supported event
/// sequence does an event find the transient marker; every observation
/// sees exactly one of the defined, non-marker variants.
pub proof fn lemma_marker_never_observed(b0: Buffer, es: Seq<ProbeEvent>, i: int)
    requires
        valid_events(b0, es),
        0 <= i < es.len(),
    ensures
        !(state_after(b0, es.take(i)) is Invalid),
{
    let p = es.take(i);
    lemma_valid_prefix(b0, es, i + 1);
    assert(es.take(i + 1).drop_last() =~= p);
    assert(valid_events(b0, p) && event_allowed(b0, p, es[i]));
    lemma_history_invariant(b0, p);
}

/// A wake-up is delivered only when a waiter is registered.
pub proof fn lemma_wake_only_with_waiter(s: CompletionState, e: ProbeEvent)
    ensures
        event_step(s, e).1 ==> s is Polled,
{
}

/// Delivering a wake-up consumes the registration: right after a wake,
/// no waiter is registered any more, so a second wake-up needs a fresh
/// poll first.
pub proof fn lemma_wake_consumes_waiter(s: CompletionState, e: ProbeEvent)
    ensures
        event_step(s, e).1 ==> !(event_step(s, e).0 is Polled),
{
}

/// Only a poll registers a waiter: no other event moves the state into
/// the waiting-with-waiter state.
pub proof fn lemma_only_poll_registers(s: CompletionState, e: ProbeEvent)
    ensures
        event_step(s, e).0 is Polled ==> (e is Poll || s is Polled),
{
}

/// A callback that fires while a waiter is registered always delivers
/// the wake-up: it is never lost.
pub proof fn lemma_no_lost_wake(s: CompletionState)
    requires
        s is Polled,
    ensures
        step_callback(s).1,
        step_callback(s).0 is Ready,
{
}

/// Whether the event at the given position delivers a wake-up.
pub open spec fn wake_at(b0: Buffer, es: Seq<ProbeEvent>, i: int) -> bool {
    event_step(state_after(b0, es.take(i)), es[i]).1
}

/// A callback that fires at a point where a waiter is registered
/// delivers the wake-up at that point: no sequence loses it.
pub proof fn lemma_callback_delivers_wake(b0: Buffer, es: Seq<ProbeEvent>, i: int)
    requires
        0 <= i < es.len(),
        is_callback(es[i]),
        state_after(b0, es.take(i)) is Polled,
    ensures
        wake_at(b0, es, i),
{
}

/// Without a poll between two positions, a state that holds no
/// registered waiter still holds none later.
proof fn lemma_no_poll_no_register(b0: Buffer, es: Seq<ProbeEvent>, i: int, j: int)
    requires
        0 <= i <= j <= es.len(),
        !(state_after(b0, es.take(i)) is Polled),
        forall|k: int| i <= k < j ==> !is_poll(#[trigger] es[k]),
    ensures
        !(state_after(b0, es.take(j)) is Polled),
    decreases j - i,
{
    if i < j {
        lemma_state_after_take_succ(b0, es, i);
        lemma_only_poll_registers(state_after(b0, es.take(i)), es[i]);
        lemma_no_poll_no_register(b0, es, i + 1, j);
    }
}

/// No two wake-ups for a single registered waiter: between any two
/// wake-ups of one probe there is a poll that registered afresh.
pub proof fn lemma_no_double_wake(b0: Buffer, es: Seq<ProbeEvent>, i: int, j: int)
    requires
        0 <= i < j < es.len(),
        wake_at(b0, es, i),
        wake_at(b0, es, j),
    ensures
        exists|k: int| i < k < j && is_poll(#[trigger] es[k]),
{
    if forall|k: int| i < k < j ==> !is_poll(#[trigger] es[k]) {
        lemma_state_after_take_succ(b0, es, i);
        lemma_wake_consumes_waiter(state_after(b0, es.take(i)), es[i]);
        lemma_no_poll_no_register(b0, es, i + 1, j);
        lemma_wake_only_with_waiter(state_after(b0, es.take(j)), es[j]);
        assert(false);
    }
}

/// One step never takes a terminal state back to a waiting state.
pub proof fn lemma_step_preserves_terminal(s: CompletionState, e: ProbeEvent)
    ensures
        is_terminal(s) ==> is_terminal(event_step(s, e).0),
{
}

/// Idempotent readiness: once the completion state has left the
/// waiting states, no later events re-enter them.
pub proof fn lemma_idempotent_readiness(b0: Buffer, es: Seq<ProbeEvent>, i: int, j: int)
    requires
        0 <= i <= j <= es.len(),
        is_terminal(state_after(b0, es.take(i))),
    ensures
        is_terminal(state_after(b0, es.take(j))),
    decreases j - i,
{
    if i < j {
        lemma_state_after_take_succ(b0, es, i);
        lemma_step_preserves_terminal(state_after(b0, es.take(i)), es[i]);
        lemma_idempotent_readiness(b0, es, i + 1, j);
    }
}

/// The buffer a probe was submitted with stays with its completion
/// state through every supported event sequence, until the outcome is
/// taken out.
pub proof fn lemma_buffer_preserved(b0: Buffer, es: Seq<ProbeEvent>)
    requires
        valid_events(b0, es),
        !(state_after(b0, es) is Invalid),
    ensures
        state_buffer(state_after(b0, es)) == Some(b0),
{
    lemma_history_invariant(b0, es);
}

/// The events of two concurrently outstanding probes, interleaved in
/// any order; the flag tells which probe an event belongs to.
pub open spec fn project(es: Seq<(bool, ProbeEvent)>, tag: bool) -> Seq<ProbeEvent>
    decreases es.len(),
{
    if es.len() == 0 {
        Seq::empty()
    } else if es.last().0 == tag {
        project(es.drop_last(), tag).push(es.last().1)
    } else {
        project(es.drop_last(), tag)
    }
}

/// The pair of states of two probes after an interleaved sequence of
/// their events.
pub open spec fn pair_state_after(
    a0: Buffer,
    b0: Buffer,
    es: Seq<(bool, ProbeEvent)>,
) -> (CompletionState, CompletionState)
    decreases es.len(),
{
    if es.len() == 0 {
        (init_state(a0), init_state(b0))
    } else {
        let prev = pair_state_after(a0, b0, es.drop_last());
        if es.last().0 == false {
            (event_step(prev.0, es.last().1).0, prev.1)
        } else {
            (prev.0, event_step(prev.1, es.last().1).0)
        }
    }
}

/// Submission-order independence: each probe's completion state after
/// an interleaved run is exactly the state its own events alone
/// produce, whatever order the other probe's submission, callback and
/// polls were interleaved in.
pub proof fn lemma_completion_independent(a0: Buffer, b0: Buffer, es: Seq<(bool, ProbeEvent)>)
    ensures
        pair_state_after(a0, b0, es).0 == state_after(a0, project(es, false)),
        pair_state_after(a0, b0, es).1 == state_after(b0, project(es, true)),
    decreases es.len(),
{
    if es.len() > 0 {
        lemma_completion_independent(a0, b0, es.drop_last());
        let pa = project(es.drop_last(), false);
        let pb = project(es.drop_last(), true);
        if es.last().0 == false {
            assert(pa.push(es.last().1).drop_last() =~= pa);
        } else {
            assert(pb.push(es.last().1).drop_last() =~= pb);
        }
    }
}

} // verus!
