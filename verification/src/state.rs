//! The completion state of one outstanding asynchronous probe.
//!
//! One value of [`CompletionState`] tracks a probe from submission to
//! the moment the caller takes its outcome.  The worker thread drives it
//! with the probe primitive's immediate return value and, later, with
//! the completion callback; the caller drives it by polling.  Every
//! transition is a pure step function here, so the whole machine is
//! stated and checked; the locking and threading around it only ever
//! swap a state out, apply one step, and put the result back.

use vstd::prelude::*;

use crate::buffer::Buffer;

verus! {

/// Immediate status value the asynchronous probe primitive reports when
/// it has accepted a request and will complete it through the callback.
pub const ERROR_IO_PENDING: u32 = 997;

/// The lifecycle of one outstanding probe.
pub enum CompletionState {
    /// Created at submission time; the probe primitive has not reported
    /// back yet and nobody has polled.
    Unpolled(Buffer),
    /// A caller polled before completion; the number identifies the
    /// registered waiter to wake when the probe completes.
    Polled(Buffer, u64),
    /// The probe completed; the reply area holds raw bytes that have
    /// not been interpreted yet.
    Ready(Buffer),
    /// The submission call itself failed before accepting the request;
    /// carries the reported error code.
    Failed(Buffer, u32),
    /// The submission call returned a value other than the accepted or
    /// pending conventions; carries that value.  Observing this at poll
    /// time is treated as fatal.
    FailedAsyncSend(Buffer, u32),
    /// Transient marker left while a state is moved out, and after the
    /// outcome has been taken; never observed by a supported call
    /// sequence.
    Invalid,
}

/// How the submission call's immediate return value is classified.
#[derive(Copy, Clone, Debug, PartialEq, Eq, Structural)]
pub enum SendDisposition {
    /// The request is pending; the callback will complete it.
    Pending,
    /// The call failed before accepting the request; carries the error
    /// code it reported.
    FailedSync(u32),
    /// The call returned an unexpected value; carries that value.
    Unexpected(u32),
}

/// Classification of the submission call's immediate outcome: a zero
/// return with a pending error code means the request was accepted, a
/// zero return with any other error code is a synchronous failure, and
/// a nonzero return breaks the call's contract.
pub open spec fn spec_classify(ret: u32, last_error: u32) -> SendDisposition {
    if ret != 0 {
        SendDisposition::Unexpected(ret)
    } else if last_error == ERROR_IO_PENDING {
        SendDisposition::Pending
    } else {
        SendDisposition::FailedSync(last_error)
    }
}

/// The buffer a state carries, when it carries one.
pub open spec fn state_buffer(s: CompletionState) -> Option<Buffer> {
    match s {
        CompletionState::Unpolled(b) => Some(b),
        CompletionState::Polled(b, _) => Some(b),
        CompletionState::Ready(b) => Some(b),
        CompletionState::Failed(b, _) => Some(b),
        CompletionState::FailedAsyncSend(b, _) => Some(b),
        CompletionState::Invalid => None,
    }
}

/// A state that can never again become waiting: every outcome-bearing
/// state, and the marker left after the outcome was taken.
pub open spec fn is_terminal(s: CompletionState) -> bool {
    !(s is Unpolled || s is Polled)
}

/// The step the worker takes when the submission call returns, and
/// whether a registered waiter must be woken.  A pending request leaves
/// the state untouched; a failure moves a waiting state to the matching
/// failure state and wakes a registered waiter; any state that should
/// not see this event is left untouched.
pub open spec fn step_send_return(s: CompletionState, ret: u32, last_error: u32) -> (
    CompletionState,
    bool,
) {
    match spec_classify(ret, last_error) {
        SendDisposition::Pending => (s, false),
        SendDisposition::FailedSync(code) => match s {
            CompletionState::Unpolled(b) => (CompletionState::Failed(b, code), false),
            CompletionState::Polled(b, _) => (CompletionState::Failed(b, code), true),
            _ => (s, false),
        },
        SendDisposition::Unexpected(code) => match s {
            CompletionState::Unpolled(b) => (CompletionState::FailedAsyncSend(b, code), false),
            CompletionState::Polled(b, _) => (CompletionState::FailedAsyncSend(b, code), true),
            _ => (s, false),
        },
    }
}

/// The step the completion callback takes, and whether a registered
/// waiter must be woken.  A probe that nobody polled yet becomes ready
/// silently; a probe with a registered waiter becomes ready and wakes
/// it exactly once; any state that should not see a callback is left
/// untouched.
pub open spec fn step_callback(s: CompletionState) -> (CompletionState, bool) {
    match s {
        CompletionState::Unpolled(b) => (CompletionState::Ready(b), false),
        CompletionState::Polled(b, _) => (CompletionState::Ready(b), true),
        _ => (s, false),
    }
}

/// Classifies the submission call's immediate outcome.
pub fn classify_send_return(ret: u32, last_error: u32) -> (r: SendDisposition)
    ensures
        r == spec_classify(ret, last_error),
{
    if ret != 0 {
        SendDisposition::Unexpected(ret)
    } else if last_error == ERROR_IO_PENDING {
        SendDisposition::Pending
    } else {
        SendDisposition::FailedSync(last_error)
    }
}

} // verus!
