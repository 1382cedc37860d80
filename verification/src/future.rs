//! The caller-facing handle for one asynchronous probe, and the shared
//! extraction of a probe's outcome.
//!
//! A [`PingFuture`] wraps one [`CompletionState`] together with the
//! address family it was submitted for.  Polling never blocks: it
//! either registers the caller as the waiter, or moves the outcome out.
//! The raw reply is interpreted by the probe primitive's parsing step
//! outside this crate; its results come back as plain values and
//! [`finish_v4`] / [`finish_v6`] turn them into the probe's outcome,
//! for the asynchronous and the blocking path alike.

use vstd::prelude::*;

use crate::addr::{Ip4Addr, Ip6Addr};
use crate::buffer::{Buffer, ReplyState};
use crate::error::{spec_iperror, spec_winerror, Error, IP_SUCCESS};
use crate::state::{step_callback, step_send_return, CompletionState, ERROR_IO_PENDING};

verus! {

/// The address family a probe was submitted for.
#[derive(Copy, Clone, Debug, PartialEq, Eq, Structural)]
pub enum IpKind {
    /// An IPv4 probe.
    V4,
    /// An IPv6 probe.
    V6,
}

/// The result of an async ping: the outcome, and the buffer that was
/// originally passed into the pinger.
#[must_use]
pub struct AsyncResult {
    /// The round trip time in milliseconds on success, or the error.
    #[must_use]
    pub result: Result<u32, Error>,
    /// The buffer the probe was sent with, handed back to the caller.
    pub buffer: Buffer,
}

/// What one poll of a [`PingFuture`] reports.
pub enum PollOutcome {
    /// The probe has not completed; the caller was registered as the
    /// waiter and will be woken.
    Pending,
    /// The probe completed; the buffer's reply area holds raw bytes
    /// that the probe primitive's parsing step must interpret next.
    ReadyToParse(Buffer),
    /// The probe's outcome is final with no parsing needed: the
    /// submission call failed synchronously.
    Complete(AsyncResult),
    /// The submission call broke its own contract; carries the value
    /// it returned.  The caller must treat this as fatal.
    FatalSend(u32),
    /// The state was already taken; polling again after the outcome
    /// was moved out is not a supported call sequence.
    FatalInvalid,
}

/// The step a poll takes: what the state becomes, and what the poll
/// reports.  A probe that is not ready registers the new waiter,
/// displacing any previous registration; a ready or failed probe hands
/// its outcome out and leaves the taken marker behind; a probe whose
/// submission call broke its contract is left untouched and reported
/// as fatal.
pub open spec fn step_poll(s: CompletionState, waiter: u64) -> (CompletionState, PollOutcome) {
    match s {
        CompletionState::Unpolled(b) => (
            CompletionState::Polled(b, waiter),
            PollOutcome::Pending,
        ),
        CompletionState::Polled(b, _) => (
            CompletionState::Polled(b, waiter),
            PollOutcome::Pending,
        ),
        CompletionState::Ready(b) => (CompletionState::Invalid, PollOutcome::ReadyToParse(b)),
        CompletionState::Failed(b, code) => (
            CompletionState::Invalid,
            PollOutcome::Complete(
                AsyncResult { result: Err(spec_winerror(code)), buffer: b },
            ),
        ),
        CompletionState::FailedAsyncSend(b, code) => (
            CompletionState::FailedAsyncSend(b, code),
            PollOutcome::FatalSend(code),
        ),
        CompletionState::Invalid => (CompletionState::Invalid, PollOutcome::FatalInvalid),
    }
}

/// The immediate return value of an asynchronous probe submission: a
/// pollable handle on the probe's completion state.
pub struct PingFuture {
    state: CompletionState,
    kind: IpKind,
}

impl PingFuture {
    /// The completion state the handle currently holds.
    pub closed spec fn spec_state(self) -> CompletionState {
        self.state
    }

    /// The address family the probe was submitted for.
    pub closed spec fn spec_kind(self) -> IpKind {
        self.kind
    }

    /// Creates the handle for a freshly submitted probe: nobody has
    /// polled and the probe primitive has not reported back.
    pub fn new(buf: Buffer, kind: IpKind) -> (r: PingFuture)
        ensures
            r.spec_state() == CompletionState::Unpolled(buf),
            r.spec_kind() == kind,
    {
        PingFuture { state: CompletionState::Unpolled(buf), kind }
    }

    /// The address family the probe was submitted for.
    pub fn kind(&self) -> (r: IpKind)
        ensures
            r == self.spec_kind(),
    {
        self.kind
    }

    /// Applies the submission call's immediate return value to the
    /// state, and reports whether a registered waiter must be woken.
    pub fn on_send_return(&mut self, ret: u32, last_error: u32) -> (wake: bool)
        ensures
            final(self).spec_state() == step_send_return(
                old(self).spec_state(),
                ret,
                last_error,
            ).0,
            wake == step_send_return(old(self).spec_state(), ret, last_error).1,
            final(self).spec_kind() == old(self).spec_kind(),
    {
        let mut cur = CompletionState::Invalid;
        core::mem::swap(&mut cur, &mut self.state);
        if ret != 0 {
            match cur {
                CompletionState::Unpolled(b) => {
                    self.state = CompletionState::FailedAsyncSend(b, ret);
                    false
                },
                CompletionState::Polled(b, _) => {
                    self.state = CompletionState::FailedAsyncSend(b, ret);
                    true
                },
                other => {
                    self.state = other;
                    false
                },
            }
        } else if last_error == ERROR_IO_PENDING {
            self.state = cur;
            false
        } else {
            match cur {
                CompletionState::Unpolled(b) => {
                    self.state = CompletionState::Failed(b, last_error);
                    false
                },
                CompletionState::Polled(b, _) => {
                    self.state = CompletionState::Failed(b, last_error);
                    true
                },
                other => {
                    self.state = other;
                    false
                },
            }
        }
    }

    /// Applies the completion callback to the state, and reports
    /// whether a registered waiter must be woken.
    pub fn on_callback(&mut self) -> (wake: bool)
        ensures
            final(self).spec_state() == step_callback(old(self).spec_state()).0,
            wake == step_callback(old(self).spec_state()).1,
            final(self).spec_kind() == old(self).spec_kind(),
    {
        let mut cur = CompletionState::Invalid;
        core::mem::swap(&mut cur, &mut self.state);
        match cur {
            CompletionState::Unpolled(b) => {
                self.state = CompletionState::Ready(b);
                false
            },
            CompletionState::Polled(b, _) => {
                self.state = CompletionState::Ready(b);
                true
            },
            other => {
                self.state = other;
                false
            },
        }
    }

    /// Polls the probe once, registering the given waiter when the
    /// probe has not completed.  Never blocks.
    pub fn poll(&mut self, waiter: u64) -> (r: PollOutcome)
        ensures
            final(self).spec_state() == step_poll(old(self).spec_state(), waiter).0,
            r == step_poll(old(self).spec_state(), waiter).1,
            final(self).spec_kind() == old(self).spec_kind(),
    {
        let mut cur = CompletionState::Invalid;
        core::mem::swap(&mut cur, &mut self.state);
        match cur {
            CompletionState::Unpolled(b) => {
                self.state = CompletionState::Polled(b, waiter);
                PollOutcome::Pending
            },
            CompletionState::Polled(b, _) => {
                self.state = CompletionState::Polled(b, waiter);
                PollOutcome::Pending
            },
            CompletionState::Ready(b) => PollOutcome::ReadyToParse(b),
            CompletionState::Failed(b, code) => PollOutcome::Complete(
                AsyncResult { result: Err(Error::from_winerror(code)), buffer: b },
            ),
            CompletionState::FailedAsyncSend(b, code) => {
                self.state = CompletionState::FailedAsyncSend(b, code);
                PollOutcome::FatalSend(code)
            },
            CompletionState::Invalid => PollOutcome::FatalInvalid,
        }
    }
}

/// Turns the parsing step's results for an IPv4 probe into the probe's
/// outcome.  When the parser reported no replies, the outcome is the
/// error mapped from the last error code and the buffer keeps its
/// recorded reply state; otherwise the buffer records the reply and the
/// outcome is the round trip time on a success status, or the error
/// mapped from the reply status.
pub fn finish_v4(
    buf: Buffer,
    replies: u32,
    status: u32,
    rtt: u32,
    data_len: u16,
    addr: Ip4Addr,
    last_error: u32,
) -> (r: AsyncResult)
    ensures
        r.buffer.request_view() == buf.request_view(),
        r.buffer.reply_area_view() == buf.reply_area_view(),
        replies == 0 ==> r.result == Err::<u32, Error>(spec_winerror(last_error))
            && r.buffer.reply_state() == buf.reply_state(),
        replies != 0 ==> r.buffer.reply_state() == (ReplyState::Filled4 {
            data_len: data_len as usize,
            addr,
        }),
        replies != 0 && status == IP_SUCCESS ==> r.result == Ok::<u32, Error>(rtt),
        replies != 0 && status != IP_SUCCESS ==> r.result == Err::<u32, Error>(
            spec_iperror(status),
        ),
{
    let mut buf = buf;
    if replies == 0 {
        AsyncResult { result: Err(Error::from_winerror(last_error)), buffer: buf }
    } else {
        buf.set_filled4(data_len, addr);
        let result = if status == IP_SUCCESS {
            Ok(rtt)
        } else {
            Err(Error::from_iperror(status))
        };
        AsyncResult { result, buffer: buf }
    }
}

/// Turns the parsing step's results for an IPv6 probe into the probe's
/// outcome, the same way as for IPv4.  An IPv6 echo reply must carry
/// the request payload, so the recorded payload length is the request
/// payload's length.
pub fn finish_v6(buf: Buffer, replies: u32, status: u32, rtt: u32, addr: Ip6Addr, last_error: u32) -> (r:
    AsyncResult)
    ensures
        r.buffer.request_view() == buf.request_view(),
        r.buffer.reply_area_view() == buf.reply_area_view(),
        replies == 0 ==> r.result == Err::<u32, Error>(spec_winerror(last_error))
            && r.buffer.reply_state() == buf.reply_state(),
        replies != 0 ==> r.buffer.reply_state() == (ReplyState::Filled6 {
            data_len: buf.request_view().len() as usize,
            addr,
        }),
        replies != 0 && status == IP_SUCCESS ==> r.result == Ok::<u32, Error>(rtt),
        replies != 0 && status != IP_SUCCESS ==> r.result == Err::<u32, Error>(
            spec_iperror(status),
        ),
{
    let mut buf = buf;
    if replies == 0 {
        AsyncResult { result: Err(Error::from_winerror(last_error)), buffer: buf }
    } else {
        buf.set_filled6(addr);
        let result = if status == IP_SUCCESS {
            Ok(rtt)
        } else {
            Err(Error::from_iperror(status))
        };
        AsyncResult { result, buffer: buf }
    }
}

} // verus!
