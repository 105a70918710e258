//! What an HTTP request decides: the flags it is opened with, which call
//! each poll of it makes, and what the outcome of that call means.

use vstd::prelude::*;

use crate::{
    BOOL, DWORD, ERROR_IO_PENDING, FALSE, INTERNET_FLAG_NO_CACHE_WRITE, INTERNET_FLAG_RELOAD,
    INTERNET_FLAG_SECURE,
};

verus! {

/// The flags that `HttpOpenRequest` is given: the response is neither taken
/// from nor written to the cache, and TLS is used where asked for.
pub open spec fn spec_request_flags(tls: bool) -> DWORD {
    if tls {
        INTERNET_FLAG_RELOAD | INTERNET_FLAG_NO_CACHE_WRITE | INTERNET_FLAG_SECURE
    } else {
        INTERNET_FLAG_RELOAD | INTERNET_FLAG_NO_CACHE_WRITE
    }
}

/// The flags that `HttpOpenRequest` is given for a request.
pub fn request_flags(tls: bool) -> (flags: DWORD)
    ensures
        flags == spec_request_flags(tls),
        tls ==> flags == 0x8480_0000u32,
        !tls ==> flags == 0x8400_0000u32,
        flags & INTERNET_FLAG_RELOAD == INTERNET_FLAG_RELOAD,
        flags & INTERNET_FLAG_NO_CACHE_WRITE == INTERNET_FLAG_NO_CACHE_WRITE,
        (flags & INTERNET_FLAG_SECURE == INTERNET_FLAG_SECURE) <==> tls,
        flags & !(INTERNET_FLAG_RELOAD | INTERNET_FLAG_NO_CACHE_WRITE | INTERNET_FLAG_SECURE) == 0,
{
    let mut flags: DWORD = INTERNET_FLAG_RELOAD | INTERNET_FLAG_NO_CACHE_WRITE;
    if tls {
        flags = flags | INTERNET_FLAG_SECURE;
    }
    assert(0x84000000u32 & 0x80000000u32 == 0x80000000u32) by (bit_vector);
    assert(0x84000000u32 & 0x04000000u32 == 0x04000000u32) by (bit_vector);
    assert(0x84000000u32 & 0x00800000u32 == 0u32) by (bit_vector);
    assert(0x84800000u32 & 0x80000000u32 == 0x80000000u32) by (bit_vector);
    assert(0x84800000u32 & 0x04000000u32 == 0x04000000u32) by (bit_vector);
    assert(0x84800000u32 & 0x00800000u32 == 0x00800000u32) by (bit_vector);
    assert(0x84000000u32 & !0x84800000u32 == 0u32) by (bit_vector);
    assert(0x84800000u32 & !0x84800000u32 == 0u32) by (bit_vector);
    assert(0x80000000u32 | 0x04000000u32 == 0x84000000u32) by (bit_vector);
    assert(0x84000000u32 | 0x00800000u32 == 0x84800000u32) by (bit_vector);
    flags
}

/// Where an asynchronous request stands.
#[derive(Clone, Copy, Debug, PartialEq, Eq, Structural)]
pub enum ReqState {
    /// The request is to be sent (`HttpSendRequestEx`).
    Send,
    /// The body is to be uploaded.
    Upload,
    /// The request is to be ended (`HttpEndRequest`).
    End,
    /// The response is to be downloaded.
    Download,
}

/// The API call that one poll of a request makes.
#[derive(Clone, Copy, Debug, PartialEq, Eq, Structural)]
pub enum RequestCall {
    /// `HttpSendRequestEx` with a fresh `INTERNET_BUFFERS` record.
    SendRequestEx,
    /// `HttpEndRequest`.
    EndRequest,
}

/// What a poll of a request answers.
#[derive(Clone, Copy, Debug, PartialEq, Eq, Structural)]
pub enum PollOutcome {
    /// The call succeeded: ready, with success.
    Complete,
    /// The call is still running: keep the waker and answer pending.
    Pending,
    /// The call failed: ready, with the OS error.
    Failed,
}

impl ReqState {
    /// The states in which a poll makes a call; uploading and downloading
    /// are not implemented, and polling in them panics.
    pub open spec fn can_poll(self) -> bool {
        self is Send || self is End
    }

    /// The call that a poll makes in this state.
    pub open spec fn spec_poll_call(self) -> RequestCall {
        if self is Send {
            RequestCall::SendRequestEx
        } else {
            RequestCall::EndRequest
        }
    }

    /// The call that a poll makes in this state.
    pub fn poll_call(&self) -> (call: RequestCall)
        requires
            self.can_poll(),
        ensures
            call == self.spec_poll_call(),
    {
        match self {
            ReqState::Send => RequestCall::SendRequestEx,
            _ => RequestCall::EndRequest,
        }
    }
}

/// What the outcome of a poll's call means.
pub open spec fn spec_poll_outcome(ret: BOOL, os_error: Option<i32>) -> PollOutcome {
    if ret != FALSE {
        PollOutcome::Complete
    } else if os_error == Some(ERROR_IO_PENDING) {
        PollOutcome::Pending
    } else {
        PollOutcome::Failed
    }
}

/// What a poll answers, from what its call returned and, where that was
/// `FALSE`, the raw OS error that the failure left.
pub fn poll_outcome(ret: BOOL, os_error: Option<i32>) -> (outcome: PollOutcome)
    ensures
        outcome == spec_poll_outcome(ret, os_error),
        ret != FALSE ==> outcome == PollOutcome::Complete,
        ret == FALSE && os_error == Some(ERROR_IO_PENDING) ==> outcome == PollOutcome::Pending,
        ret == FALSE && os_error != Some(ERROR_IO_PENDING) ==> outcome == PollOutcome::Failed,
{
    if ret != FALSE {
        PollOutcome::Complete
    } else {
        match os_error {
            Some(code) => {
                if code == ERROR_IO_PENDING {
                    PollOutcome::Pending
                } else {
                    PollOutcome::Failed
                }
            },
            None => PollOutcome::Failed,
        }
    }
}

/// A poll whose call succeeded is complete, whatever error is at hand; one
/// whose call returned `FALSE` waits exactly when the OS error is
/// `ERROR_IO_PENDING` (997), and fails on every other error code or none.
pub proof fn lemma_poll_outcome(ret: BOOL, os_error: Option<i32>)
    ensures
        ret != 0 ==> spec_poll_outcome(ret, os_error) == PollOutcome::Complete,
        ret == 0 ==> (spec_poll_outcome(ret, os_error) == PollOutcome::Pending <==> os_error
            == Some(997i32)),
        ret == 0 ==> (spec_poll_outcome(ret, os_error) == PollOutcome::Failed <==> os_error
            != Some(997i32)),
        forall|code: i32|
            code != 997 ==> #[trigger] spec_poll_outcome(0, Some(code)) == PollOutcome::Failed,
        spec_poll_outcome(0, None) == PollOutcome::Failed,
{
}

/// Sending polls with `HttpSendRequestEx`, ending with `HttpEndRequest`, and
/// the two never make the same call.
pub proof fn lemma_poll_call()
    ensures
        ReqState::Send.spec_poll_call() == RequestCall::SendRequestEx,
        ReqState::End.spec_poll_call() == RequestCall::EndRequest,
        ReqState::Send.spec_poll_call() != ReqState::End.spec_poll_call(),
{
}

} // verus!
