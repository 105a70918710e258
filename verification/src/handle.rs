//! What the wrapper decides about the handles that WinINet hands out:
//! whether a call that creates one succeeded, whether a status callback
//! was taken, whether a call on one succeeded, and how each is closed.
//!
//! A handle is held as its address; `0` is `NULL`.

use vstd::prelude::*;

use crate::{BOOL, FALSE, INTERNET_INVALID_STATUS_CALLBACK};

verus! {

/// The handle that a creating call (`InternetOpen`, `InternetConnect`,
/// `HttpOpenRequest`) returned, or `None` where it returned `NULL`, that is
/// where the call failed and the OS error says why.
pub fn accept_handle(handle: usize) -> (h: Option<usize>)
    ensures
        h == (if handle == 0 { None } else { Some(handle) }),
        h is Some ==> h == Some(handle),
{
    if handle == 0 {
        None
    } else {
        Some(handle)
    }
}

/// The outcome of setting a status callback, from what
/// `InternetSetStatusCallback` returned (the previous callback, read as an
/// integer): refused exactly where that is `INTERNET_INVALID_STATUS_CALLBACK`.
pub fn callback_result(previous: isize) -> (r: Result<(), ()>)
    ensures
        r == (if previous == INTERNET_INVALID_STATUS_CALLBACK {
            Err(())
        } else {
            Ok(())
        }),
        previous == -1 ==> r is Err,
        previous != -1 ==> r == Ok::<(), ()>(()),
{
    if previous == INTERNET_INVALID_STATUS_CALLBACK {
        Err(())
    } else {
        Ok(())
    }
}

/// Whether a call that returns a `BOOL` succeeded: it failed exactly where
/// it returned `FALSE`.
pub fn call_succeeded(ret: BOOL) -> (ok: bool)
    ensures
        ok == (ret != FALSE),
        ok == (ret != 0),
{
    ret != FALSE
}

/// Which handle is being closed.
#[derive(Clone, Copy, Debug, PartialEq, Eq, Structural)]
pub enum HandleKind {
    /// The session of `InternetOpen`.
    Session,
    /// A connection of `InternetConnect`.
    Connection,
    /// A request of `HttpOpenRequest`.
    Request,
}

/// One call made when a handle is dropped.
#[derive(Clone, Copy, Debug, PartialEq, Eq, Structural)]
pub enum CloseStep {
    /// `InternetSetStatusCallback` with no callback, on this handle.
    ClearCallback(usize),
    /// `InternetCloseHandle` on this handle.
    Close(usize),
}

/// The calls that dropping a handle of this kind makes, in order. A
/// session is always closed; a connection or a request whose handle is
/// still `NULL` makes no call; a request has its callback cleared before
/// it is closed.
pub open spec fn spec_close_steps(kind: HandleKind, handle: usize) -> Seq<CloseStep> {
    match kind {
        HandleKind::Session => seq![CloseStep::Close(handle)],
        HandleKind::Connection => if handle == 0 {
            seq![]
        } else {
            seq![CloseStep::Close(handle)]
        },
        HandleKind::Request => if handle == 0 {
            seq![]
        } else {
            seq![CloseStep::ClearCallback(handle), CloseStep::Close(handle)]
        },
    }
}

/// The calls that dropping a handle of this kind makes, in order.
pub fn close_steps(kind: HandleKind, handle: usize) -> (steps: Vec<CloseStep>)
    ensures
        steps@ == spec_close_steps(kind, handle),
        kind == HandleKind::Session ==> steps@ == seq![CloseStep::Close(handle)],
        kind == HandleKind::Connection && handle != 0 ==> steps@ == seq![CloseStep::Close(handle)],
        kind == HandleKind::Request && handle != 0 ==> steps@ == seq![
            CloseStep::ClearCallback(handle),
            CloseStep::Close(handle),
        ],
        kind != HandleKind::Session && handle == 0 ==> steps@.len() == 0,
{
    let mut steps: Vec<CloseStep> = Vec::new();
    match kind {
        HandleKind::Session => {
            steps.push(CloseStep::Close(handle));
        },
        HandleKind::Connection => {
            if handle != 0 {
                steps.push(CloseStep::Close(handle));
            }
        },
        HandleKind::Request => {
            if handle != 0 {
                steps.push(CloseStep::ClearCallback(handle));
                steps.push(CloseStep::Close(handle));
            }
        },
    }
    steps
}

/// Dropping a handle touches that handle alone; it is closed at most once,
/// by the last step; it is closed unless it is a `NULL` connection or
/// request, and nothing at all is done for those.
pub proof fn lemma_close_steps_close_once_last(kind: HandleKind, handle: usize)
    ensures
        forall|i: int|
            0 <= i < spec_close_steps(kind, handle).len() ==> match #[trigger] spec_close_steps(
                kind,
                handle,
            )[i] {
                CloseStep::ClearCallback(h) => h == handle,
                CloseStep::Close(h) => h == handle && i == spec_close_steps(kind, handle).len() - 1,
            },
        (kind == HandleKind::Session || handle != 0) <==> (spec_close_steps(kind, handle).len()
            > 0 && spec_close_steps(kind, handle).last() == CloseStep::Close(handle)),
        !(kind == HandleKind::Session || handle != 0) ==> spec_close_steps(kind, handle).len()
            == 0,
{
}

/// Dropping a request with a handle clears its status callback and then
/// closes it, for every non-`NULL` handle: two calls, both on that handle,
/// the first `InternetSetStatusCallback`, the second `InternetCloseHandle`.
/// A connection with a handle, and every session, make exactly one call,
/// which closes it; a `NULL` connection or request makes none.
pub proof fn lemma_close_steps_exact(kind: HandleKind, handle: usize)
    ensures
        kind == HandleKind::Request && handle != 0 ==> {
            let s = spec_close_steps(kind, handle);
            &&& s.len() == 2
            &&& s[0] == CloseStep::ClearCallback(handle)
            &&& s[1] == CloseStep::Close(handle)
        },
        kind == HandleKind::Connection && handle != 0 ==> {
            let s = spec_close_steps(kind, handle);
            &&& s.len() == 1
            &&& s[0] == CloseStep::Close(handle)
        },
        kind == HandleKind::Session ==> {
            let s = spec_close_steps(kind, handle);
            &&& s.len() == 1
            &&& s[0] == CloseStep::Close(handle)
        },
        kind != HandleKind::Session && handle == 0 ==> spec_close_steps(kind, handle).len() == 0,
{
}

} // verus!
