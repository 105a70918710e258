//! The verified core of a small wrapper around the WinINet HTTP client API.
//!
//! The library holds what the wrapper decides and computes: the numeric
//! codes of the status and open-type enumerations, the flags handed to a
//! request, the `INTERNET_BUFFERS` records, the outcome of each API call and
//! of each poll of an asynchronous request, the steps that close a handle,
//! and the text of a received body.

#![allow(non_camel_case_types)]
#![allow(non_snake_case)]

use vstd::prelude::*;

pub mod ansi;
pub mod buffers;
pub mod handle;
pub mod layout;
pub mod open_type;
pub mod receive;
pub mod request;
pub mod status;
pub mod unicode;

verus! {

/// The Win32 `DWORD`.
pub type DWORD = u32;

/// The Win32 `BOOL`.
pub type BOOL = i32;

/// The `BOOL` value that reports a failed call.
pub const FALSE: BOOL = 0;

/// What the status callback is told of a completed asynchronous call.
#[derive(Clone, Copy, Debug, PartialEq, Eq, Structural)]
pub struct INTERNET_ASYNC_RESULT {
    pub dwResult: usize,
    pub dwError: DWORD,
}

/// A point in time: 100-nanosecond intervals since January 1, 1601 (UTC).
#[allow(dead_code)]
pub(crate) struct FILETIME {
    dwLowDateTime: DWORD,
    dwHighDateTime: DWORD,
}

/// Do not take the response from the cache.
pub const INTERNET_FLAG_RELOAD: DWORD = 0x80000000;

/// Use TLS for the request.
pub const INTERNET_FLAG_SECURE: DWORD = 0x00800000;

/// Do not add the response to the cache.
pub const INTERNET_FLAG_NO_CACHE_WRITE: DWORD = 0x04000000;

/// The session works asynchronously.
pub const INTERNET_FLAG_ASYNC: DWORD = 0x10000000;

/// The service a connection is opened for: HTTP.
pub const INTERNET_SERVICE_HTTP: DWORD = 3;

/// What setting a status callback returns when it was refused.
pub const INTERNET_INVALID_STATUS_CALLBACK: isize = -1;

/// The OS error that says an asynchronous call is still running.
pub const ERROR_IO_PENDING: i32 = 997;

} // verus!
