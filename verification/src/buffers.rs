//! The fields of an `INTERNET_BUFFERS` record, as plain values.

use vstd::prelude::*;

use crate::layout::spec_buffers_record_size;

verus! {

/// What an `INTERNET_BUFFERS` record holds. A pointer field holds the
/// address it points to, `0` for `NULL`.
#[derive(Clone, Copy, Debug, PartialEq, Eq, Structural)]
pub struct BuffersFields {
    /// `dwStructSize`: the size of the record in bytes.
    pub struct_size: u32,
    /// `Next`: the next record of a chain.
    pub next: usize,
    /// `lpcszHeader`: the headers.
    pub header: usize,
    /// `dwHeadersLength`: the length of the headers, in characters.
    pub headers_length: u32,
    /// `dwHeadersTotal`: the size of the headers, if the buffer is too small.
    pub headers_total: u32,
    /// `lpvBuffer`: the data buffer (the body).
    pub buffer: usize,
    /// `dwBufferLength`: the size of the buffer, in bytes.
    pub buffer_length: u32,
    /// `dwBufferTotal`: the content length.
    pub buffer_total: u32,
    /// `dwOffsetLow`: reserved.
    pub offset_low: u32,
    /// `dwOffsetHigh`: reserved.
    pub offset_high: u32,
}

/// The fields of a fresh record: its size, and nothing else set.
pub open spec fn empty_buffers_fields() -> BuffersFields {
    BuffersFields {
        struct_size: spec_buffers_record_size() as u32,
        next: 0,
        header: 0,
        headers_length: 0,
        headers_total: 0,
        buffer: 0,
        buffer_length: 0,
        buffer_total: 0,
        offset_low: 0,
        offset_high: 0,
    }
}

} // verus!
