//! The ANSI form of the records.

use vstd::prelude::*;

use crate::buffers::{empty_buffers_fields, BuffersFields};
use crate::layout::{buffers_record_size, spec_buffers_record_size};
use crate::DWORD;

verus! {

/// data and header information. https://docs.microsoft.com/en-us/windows/win32/api/wininet/ns-wininet-internet_buffersa
///
/// A pointer field holds the address it points to, `0` for `NULL`.
pub struct INTERNET_BUFFERSA {
    dwStructSize: DWORD,
    Next: usize,
    ///contains the headers. Can be NULL.
    lpcszHeader: usize,
    ///Size of the headers, in TCHARs, if lpcszHeader is not NULL
    dwHeadersLength: DWORD,
    ///Size of the headers, if there is not enough memory in the buffer.
    dwHeadersTotal: DWORD,
    ///data buffer (body)
    lpvBuffer: usize,
    ///Size of the buffer, in bytes, if lpvBuffer is not NULL
    dwBufferLength: DWORD,
    /// content-length
    dwBufferTotal: DWORD,
    ///Reserved
    dwOffsetLow: DWORD,
    ///Reserved
    dwOffsetHigh: DWORD,
}

impl View for INTERNET_BUFFERSA {
    type V = BuffersFields;

    closed spec fn view(&self) -> BuffersFields {
        BuffersFields {
            struct_size: self.dwStructSize,
            next: self.Next,
            header: self.lpcszHeader,
            headers_length: self.dwHeadersLength,
            headers_total: self.dwHeadersTotal,
            buffer: self.lpvBuffer,
            buffer_length: self.dwBufferLength,
            buffer_total: self.dwBufferTotal,
            offset_low: self.dwOffsetLow,
            offset_high: self.dwOffsetHigh,
        }
    }
}

impl INTERNET_BUFFERSA {
    /// Every record states its own size correctly.
    #[verifier::type_invariant]
    spec fn size_is_stated(self) -> bool {
        self.dwStructSize == spec_buffers_record_size()
    }

    /// A record with its size set and every other field `0` or `NULL`.
    pub fn new() -> (b: INTERNET_BUFFERSA)
        ensures
            b@ == empty_buffers_fields(),
            b@.struct_size == spec_buffers_record_size(),
            b@.next == 0 && b@.header == 0 && b@.buffer == 0,
            b@.headers_length == 0 && b@.headers_total == 0 && b@.buffer_length == 0,
            b@.buffer_total == 0 && b@.offset_low == 0 && b@.offset_high == 0,
    {
        INTERNET_BUFFERSA {
            dwStructSize: buffers_record_size(),
            Next: 0,
            lpcszHeader: 0,
            dwHeadersLength: 0,
            dwHeadersTotal: 0,
            lpvBuffer: 0,
            dwBufferLength: 0,
            dwBufferTotal: 0,
            dwOffsetLow: 0,
            dwOffsetHigh: 0,
        }
    }

    /// Sets the content length (`dwBufferTotal`); no other field changes.
    pub fn set_content_len(&mut self, len: DWORD)
        ensures
            final(self)@ == (BuffersFields { buffer_total: len, ..old(self)@ }),
            final(self)@.buffer_total == len,
            final(self)@.struct_size == old(self)@.struct_size,
    {
        proof {
            use_type_invariant(&*self);
        }
        self.dwBufferTotal = len;
    }

    /// The fields of the record, for laying it out in memory.
    pub fn fields(&self) -> (f: BuffersFields)
        ensures
            f == self@,
            f.struct_size == spec_buffers_record_size(),
    {
        proof {
            use_type_invariant(self);
        }
        BuffersFields {
            struct_size: self.dwStructSize,
            next: self.Next,
            header: self.lpcszHeader,
            headers_length: self.dwHeadersLength,
            headers_total: self.dwHeadersTotal,
            buffer: self.lpvBuffer,
            buffer_length: self.dwBufferLength,
            buffer_total: self.dwBufferTotal,
            offset_low: self.dwOffsetLow,
            offset_high: self.dwOffsetHigh,
        }
    }
}

} // verus!
