//! The size of the C records that the API reads.

use vstd::prelude::*;

verus! {

/// The width of a pointer on this machine, in bytes.
pub open spec fn pointer_size() -> int {
    usize::BITS as int / 8
}

/// The size in bytes of an `INTERNET_BUFFERS` record (A or W form, whose
/// layouts agree) as C lays it out: a `DWORD`, padded to pointer alignment,
/// then two pointers, two `DWORD`s, a pointer and four `DWORD`s; every
/// offset is already aligned, so no padding follows.
pub open spec fn spec_buffers_record_size() -> int {
    4 * pointer_size() + 24
}

/// The size in bytes of an `INTERNET_BUFFERS` record on this machine.
pub fn buffers_record_size() -> (size: u32)
    ensures
        size == spec_buffers_record_size(),
        usize::BITS == 32 ==> size == 40,
        usize::BITS == 64 ==> size == 56,
{
    let p: u32 = usize::BITS / 8;
    4 * p + 24
}

/// The stated record size is the C layout of the record: with pointers of
/// `p` bytes (4 or 8), one `DWORD` padded to `p`, three pointers and six
/// `DWORD`s, that is 40 bytes where pointers are 4 bytes wide and 56 where
/// they are 8.
pub proof fn lemma_buffers_record_size_is_c_layout()
    ensures
        usize::BITS == 32 || usize::BITS == 64,
        usize::BITS == 32 ==> spec_buffers_record_size() == 40,
        usize::BITS == 64 ==> spec_buffers_record_size() == 56,
        ({
            let p = usize::BITS as int / 8;
            spec_buffers_record_size() == p + 3 * p + 6 * 4
        }),
{
}

} // verus!
