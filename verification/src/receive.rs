//! The text of a received response body.

use vstd::prelude::*;
use vstd::utf8::{decode_utf8, valid_utf8};

verus! {

/// How many bytes one read of a response body asks for.
pub const RECV_BUFFER_LEN: usize = 9096;

/// The text that `String::from_utf8_lossy` makes of these bytes.
pub uninterp spec fn lossy_utf8(bytes: Seq<u8>) -> Seq<char>;

/// Calls `String::from_utf8_lossy` and owns the result. Its documentation
/// states that valid UTF-8 is decoded as it is, and that each invalid
/// sequence becomes U+FFFD; which bytes form one invalid sequence is not
/// stated here: the text is named `lossy_utf8` of the bytes.
#[verifier::external_body]
fn decode_lossy(bytes: &[u8]) -> (text: String)
    ensures
        text@ == lossy_utf8(bytes@),
        valid_utf8(bytes@) ==> text@ == decode_utf8(bytes@),
{
    String::from_utf8_lossy(bytes).into_owned()
}

/// The text of the first `read` bytes of a receive buffer, with each
/// invalid UTF-8 sequence replaced by U+FFFD.
pub fn received_text(buf: &[u8], read: u32) -> (text: String)
    requires
        read <= buf@.len(),
    ensures
        text@ == lossy_utf8(buf@.take(read as int)),
        valid_utf8(buf@.take(read as int)) ==> text@ == decode_utf8(buf@.take(read as int)),
{
    let n: usize = read as usize;
    let prefix = vstd::slice::slice_subrange(buf, 0, n);
    assert(prefix@ =~= buf@.take(read as int));
    decode_lossy(prefix)
}

} // verus!
