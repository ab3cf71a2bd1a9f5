//! Read buffers: what a read has put into one.

use vstd::prelude::*;

verus! {

/// The bytes that a read has put into `buffer`, given the count that the read
/// returned: the first `count` of them, in their order. A count larger than
/// the buffer is no count of a read into it, and gives nothing.
pub fn filled(buffer: &[u8], count: usize) -> (bytes: Option<&[u8]>)
    ensures
        bytes is Some <==> count <= buffer@.len(),
        bytes matches Some(part) ==> part@ == buffer@.take(count as int),
{
    if count <= buffer.len() {
        Some(vstd::slice::slice_subrange(buffer, 0, count))
    } else {
        None
    }
}

} // verus!
