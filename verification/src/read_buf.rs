//! What the library relies on from `tokio::io::ReadBuf`, the destination of a
//! polled read.
//!
//! A `ReadBuf` wraps a byte buffer of fixed capacity and tracks how much of it
//! has been filled. The verifier cannot look inside it, so its filled bytes and
//! its capacity are named here and the two methods that the streams call are
//! given contracts over those names. These contracts are believed, not proved.

use tokio::io::ReadBuf;
use vstd::prelude::*;

verus! {

/// Makes `tokio::io::ReadBuf` known to the verifier as an opaque type.
#[verifier::external_type_specification]
#[verifier::external_body]
pub struct ExReadBuf<'a>(ReadBuf<'a>);

/// The filled region of the buffer: what `ReadBuf::filled` returns.
pub uninterp spec fn filled_bytes(buf: &ReadBuf<'_>) -> Seq<u8>;

/// The total capacity of the buffer: what `ReadBuf::capacity` returns, the
/// length of the slice that the buffer was made from.
pub uninterp spec fn capacity_of(buf: &ReadBuf<'_>) -> nat;

/// The number of bytes that can still be put into the buffer.
pub open spec fn room(buf: &ReadBuf<'_>) -> int {
    capacity_of(buf) - filled_bytes(buf).len()
}

/// Calls `ReadBuf::remaining`, which returns the capacity less the length of
/// the filled region. The filled region never exceeds the capacity.
#[verifier::external_body]
pub(crate) fn remaining(buf: &ReadBuf<'_>) -> (n: usize)
    ensures
        n == room(buf),
{
    buf.remaining()
}

/// Calls `ReadBuf::put_slice`, which appends `src` to the filled region and
/// leaves the capacity as it was. It panics when `src` is longer than what
/// remains, so such a call is ruled out.
#[verifier::external_body]
pub(crate) fn put_slice(buf: &mut ReadBuf<'_>, src: &[u8])
    requires
        src@.len() <= room(old(buf)),
    ensures
        filled_bytes(final(buf)) == filled_bytes(old(buf)) + src@,
        capacity_of(final(buf)) == capacity_of(old(buf)),
{
    buf.put_slice(src)
}

} // verus!
