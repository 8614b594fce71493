//! Small verified routines on byte slices that the streams share.

use vstd::prelude::*;

verus! {

/// Appends `bytes` to `log`.
pub(crate) fn append(log: &mut Vec<u8>, bytes: &[u8])
    ensures
        final(log)@ == old(log)@ + bytes@,
{
    log.extend_from_slice(bytes);
    assert(log@ =~= old(log)@ + bytes@);
}

/// Overwrites the front of `dst` with `src` and leaves the rest as it was.
pub(crate) fn copy_to_front(dst: &mut [u8], src: &[u8])
    requires
        src@.len() <= old(dst)@.len(),
    ensures
        final(dst)@ == src@ + old(dst)@.skip(src@.len() as int),
{
    let len: usize = src.len();
    let mut i: usize = 0;
    while i < len
        invariant
            i <= len,
            len == src@.len(),
            len <= dst@.len(),
            dst@.len() == old(dst)@.len(),
            dst@ == src@.take(i as int) + old(dst)@.skip(i as int),
        decreases len - i,
    {
        dst[i] = src[i];
        i = i + 1;
    }
    assert(src@.take(len as int) == src@);
}

/// Whether `bytes` begins with `prefix`.
pub(crate) fn starts_with(bytes: &[u8], prefix: &[u8]) -> (r: bool)
    ensures
        r == prefix@.is_prefix_of(bytes@),
{
    if prefix.len() > bytes.len() {
        return false;
    }
    let len: usize = prefix.len();
    let mut i: usize = 0;
    while i < len
        invariant
            i <= len,
            len == prefix@.len(),
            len <= bytes@.len(),
            forall|j: int| 0 <= j < i ==> prefix@[j] == bytes@[j],
        decreases len - i,
    {
        if prefix[i] != bytes[i] {
            assert(prefix@[i as int] != bytes@.subrange(0, len as int)[i as int]);
            return false;
        }
        i = i + 1;
    }
    assert(prefix@ =~= bytes@.subrange(0, len as int));
    true
}

} // verus!
