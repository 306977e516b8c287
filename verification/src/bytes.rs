//! Copying bytes into fixed-size buffers.

use vstd::prelude::*;

verus! {

/// The first `N` bytes of `src`, as an array.
pub(crate) fn prefix_array<const N: usize>(src: &[u8]) -> (out: [u8; N])
    requires
        N <= src@.len(),
    ensures
        out@ == src@.subrange(0, N as int),
{
    let mut out: [u8; N] = [0u8; N];
    let mut i: usize = 0;
    while i < N
        invariant
            i <= N <= src@.len(),
            forall|k: int| 0 <= k < i ==> out@[k] == src@[k],
        decreases N - i,
    {
        out[i] = src[i];
        i += 1;
    }
    assert(out@ =~= src@.subrange(0, N as int));
    out
}

/// Whether two arrays hold the same bytes.
pub(crate) fn same_bytes<const N: usize>(a: &[u8; N], b: &[u8; N]) -> (same: bool)
    ensures
        same == (a@ == b@),
{
    let mut i: usize = 0;
    while i < N
        invariant
            i <= N,
            forall|k: int| 0 <= k < i ==> a@[k] == b@[k],
        decreases N - i,
    {
        if a[i] != b[i] {
            return false;
        }
        i += 1;
    }
    assert(a@ =~= b@);
    true
}

} // verus!
