//! Zeroization of secret material.
//!
//! Destruction of any key entry — replacement during rotation, explicit
//! disposal, store teardown — must overwrite every secret byte with zero
//! before the memory is released. This module carries that obligation as a
//! proved contract rather than a best-effort convention.

use vstd::prelude::*;

verus! {

/// True when every byte of `s` is zero.
pub open spec fn all_zero(s: Seq<u8>) -> bool {
    forall|i: int| 0 <= i < s.len() ==> s[i] == 0u8
}

/// Overwrite every byte of `buf` with zero, keeping its length.
pub fn wipe_bytes(buf: &mut Vec<u8>)
    ensures
        final(buf)@.len() == old(buf)@.len(),
        all_zero(final(buf)@),
{
    let n = buf.len();
    let mut i: usize = 0;
    while i < n
        invariant
            n == buf@.len(),
            i <= n,
            forall|j: int| 0 <= j < i ==> buf@[j] == 0u8,
        decreases n - i,
    {
        buf.set(i, 0u8);
        i = i + 1;
    }
}

} // verus!
