//! Byte-buffer helpers shared by the codec and the derivation paths.

#![allow(unused_imports)]
use vstd::prelude::*;

use crate::account::zero_data;
use crate::Pubkey;

verus! {

/// A fresh all-zero buffer of length `n`.
pub fn vec_zeroes(n: usize) -> (r: Vec<u8>)
    ensures
        r@ == zero_data(n as nat),
{
    let mut v: Vec<u8> = Vec::new();
    let mut i: usize = 0;
    while i < n
        invariant
            0 <= i <= n,
            v@ == zero_data(i as nat),
        decreases n - i,
    {
        v.push(0u8);
        proof {
            assert(v@ =~= zero_data((i + 1) as nat));
        }
        i += 1;
    }
    v
}

/// Appends `bytes` to `v`.
pub fn push_bytes(v: &mut Vec<u8>, bytes: &[u8])
    ensures
        final(v)@ == old(v)@ + bytes@,
{
    let mut i: usize = 0;
    while i < bytes.len()
        invariant
            0 <= i <= bytes@.len(),
            v@ == old(v)@ + bytes@.subrange(0, i as int),
        decreases bytes@.len() - i,
    {
        v.push(bytes[i]);
        proof {
            assert(v@ =~= old(v)@ + bytes@.subrange(0, i + 1));
        }
        i += 1;
    }
    proof {
        assert(v@ =~= old(v)@ + bytes@);
    }
}

/// Writes the little-endian bytes of `x` over `v` at `offset`.
pub fn write_u64_le_at(v: &mut Vec<u8>, offset: usize, x: u64)
    requires
        offset + 8 <= old(v)@.len(),
    ensures
        final(v)@ == old(v)@.take(offset as int) + vstd::bytes::spec_u64_to_le_bytes(x) + old(
            v,
        )@.skip(offset as int + 8),
{
    let bytes = vstd::bytes::u64_to_le_bytes(x);
    proof {
        vstd::bytes::lemma_auto_spec_u64_to_from_le_bytes();
    }
    let n: usize = v.len();
    let mut i: usize = 0;
    while i < 8
        invariant
            0 <= i <= 8,
            bytes@ == vstd::bytes::spec_u64_to_le_bytes(x),
            bytes@.len() == 8,
            offset + 8 <= n,
            n == old(v)@.len(),
            v@.len() == old(v)@.len(),
            forall|j: int|
                0 <= j < v@.len() ==> v@[j] == (if offset <= j < offset + i {
                    bytes@[j - offset]
                } else {
                    old(v)@[j]
                }),
        decreases 8 - i,
    {
        v.set(offset + i, bytes[i]);
        i += 1;
    }
    proof {
        assert(v@ =~= old(v)@.take(offset as int) + vstd::bytes::spec_u64_to_le_bytes(x) + old(
            v,
        )@.skip(offset as int + 8));
    }
}

/// Reads a 32-byte address starting at `offset`.
pub fn read_key(bytes: &[u8], offset: usize) -> (r: Pubkey)
    requires
        offset + 32 <= bytes@.len(),
    ensures
        r@ == bytes@.subrange(offset as int, offset as int + 32),
{
    let n: usize = bytes.len();
    let mut k: Pubkey = [0u8; 32];
    let mut i: usize = 0;
    while i < 32
        invariant
            0 <= i <= 32,
            offset + 32 <= n == bytes@.len(),
            k@.len() == 32,
            forall|j: int| 0 <= j < i ==> k@[j] == bytes@[offset + j],
        decreases 32 - i,
    {
        k[i] = bytes[offset + i];
        i += 1;
    }
    proof {
        assert(k@ =~= bytes@.subrange(offset as int, offset as int + 32));
    }
    k
}

} // verus!
