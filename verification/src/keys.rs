//! Address comparison and display.

#![allow(unused_imports)]
use vstd::prelude::*;

use crate::Pubkey;

verus! {

/// Byte-for-byte equality of two addresses.
pub fn key_eq(a: &Pubkey, b: &Pubkey) -> (r: bool)
    ensures
        r == (a@ == b@),
{
    let mut i: usize = 0;
    while i < 32
        invariant
            0 <= i <= 32,
            forall|j: int| 0 <= j < i ==> a@[j] == b@[j],
        decreases 32 - i,
    {
        if a[i] != b[i] {
            return false;
        }
        i += 1;
    }
    proof {
        assert(a@ =~= b@);
    }
    true
}

/// The base58 rendering of `bytes`, as produced by the `bs58` crate.
pub uninterp spec fn base58_of(bytes: Seq<u8>) -> Seq<char>;

/// The canonical textual form of an address.
///
/// Relies on `bs58::encode` (the Bitcoin alphabet, no check digits): the
/// rendering is a pure function of the input bytes.
#[verifier::external_body]
pub fn key_to_base58(key: &Pubkey) -> (r: String)
    ensures
        r@ == base58_of(key@),
{
    bs58::encode(key).into_string()
}

} // verus!
