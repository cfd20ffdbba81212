//! The escrow record and its fixed-layout binary codec.
//!
//! The record persists a pending swap offer in a program-owned account.  It is
//! packed at fixed offsets — maker (32), mint of the deposited asset (32),
//! mint of the wanted asset (32), demanded amount (8, little endian), maker
//! nonce (8, little endian), derivation bump (1) — and parsed back by slicing,
//! with no reinterpretation of raw memory.

#![allow(unused_imports)]
use vstd::prelude::*;

use crate::util::{push_bytes, read_key};
use crate::ErrorKind;
use crate::Pubkey;

verus! {

/// The byte length of a live escrow record.
pub const ESCROW_LEN: usize = 113;

/// The sentinel written to a closed record's first byte.
pub const TOMBSTONE: u8 = 0xff;

/// A pending swap offer: `maker` deposited an asset of `token_a_mint` and
/// demands `receive` units of `token_b_mint` in return.  `seed` is the
/// maker-chosen nonce of the derivation path and `bump` the disambiguator
/// found during the address search.
#[derive(Debug)]
pub struct Escrow {
    pub maker: Pubkey,
    pub token_a_mint: Pubkey,
    pub token_b_mint: Pubkey,
    pub receive: u64,
    pub seed: u64,
    pub bump: u8,
}

/// The packed layout, from loose fields.
pub open spec fn record_bytes_parts(
    maker: Seq<u8>,
    token_a_mint: Seq<u8>,
    token_b_mint: Seq<u8>,
    receive: u64,
    seed: u64,
    bump: u8,
) -> Seq<u8> {
    maker + token_a_mint + token_b_mint + vstd::bytes::spec_u64_to_le_bytes(receive)
        + vstd::bytes::spec_u64_to_le_bytes(seed) + seq![bump]
}

/// Whether a record's storage has been retired: its first byte carries the
/// tombstone marker.  Any path that re-reads a closed account must treat a
/// tombstoned record as invalid.
pub open spec fn tombstoned(data: Seq<u8>) -> bool {
    data.len() >= 1 && data[0] == TOMBSTONE
}

impl Escrow {
    /// The packed layout of this record.
    pub open spec fn record_bytes(&self) -> Seq<u8> {
        record_bytes_parts(
            self.maker@,
            self.token_a_mint@,
            self.token_b_mint@,
            self.receive,
            self.seed,
            self.bump,
        )
    }

    /// Packs the record into a fresh buffer.
    pub fn encode(&self) -> (r: Vec<u8>)
        ensures
            r@ == self.record_bytes(),
            r@.len() == ESCROW_LEN,
    {
        let mut v: Vec<u8> = Vec::new();
        push_bytes(&mut v, self.maker.as_slice());
        push_bytes(&mut v, self.token_a_mint.as_slice());
        push_bytes(&mut v, self.token_b_mint.as_slice());
        let receive = vstd::bytes::u64_to_le_bytes(self.receive);
        push_bytes(&mut v, receive.as_slice());
        let seed = vstd::bytes::u64_to_le_bytes(self.seed);
        push_bytes(&mut v, seed.as_slice());
        v.push(self.bump);
        proof {
            vstd::bytes::lemma_auto_spec_u64_to_from_le_bytes();
            assert(v@ =~= self.record_bytes());
        }
        v
    }

    /// Parses a record from a buffer.  Exactly the buffers of the record
    /// length parse; the parsed record packs back to the very same bytes.
    pub fn load(bytes: &[u8]) -> (r: Result<Escrow, ErrorKind>)
        ensures
            (r is Ok <==> bytes@.len() == ESCROW_LEN),
            (r matches Err(e) ==> e == ErrorKind::BadLayout),
            (r matches Ok(e) ==> {
                &&& e.record_bytes() == bytes@
                &&& e.maker@ == bytes@.subrange(0, 32)
                &&& e.token_a_mint@ == bytes@.subrange(32, 64)
                &&& e.token_b_mint@ == bytes@.subrange(64, 96)
                &&& e.receive == vstd::bytes::spec_u64_from_le_bytes(bytes@.subrange(96, 104))
                &&& e.seed == vstd::bytes::spec_u64_from_le_bytes(bytes@.subrange(104, 112))
                &&& e.bump == bytes@[112]
            }),
    {
        if bytes.len() != ESCROW_LEN {
            return Err(ErrorKind::BadLayout);
        }
        let maker = read_key(bytes, 0);
        let token_a_mint = read_key(bytes, 32);
        let token_b_mint = read_key(bytes, 64);
        let receive = vstd::bytes::u64_from_le_bytes(vstd::slice::slice_subrange(bytes, 96, 104));
        let seed = vstd::bytes::u64_from_le_bytes(vstd::slice::slice_subrange(bytes, 104, 112));
        let bump = bytes[112];
        let e = Escrow { maker, token_a_mint, token_b_mint, receive, seed, bump };
        proof {
            vstd::bytes::lemma_auto_spec_u64_to_from_le_bytes();
            assert(e.record_bytes() =~= bytes@);
        }
        Ok(e)
    }

    /// Overwrites the record's maker.
    pub fn set_maker(&mut self, maker: Pubkey)
        ensures
            *final(self) == (Escrow { maker, ..*old(self) }),
    {
        self.maker = maker;
    }

    /// Overwrites the mint of the deposited asset.
    pub fn set_token_a_mint(&mut self, token_a_mint: Pubkey)
        ensures
            *final(self) == (Escrow { token_a_mint, ..*old(self) }),
    {
        self.token_a_mint = token_a_mint;
    }

    /// Overwrites the mint of the wanted asset.
    pub fn set_token_b_mint(&mut self, token_b_mint: Pubkey)
        ensures
            *final(self) == (Escrow { token_b_mint, ..*old(self) }),
    {
        self.token_b_mint = token_b_mint;
    }

    /// Overwrites the maker nonce.
    pub fn set_seed(&mut self, seed: u64)
        ensures
            *final(self) == (Escrow { seed, ..*old(self) }),
    {
        self.seed = seed;
    }

    /// Overwrites the demanded amount.
    pub fn set_receive(&mut self, receive: u64)
        ensures
            *final(self) == (Escrow { receive, ..*old(self) }),
    {
        self.receive = receive;
    }

    /// Overwrites the derivation bump.
    pub fn set_bump(&mut self, bump: u8)
        ensures
            *final(self) == (Escrow { bump, ..*old(self) }),
    {
        self.bump = bump;
    }

    /// Overwrites every field at once: the single commit point of `Make`.
    pub fn set_inner(
        &mut self,
        maker: Pubkey,
        token_a_mint: Pubkey,
        token_b_mint: Pubkey,
        seed: u64,
        receive: u64,
        bump: u8,
    )
        ensures
            *final(self) == (Escrow { maker, token_a_mint, token_b_mint, receive, seed, bump }),
    {
        self.maker = maker;
        self.token_a_mint = token_a_mint;
        self.token_b_mint = token_b_mint;
        self.receive = receive;
        self.seed = seed;
        self.bump = bump;
    }

    /// Packs the record into an existing buffer of the record length, in
    /// place; refuses any other buffer unchanged.
    pub fn store(&self, data: &mut Vec<u8>) -> (r: Result<(), ErrorKind>)
        ensures
            (r is Ok <==> old(data)@.len() == ESCROW_LEN),
            (r matches Err(e) ==> e == ErrorKind::BadLayout && final(data)@ == old(data)@),
            (r is Ok ==> final(data)@ == self.record_bytes()),
    {
        if data.len() != ESCROW_LEN {
            return Err(ErrorKind::BadLayout);
        }
        let encoded = self.encode();
        *data = encoded;
        Ok(())
    }
}

} // verus!
