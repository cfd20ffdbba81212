//! Deterministic authority derivation.
//!
//! The ledger maps a path of byte-string seeds and a program id to an address
//! that corresponds to no ordinary signable key, together with a one-byte
//! disambiguator (the "bump") found during the search.  The search is a pure
//! function of (seeds, program id); the engine re-derives addresses from it
//! instead of trusting any address a caller merely labels correctly.

#![allow(unused_imports)]
use vstd::prelude::*;

use crate::Pubkey;

verus! {

/// The result of the ledger's deterministic address search on a seed path
/// and a program id: the derived address and its bump, or nothing in the
/// statistically improbable case that no bump yields a valid address.
pub uninterp spec fn derived(seeds: Seq<Seq<u8>>, program_id: Seq<u8>) -> Option<(Seq<u8>, u8)>;

/// Runs the ledger's deterministic address search.
///
/// Relies on `solana_address::Address::try_find_program_address` (the module
/// `pinocchio` re-exports as its `address` module): the search is a pure
/// function of the seed path and the program id, identical off-chain and
/// under the runtime's syscall, and it returns `None` rather than panicking
/// when no bump seed is viable or the seed path is malformed.
#[verifier::external_body]
pub fn find_pda(seeds: &Vec<Vec<u8>>, program_id: &Pubkey) -> (r: Option<(Pubkey, u8)>)
    ensures
        (r matches Some(p) ==> derived(seeds.deep_view(), program_id@) == Some((p.0@, p.1))),
        (r is None ==> derived(seeds.deep_view(), program_id@) is None),
{
    let refs: Vec<&[u8]> = seeds.iter().map(|s| s.as_slice()).collect();
    let id = solana_address::Address::new_from_array(*program_id);
    solana_address::Address::try_find_program_address(&refs, &id).map(|p| (p.0.to_bytes(), p.1))
}

/// Address re-derivation soundness: the search is a pure function of the
/// seed path and the program id — equal inputs always yield the same
/// (address, bump) outcome, however often it is re-run.
pub proof fn lemma_derivation_deterministic(
    seeds_a: Seq<Seq<u8>>,
    program_id_a: Seq<u8>,
    seeds_b: Seq<Seq<u8>>,
    program_id_b: Seq<u8>,
)
    requires
        seeds_a == seeds_b,
        program_id_a == program_id_b,
    ensures
        derived(seeds_a, program_id_a) == derived(seeds_b, program_id_b),
{
}

/// The fixed label that prefixes every escrow derivation path: `"escrow"` in
/// ASCII.
pub open spec fn escrow_label() -> Seq<u8> {
    seq![101u8, 115u8, 99u8, 114u8, 111u8, 119u8]
}

/// The fixed label that prefixes every vault derivation path: `"vault"` in
/// ASCII.
pub open spec fn vault_label() -> Seq<u8> {
    seq![118u8, 97u8, 117u8, 108u8, 116u8]
}

/// The escrow label as bytes.
pub fn escrow_label_bytes() -> (r: Vec<u8>)
    ensures
        r@ == escrow_label(),
{
    let mut v: Vec<u8> = Vec::new();
    v.push(101u8);
    v.push(115u8);
    v.push(99u8);
    v.push(114u8);
    v.push(111u8);
    v.push(119u8);
    proof {
        assert(v@ =~= escrow_label());
    }
    v
}

/// The vault label as bytes.
pub fn vault_label_bytes() -> (r: Vec<u8>)
    ensures
        r@ == vault_label(),
{
    let mut v: Vec<u8> = Vec::new();
    v.push(118u8);
    v.push(97u8);
    v.push(117u8);
    v.push(108u8);
    v.push(116u8);
    proof {
        assert(v@ =~= vault_label());
    }
    v
}

/// The derivation path of the escrow record for `maker` and nonce `seed`.
pub open spec fn escrow_seed_path(maker: Seq<u8>, seed: u64) -> Seq<Seq<u8>> {
    seq![escrow_label(), maker, vstd::bytes::spec_u64_to_le_bytes(seed)]
}

/// The derivation path of the vault of `owner`.
pub open spec fn vault_seed_path(owner: Seq<u8>) -> Seq<Seq<u8>> {
    seq![vault_label(), owner]
}

/// Builds the escrow derivation path.
pub fn escrow_seeds(maker: &Pubkey, seed: u64) -> (r: Vec<Vec<u8>>)
    ensures
        r.deep_view() == escrow_seed_path(maker@, seed),
{
    let mut r: Vec<Vec<u8>> = Vec::new();
    r.push(escrow_label_bytes());
    r.push(vstd::slice::slice_to_vec(maker.as_slice()));
    r.push(vstd::bytes::u64_to_le_bytes(seed));
    proof {
        assert(r.deep_view() =~~= escrow_seed_path(maker@, seed));
    }
    r
}

/// Builds the escrow derivation path extended with the found bump: the exact
/// seed set that authorizes the program's write to the derived address.
pub fn escrow_signer_seeds(maker: &Pubkey, seed: u64, bump: u8) -> (r: Vec<Vec<u8>>)
    ensures
        r.deep_view() == escrow_seed_path(maker@, seed) + seq![seq![bump]],
{
    let mut r = escrow_seeds(maker, seed);
    let mut tail: Vec<u8> = Vec::new();
    tail.push(bump);
    r.push(tail);
    proof {
        assert(r.deep_view() =~~= escrow_seed_path(maker@, seed) + seq![seq![bump]]);
    }
    r
}

/// Builds the vault derivation path.
pub fn vault_seeds(owner: &Pubkey) -> (r: Vec<Vec<u8>>)
    ensures
        r.deep_view() == vault_seed_path(owner@),
{
    let mut r: Vec<Vec<u8>> = Vec::new();
    r.push(vault_label_bytes());
    r.push(vstd::slice::slice_to_vec(owner.as_slice()));
    proof {
        assert(r.deep_view() =~~= vault_seed_path(owner@));
    }
    r
}

/// Builds the vault derivation path extended with the found bump: the exact
/// seed set that authorizes the program to move the vault's balance.
pub fn vault_signer_seeds(owner: &Pubkey, bump: u8) -> (r: Vec<Vec<u8>>)
    ensures
        r.deep_view() == vault_seed_path(owner@) + seq![seq![bump]],
{
    let mut r = vault_seeds(owner);
    let mut tail: Vec<u8> = Vec::new();
    tail.push(bump);
    r.push(tail);
    proof {
        assert(r.deep_view() =~~= vault_seed_path(owner@) + seq![seq![bump]]);
    }
    r
}

/// The derivation path of the canonical token account for an authority and a
/// mint under a token program: (authority, token program, mint).
pub open spec fn ata_seed_path(authority: Seq<u8>, token_program: Seq<u8>, mint: Seq<u8>) -> Seq<
    Seq<u8>,
> {
    seq![authority, token_program, mint]
}

/// Builds the associated-token-account derivation path.
pub fn ata_seeds(authority: &Pubkey, token_program: &Pubkey, mint: &Pubkey) -> (r: Vec<Vec<u8>>)
    ensures
        r.deep_view() == ata_seed_path(authority@, token_program@, mint@),
{
    let mut r: Vec<Vec<u8>> = Vec::new();
    r.push(vstd::slice::slice_to_vec(authority.as_slice()));
    r.push(vstd::slice::slice_to_vec(token_program.as_slice()));
    r.push(vstd::slice::slice_to_vec(mint.as_slice()));
    proof {
        assert(r.deep_view() =~~= ata_seed_path(authority@, token_program@, mint@));
    }
    r
}

} // verus!
