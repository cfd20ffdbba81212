//! An on-chain escrow/vault authorization engine.
//!
//! The crate decides whether a set of ledger accounts is well formed, safe to
//! operate on, and authorized for a requested action, and it describes how the
//! escrow and vault instructions transform those accounts.  Accounts are
//! modelled by [`account::Account`], a plain-value snapshot of an account
//! handle; every validator, initializer and instruction handler is verified
//! against a functional specification of its transition.  The host ledger's
//! own primitives (address derivation, rent schedule, cross-program calls) are
//! reached through a small number of trusted declarations or supplied by the
//! embedding runtime as plain values.

#![allow(unused_imports)]
use vstd::prelude::*;

pub mod account;
pub mod derive;
pub mod helpers;
pub mod keys;
pub mod make;
pub mod state;
pub mod util;
pub mod vault;

verus! {

/// The error kinds surfaced to callers.  The kind alone is the contract: no
/// formatting layer exists in this core.
#[derive(Clone, Copy, Debug, PartialEq, Eq, Structural)]
pub enum ErrorKind {
    /// A required authority did not co-sign the transaction.
    MissingSignature,
    /// An account's owning program does not match the expected sub-system.
    WrongOwner,
    /// An account's byte length does not match the expected fixed record size.
    BadLayout,
    /// A supplied account's address does not equal its re-derived canonical
    /// address.
    AddressMismatch,
    /// Payload length or a field value violates the operation's precondition.
    BadInstructionData,
    /// Fewer accounts were supplied than the operation's fixed arity requires.
    NotEnoughAccountKeys,
    /// A transfer would violate a balance or minimum-funding requirement.
    InsufficientFunds,
}

/// A 32-byte account address.
pub type Pubkey = [u8; 32];

/// The program identities this engine validates against.  They are injected
/// by the embedding runtime rather than compiled in, so the core can be
/// exercised against any identity without rebuilding.
#[derive(Clone, Copy)]
pub struct ProgramConfig {
    /// The identity of this program itself; it owns escrow records and is the
    /// derivation authority for escrow and vault addresses.
    pub program_id: Pubkey,
    /// The fungible-token sub-program.
    pub token_program_id: Pubkey,
    /// The sub-program that manages canonical associated token accounts.
    pub ata_program_id: Pubkey,
    /// The native value-transfer sub-program; fresh accounts belong to it.
    pub system_program_id: Pubkey,
}

} // verus!
