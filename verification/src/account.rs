//! The plain-value account model.
//!
//! The host ledger hands a program opaque account handles.  Everything this
//! engine ever reads from such a handle — address, owning program, lamport
//! balance, signer flag, data bytes — is captured here as a plain value, so
//! that validators and instruction handlers can be verified as functions of
//! these snapshots.

#![allow(unused_imports)]
use vstd::prelude::*;

use crate::Pubkey;

verus! {

/// The mathematical image of an account: what the contracts speak about.
pub struct AccountState {
    pub key: Seq<u8>,
    pub owner: Seq<u8>,
    pub lamports: int,
    pub is_signer: bool,
    pub data: Seq<u8>,
}

/// A snapshot of one ledger account, as seen by a single instruction.
///
/// `is_signer` records whether the account carried a live authorization for
/// the current transaction; `owner` is the program that may mutate it.
#[derive(Debug)]
pub struct Account {
    pub key: Pubkey,
    pub owner: Pubkey,
    pub lamports: u64,
    pub is_signer: bool,
    pub data: Vec<u8>,
}

impl View for Account {
    type V = AccountState;

    open spec fn view(&self) -> AccountState {
        AccountState {
            key: self.key@,
            owner: self.owner@,
            lamports: self.lamports as int,
            is_signer: self.is_signer,
            data: self.data@,
        }
    }
}

/// An all-zero byte run of length `n`: the contents of a freshly allocated
/// account.
pub open spec fn zero_data(n: nat) -> Seq<u8> {
    Seq::new(n, |i: int| 0u8)
}

/// The snapshots of a sequence of accounts.
pub open spec fn views_of(accounts: Seq<Account>) -> Seq<AccountState> {
    accounts.map(|i: int, a: Account| a@)
}

} // verus!
