//! Account validators and idempotent initializers.
//!
//! Validation is structural and address-based, never trust-based: nothing is
//! accepted because a caller merely labels it correctly.  Each validator is a
//! pure check of an account snapshot against an expected shape; each
//! initializer describes how the allocation primitives of the host ledger
//! turn a fresh account into that shape, funding it from a payer.

#![allow(unused_imports)]
use vstd::prelude::*;

use crate::account::{zero_data, Account, AccountState};
use crate::derive::{ata_seed_path, ata_seeds, derived, find_pda};
use crate::keys::key_eq;
use crate::state::ESCROW_LEN;
use crate::util::vec_zeroes;
use crate::ErrorKind;
use crate::ProgramConfig;
use crate::Pubkey;

verus! {

/// The fixed byte length of a mint record of the fungible-token sub-program.
pub const MINT_LEN: usize = 82;

/// The fixed byte length of a token-account record of the fungible-token
/// sub-program.
pub const TOKEN_ACCOUNT_LEN: usize = 165;

/// The shape check for an account that must co-sign.
pub struct SignerAccount;

impl SignerAccount {
    /// What the signer check decides.
    pub open spec fn check_spec(account: AccountState) -> Result<(), ErrorKind> {
        if !account.is_signer {
            Err(ErrorKind::MissingSignature)
        } else {
            Ok(())
        }
    }

    /// Passes exactly the accounts that carry a live authorization for the
    /// current transaction.
    pub fn check(account: &Account) -> (r: Result<(), ErrorKind>)
        ensures
            r == Self::check_spec(account@),
    {
        if !account.is_signer {
            return Err(ErrorKind::MissingSignature);
        }
        Ok(())
    }
}

/// The shape check and initializer for a mint record.
pub struct MintAccount;

impl MintAccount {
    /// What the mint check decides: owned by the fungible-token sub-program,
    /// sized exactly as a mint record.
    pub open spec fn check_spec(account: AccountState, cfg: ProgramConfig) -> Result<
        (),
        ErrorKind,
    > {
        if account.owner != cfg.token_program_id@ {
            Err(ErrorKind::WrongOwner)
        } else if account.data.len() != MINT_LEN {
            Err(ErrorKind::BadLayout)
        } else {
            Ok(())
        }
    }

    /// Passes exactly the accounts shaped as mint records.
    pub fn check(account: &Account, cfg: &ProgramConfig) -> (r: Result<(), ErrorKind>)
        ensures
            r == Self::check_spec(account@, *cfg),
    {
        if !key_eq(&account.owner, &cfg.token_program_id) {
            return Err(ErrorKind::WrongOwner);
        }
        if account.data.len() != MINT_LEN {
            return Err(ErrorKind::BadLayout);
        }
        Ok(())
    }

    /// What initializing a mint does to (account, payer): allocate a fresh
    /// mint-sized record owned by the fungible-token sub-program, funded with
    /// `rent` out of the payer.
    pub open spec fn init_spec(
        account: AccountState,
        payer: AccountState,
        cfg: ProgramConfig,
        rent: int,
    ) -> Result<(AccountState, AccountState), ErrorKind> {
        create_account_spec(
            account,
            payer,
            cfg.token_program_id@,
            MINT_LEN as nat,
            rent,
            cfg.system_program_id@,
        )
    }

    /// Allocates and formats `account` as a mint record with the given
    /// decimals and authorities, funding it from `payer` with `rent`, the
    /// ledger's minimum funding for the mint record length.  The interior
    /// formatting (decimals, authorities) is the fungible-token sub-program's
    /// concern; this core tracks the shape the validators read.
    pub fn init(
        account: &mut Account,
        payer: &mut Account,
        decimals: u8,
        mint_authority: &Pubkey,
        freeze_authority: Option<&Pubkey>,
        cfg: &ProgramConfig,
        rent: u64,
    ) -> (r: Result<(), ErrorKind>)
        ensures
            (match Self::init_spec(old(account)@, old(payer)@, *cfg, rent as int) {
                Ok(s) => r is Ok && final(account)@ == s.0 && final(payer)@ == s.1,
                Err(e) => r == Err::<(), ErrorKind>(e) && final(account)@ == old(account)@
                    && final(payer)@ == old(payer)@,
            }),
    {
        create_account(account, payer, &cfg.token_program_id, MINT_LEN, cfg, rent)
    }

    /// What create-or-use does: an account that already passes the mint check
    /// is left alone; any other is initialized.
    pub open spec fn init_if_needed_spec(
        account: AccountState,
        payer: AccountState,
        cfg: ProgramConfig,
        rent: int,
    ) -> Result<(AccountState, AccountState), ErrorKind> {
        if Self::check_spec(account, cfg) is Ok {
            Ok((account, payer))
        } else {
            Self::init_spec(account, payer, cfg, rent)
        }
    }

    /// Create-or-use: runs the mint check and initializes only on failure.
    /// Safe on first and repeat invocations alike; an already-valid account
    /// is never funded twice.
    pub fn init_if_needed(
        account: &mut Account,
        payer: &mut Account,
        decimals: u8,
        mint_authority: &Pubkey,
        freeze_authority: Option<&Pubkey>,
        cfg: &ProgramConfig,
        rent: u64,
    ) -> (r: Result<(), ErrorKind>)
        ensures
            (match Self::init_if_needed_spec(old(account)@, old(payer)@, *cfg, rent as int) {
                Ok(s) => r is Ok && final(account)@ == s.0 && final(payer)@ == s.1,
                Err(e) => r == Err::<(), ErrorKind>(e) && final(account)@ == old(account)@
                    && final(payer)@ == old(payer)@,
            }),
    {
        match Self::check(account, cfg) {
            Ok(_) => Ok(()),
            Err(_) => Self::init(account, payer, decimals, mint_authority, freeze_authority, cfg, rent),
        }
    }
}

/// The shape check and initializer for a token-account record.
pub struct TokenAccount;

impl TokenAccount {
    /// What the token-account check decides: owned by the fungible-token
    /// sub-program, sized exactly as a token-account record.
    pub open spec fn check_spec(account: AccountState, cfg: ProgramConfig) -> Result<
        (),
        ErrorKind,
    > {
        if account.owner != cfg.token_program_id@ {
            Err(ErrorKind::WrongOwner)
        } else if account.data.len() != TOKEN_ACCOUNT_LEN {
            Err(ErrorKind::BadLayout)
        } else {
            Ok(())
        }
    }

    /// Passes exactly the accounts shaped as token-account records.
    pub fn check(account: &Account, cfg: &ProgramConfig) -> (r: Result<(), ErrorKind>)
        ensures
            r == Self::check_spec(account@, *cfg),
    {
        if !key_eq(&account.owner, &cfg.token_program_id) {
            return Err(ErrorKind::WrongOwner);
        }
        if account.data.len() != TOKEN_ACCOUNT_LEN {
            return Err(ErrorKind::BadLayout);
        }
        Ok(())
    }

    /// What initializing a token account does to (account, payer): allocate a
    /// fresh token-account-sized record owned by the fungible-token
    /// sub-program, funded with `rent` out of the payer.
    pub open spec fn init_spec(
        account: AccountState,
        payer: AccountState,
        cfg: ProgramConfig,
        rent: int,
    ) -> Result<(AccountState, AccountState), ErrorKind> {
        create_account_spec(
            account,
            payer,
            cfg.token_program_id@,
            TOKEN_ACCOUNT_LEN as nat,
            rent,
            cfg.system_program_id@,
        )
    }

    /// Allocates and formats `account` as a token-account record bound to
    /// `mint` and `owner`, funding it from `payer` with `rent`, the ledger's
    /// minimum funding for the token-account record length.  The binding to
    /// mint and owner lives inside the record and is the fungible-token
    /// sub-program's concern; this core tracks the shape the validators read.
    pub fn init(
        account: &mut Account,
        mint: &Account,
        payer: &mut Account,
        owner: &Pubkey,
        cfg: &ProgramConfig,
        rent: u64,
    ) -> (r: Result<(), ErrorKind>)
        ensures
            (match Self::init_spec(old(account)@, old(payer)@, *cfg, rent as int) {
                Ok(s) => r is Ok && final(account)@ == s.0 && final(payer)@ == s.1,
                Err(e) => r == Err::<(), ErrorKind>(e) && final(account)@ == old(account)@
                    && final(payer)@ == old(payer)@,
            }),
    {
        create_account(account, payer, &cfg.token_program_id, TOKEN_ACCOUNT_LEN, cfg, rent)
    }

    /// What create-or-use does: an account that already passes the
    /// token-account check is left alone; any other is initialized.
    pub open spec fn init_if_needed_spec(
        account: AccountState,
        payer: AccountState,
        cfg: ProgramConfig,
        rent: int,
    ) -> Result<(AccountState, AccountState), ErrorKind> {
        if Self::check_spec(account, cfg) is Ok {
            Ok((account, payer))
        } else {
            Self::init_spec(account, payer, cfg, rent)
        }
    }

    /// Create-or-use: runs the token-account check and initializes only on
    /// failure.
    pub fn init_if_needed(
        account: &mut Account,
        mint: &Account,
        payer: &mut Account,
        owner: &Pubkey,
        cfg: &ProgramConfig,
        rent: u64,
    ) -> (r: Result<(), ErrorKind>)
        ensures
            (match Self::init_if_needed_spec(old(account)@, old(payer)@, *cfg, rent as int) {
                Ok(s) => r is Ok && final(account)@ == s.0 && final(payer)@ == s.1,
                Err(e) => r == Err::<(), ErrorKind>(e) && final(account)@ == old(account)@
                    && final(payer)@ == old(payer)@,
            }),
    {
        match Self::check(account, cfg) {
            Ok(_) => Ok(()),
            Err(_) => Self::init(account, mint, payer, owner, cfg, rent),
        }
    }
}

/// What the ledger's allocation primitive does: a fresh `target` — still
/// owned by the native sub-program, empty and unfunded — is funded with
/// `lamports` moved out of `payer`, sized to `space` zeroed bytes, and handed
/// to `new_owner`.  A used target surfaces as `WrongOwner`; a payer short of
/// the funding as `InsufficientFunds`.  On failure nothing moves.
pub open spec fn create_account_spec(
    target: AccountState,
    payer: AccountState,
    new_owner: Seq<u8>,
    space: nat,
    lamports: int,
    system_id: Seq<u8>,
) -> Result<(AccountState, AccountState), ErrorKind> {
    if !(target.owner == system_id && target.data.len() == 0 && target.lamports == 0) {
        Err(ErrorKind::WrongOwner)
    } else if payer.lamports < lamports {
        Err(ErrorKind::InsufficientFunds)
    } else {
        Ok(
            (
                AccountState { owner: new_owner, lamports: lamports, data: zero_data(space), ..target },
                AccountState { lamports: payer.lamports - lamports, ..payer },
            ),
        )
    }
}

/// The allocation primitive on account snapshots, mirroring
/// [`create_account_spec`] step for step.
fn create_account(
    target: &mut Account,
    payer: &mut Account,
    new_owner: &Pubkey,
    space: usize,
    cfg: &ProgramConfig,
    lamports: u64,
) -> (r: Result<(), ErrorKind>)
    ensures
        (match create_account_spec(
            old(target)@,
            old(payer)@,
            new_owner@,
            space as nat,
            lamports as int,
            cfg.system_program_id@,
        ) {
            Ok(s) => r is Ok && final(target)@ == s.0 && final(payer)@ == s.1,
            Err(e) => r == Err::<(), ErrorKind>(e) && final(target)@ == old(target)@
                && final(payer)@ == old(payer)@,
        }),
{
    if !(key_eq(&target.owner, &cfg.system_program_id) && target.data.len() == 0
        && target.lamports == 0) {
        return Err(ErrorKind::WrongOwner);
    }
    if payer.lamports < lamports {
        return Err(ErrorKind::InsufficientFunds);
    }
    payer.lamports = payer.lamports - lamports;
    target.lamports = lamports;
    target.owner = *new_owner;
    target.data = vec_zeroes(space);
    Ok(())
}

/// The shape check and initializer for the canonical token account of an
/// (authority, mint) pair.
pub struct AssociatedTokenAccount;

impl AssociatedTokenAccount {
    /// What the associated-token-account check decides: the token-account
    /// shape, and then the address itself, which must equal the re-derived
    /// canonical one.  This is the anti-substitution guard: a caller cannot
    /// pass an arbitrary token account off as "the" canonical one.
    pub open spec fn check_spec(
        account: AccountState,
        cfg: ProgramConfig,
        expected: Seq<u8>,
    ) -> Result<(), ErrorKind> {
        match TokenAccount::check_spec(account, cfg) {
            Err(e) => Err(e),
            Ok(u) => {
                if account.key != expected {
                    Err(ErrorKind::AddressMismatch)
                } else {
                    Ok(())
                }
            },
        }
    }

    /// The associated-token-account check against a canonical address the
    /// caller already derived.
    pub fn check_against(account: &Account, expected: &Pubkey, cfg: &ProgramConfig) -> (r: Result<
        (),
        ErrorKind,
    >)
        ensures
            r == Self::check_spec(account@, *cfg, expected@),
    {
        match TokenAccount::check(account, cfg) {
            Err(e) => Err(e),
            Ok(_) => {
                if !key_eq(&account.key, expected) {
                    Err(ErrorKind::AddressMismatch)
                } else {
                    Ok(())
                }
            },
        }
    }

    /// The associated-token-account check: re-derives the canonical address
    /// from (authority, token program, mint) and compares.  A failed
    /// derivation search leaves no canonical address to match.
    pub fn check(
        account: &Account,
        mint: &Account,
        authority: &Account,
        token_program: &Account,
        cfg: &ProgramConfig,
    ) -> (r: Result<(), ErrorKind>)
        ensures
            (match derived(
                ata_seed_path(authority@.key, token_program@.key, mint@.key),
                cfg.ata_program_id@,
            ) {
                Some(p) => r == Self::check_spec(account@, *cfg, p.0),
                None => r == Err::<(), ErrorKind>(ErrorKind::AddressMismatch),
            }),
    {
        let seeds = ata_seeds(&authority.key, &token_program.key, &mint.key);
        match find_pda(&seeds, &cfg.ata_program_id) {
            Some(p) => Self::check_against(account, &p.0, cfg),
            None => Err(ErrorKind::AddressMismatch),
        }
    }

    /// What initializing the canonical token account does: the target must
    /// sit at the canonical address, and is then allocated as a fresh
    /// token-account record funded with `rent` out of the payer.
    pub open spec fn init_spec(
        account: AccountState,
        payer: AccountState,
        cfg: ProgramConfig,
        rent: int,
        expected: Seq<u8>,
    ) -> Result<(AccountState, AccountState), ErrorKind> {
        if account.key != expected {
            Err(ErrorKind::AddressMismatch)
        } else {
            create_account_spec(
                account,
                payer,
                cfg.token_program_id@,
                TOKEN_ACCOUNT_LEN as nat,
                rent,
                cfg.system_program_id@,
            )
        }
    }

    /// Canonical creation at an address the caller already derived.
    pub fn init_at(
        account: &mut Account,
        payer: &mut Account,
        expected: &Pubkey,
        cfg: &ProgramConfig,
        rent: u64,
    ) -> (r: Result<(), ErrorKind>)
        ensures
            (match Self::init_spec(old(account)@, old(payer)@, *cfg, rent as int, expected@) {
                Ok(s) => r is Ok && final(account)@ == s.0 && final(payer)@ == s.1,
                Err(e) => r == Err::<(), ErrorKind>(e) && final(account)@ == old(account)@
                    && final(payer)@ == old(payer)@,
            }),
    {
        if !key_eq(&account.key, expected) {
            return Err(ErrorKind::AddressMismatch);
        }
        create_account(account, payer, &cfg.token_program_id, TOKEN_ACCOUNT_LEN, cfg, rent)
    }

    /// Delegates creation to the sub-program that manages canonical token
    /// accounts: it re-derives the address for (authority, mint) itself.
    /// The record's binding to mint and authority lives inside the record
    /// and is that sub-program's concern.
    pub fn init(
        payer: &mut Account,
        account: &mut Account,
        mint: &Account,
        authority: &Pubkey,
        cfg: &ProgramConfig,
        rent: u64,
    ) -> (r: Result<(), ErrorKind>)
        ensures
            (match derived(
                ata_seed_path(authority@, cfg.token_program_id@, mint@.key),
                cfg.ata_program_id@,
            ) {
                Some(p) => (match Self::init_spec(
                    old(account)@,
                    old(payer)@,
                    *cfg,
                    rent as int,
                    p.0,
                ) {
                    Ok(s) => r is Ok && final(account)@ == s.0 && final(payer)@ == s.1,
                    Err(e) => r == Err::<(), ErrorKind>(e) && final(account)@ == old(account)@
                        && final(payer)@ == old(payer)@,
                }),
                None => r == Err::<(), ErrorKind>(ErrorKind::AddressMismatch) && final(account)@
                    == old(account)@ && final(payer)@ == old(payer)@,
            }),
    {
        let seeds = ata_seeds(authority, &cfg.token_program_id, &mint.key);
        match find_pda(&seeds, &cfg.ata_program_id) {
            Some(p) => Self::init_at(account, payer, &p.0, cfg, rent),
            None => Err(ErrorKind::AddressMismatch),
        }
    }

    /// What create-or-use does: an account that already passes the
    /// associated-token-account check is left alone; any other is created at
    /// the canonical address.
    pub open spec fn init_if_needed_spec(
        account: AccountState,
        payer: AccountState,
        cfg: ProgramConfig,
        rent: int,
        expected: Seq<u8>,
    ) -> Result<(AccountState, AccountState), ErrorKind> {
        if Self::check_spec(account, cfg, expected) is Ok {
            Ok((account, payer))
        } else {
            Self::init_spec(account, payer, cfg, rent, expected)
        }
    }

    /// Create-or-use: runs the associated-token-account check and creates
    /// only on failure.  Only the first actor to win the allocation race
    /// creates; all later ones observe the valid account and pass.
    pub fn init_if_needed(
        payer: &mut Account,
        account: &mut Account,
        mint: &Account,
        authority: &Pubkey,
        cfg: &ProgramConfig,
        rent: u64,
    ) -> (r: Result<(), ErrorKind>)
        ensures
            (match derived(
                ata_seed_path(authority@, cfg.token_program_id@, mint@.key),
                cfg.ata_program_id@,
            ) {
                Some(p) => (match Self::init_if_needed_spec(
                    old(account)@,
                    old(payer)@,
                    *cfg,
                    rent as int,
                    p.0,
                ) {
                    Ok(s) => r is Ok && final(account)@ == s.0 && final(payer)@ == s.1,
                    Err(e) => r == Err::<(), ErrorKind>(e) && final(account)@ == old(account)@
                        && final(payer)@ == old(payer)@,
                }),
                None => r == Err::<(), ErrorKind>(ErrorKind::AddressMismatch) && final(account)@
                    == old(account)@ && final(payer)@ == old(payer)@,
            }),
    {
        let seeds = ata_seeds(authority, &cfg.token_program_id, &mint.key);
        match find_pda(&seeds, &cfg.ata_program_id) {
            Some(p) => {
                match Self::check_against(account, &p.0, cfg) {
                    Ok(_) => Ok(()),
                    Err(_) => Self::init_at(account, payer, &p.0, cfg, rent),
                }
            },
            None => Err(ErrorKind::AddressMismatch),
        }
    }
}

/// The shape check, initializer and teardown for a record account owned by
/// this program.
pub struct ProgramAccount;

impl ProgramAccount {
    /// What the program-record check decides: owned by this program, sized
    /// exactly as an escrow record.
    pub open spec fn check_spec(account: AccountState, cfg: ProgramConfig) -> Result<
        (),
        ErrorKind,
    > {
        if account.owner != cfg.program_id@ {
            Err(ErrorKind::WrongOwner)
        } else if account.data.len() != ESCROW_LEN {
            Err(ErrorKind::BadLayout)
        } else {
            Ok(())
        }
    }

    /// Passes exactly the accounts shaped as live escrow records of this
    /// program.
    pub fn check(account: &Account, cfg: &ProgramConfig) -> (r: Result<(), ErrorKind>)
        ensures
            r == Self::check_spec(account@, *cfg),
    {
        if !key_eq(&account.owner, &cfg.program_id) {
            return Err(ErrorKind::WrongOwner);
        }
        if account.data.len() != ESCROW_LEN {
            return Err(ErrorKind::BadLayout);
        }
        Ok(())
    }

    /// What initializing a program record does: the target must sit at the
    /// address the presented seed path derives to, and is then allocated
    /// with `space` bytes owned by this program, funded with `lamports` out
    /// of the payer.
    pub open spec fn init_spec(
        account: AccountState,
        payer: AccountState,
        cfg: ProgramConfig,
        space: nat,
        lamports: int,
        expected: Seq<u8>,
    ) -> Result<(AccountState, AccountState), ErrorKind> {
        if account.key != expected {
            Err(ErrorKind::AddressMismatch)
        } else {
            create_account_spec(
                account,
                payer,
                cfg.program_id@,
                space,
                lamports,
                cfg.system_program_id@,
            )
        }
    }

    /// Allocates `account` as a record of this program at a derived address.
    /// The caller proves the right to write to that specific address by
    /// presenting the address its seed path derives to; a claimed account
    /// anywhere else is refused.
    pub fn init(
        payer: &mut Account,
        account: &mut Account,
        expected: &Pubkey,
        space: usize,
        cfg: &ProgramConfig,
        rent: u64,
    ) -> (r: Result<(), ErrorKind>)
        ensures
            (match Self::init_spec(
                old(account)@,
                old(payer)@,
                *cfg,
                space as nat,
                rent as int,
                expected@,
            ) {
                Ok(s) => r is Ok && final(account)@ == s.0 && final(payer)@ == s.1,
                Err(e) => r == Err::<(), ErrorKind>(e) && final(account)@ == old(account)@
                    && final(payer)@ == old(payer)@,
            }),
    {
        if !key_eq(&account.key, expected) {
            return Err(ErrorKind::AddressMismatch);
        }
        create_account(account, payer, &cfg.program_id, space, cfg, rent)
    }

    /// What retiring a record does: the first data byte becomes the
    /// tombstone, every lamport moves to the destination, the data shrinks
    /// to that single byte, and the storage returns to the native
    /// sub-program.
    pub open spec fn close_spec(
        account: AccountState,
        destination: AccountState,
        cfg: ProgramConfig,
    ) -> (AccountState, AccountState) {
        (
            AccountState {
                owner: cfg.system_program_id@,
                lamports: 0,
                data: seq![crate::state::TOMBSTONE],
                ..account
            },
            AccountState { lamports: destination.lamports + account.lamports, ..destination },
        )
    }

    /// Retires a record account: tombstone, sweep, shrink, release.  A later
    /// instruction that re-reads the address finds a tombstoned record and
    /// must treat it as gone.
    pub fn close(account: &mut Account, destination: &mut Account, cfg: &ProgramConfig)
        requires
            old(account)@.data.len() >= 1,
            old(destination)@.lamports + old(account)@.lamports <= u64::MAX,
        ensures
            ({
                let s = Self::close_spec(old(account)@, old(destination)@, *cfg);
                final(account)@ == s.0 && final(destination)@ == s.1
            }),
            crate::state::tombstoned(final(account)@.data),
            Self::check_spec(final(account)@, *cfg) is Err,
    {
        let mut tomb: Vec<u8> = Vec::new();
        tomb.push(crate::state::TOMBSTONE);
        account.data = tomb;
        destination.lamports = destination.lamports + account.lamports;
        account.lamports = 0;
        account.owner = cfg.system_program_id;
        proof {
            assert(final(account)@.data =~= seq![crate::state::TOMBSTONE]);
        }
    }
}

/// The token balance a token-account record stores: an 8-byte little-endian
/// amount at byte offset 64 of the fungible-token sub-program's fixed
/// record layout.
pub open spec fn token_amount(data: Seq<u8>) -> u64
    recommends
        data.len() >= 72,
{
    vstd::bytes::spec_u64_from_le_bytes(data.subrange(64, 72))
}

/// A token-account record with its stored balance replaced by `v`.
pub open spec fn data_with_amount(data: Seq<u8>, v: u64) -> Seq<u8> {
    data.take(64) + vstd::bytes::spec_u64_to_le_bytes(v) + data.skip(72)
}

/// What the fungible-token sub-program's transfer does to two token-account
/// records: `amount` moves from the stored balance of `from` to the stored
/// balance of `to`, or nothing moves and the shortfall surfaces.
pub open spec fn token_transfer_spec(
    from: AccountState,
    to: AccountState,
    amount: u64,
) -> Result<(AccountState, AccountState), ErrorKind> {
    if token_amount(from.data) < amount {
        Err(ErrorKind::InsufficientFunds)
    } else {
        Ok(
            (
                AccountState {
                    data: data_with_amount(from.data, (token_amount(from.data) - amount) as u64),
                    ..from
                },
                AccountState {
                    data: data_with_amount(to.data, (token_amount(to.data) + amount) as u64),
                    ..to
                },
            ),
        )
    }
}

/// Reads the stored token balance of a token-account record.
pub fn read_token_amount(account: &Account) -> (r: u64)
    requires
        account@.data.len() >= 72,
    ensures
        r == token_amount(account@.data),
{
    vstd::bytes::u64_from_le_bytes(vstd::slice::slice_subrange(account.data.as_slice(), 64, 72))
}

/// Moves `amount` between the stored balances of two token-account records,
/// mirroring [`token_transfer_spec`] step for step.
pub fn token_transfer(from: &mut Account, to: &mut Account, amount: u64) -> (r: Result<
    (),
    ErrorKind,
>)
    requires
        old(from)@.data.len() == TOKEN_ACCOUNT_LEN,
        old(to)@.data.len() == TOKEN_ACCOUNT_LEN,
        token_amount(old(from)@.data) + token_amount(old(to)@.data) <= u64::MAX,
    ensures
        (match token_transfer_spec(old(from)@, old(to)@, amount) {
            Ok(s) => r is Ok && final(from)@ == s.0 && final(to)@ == s.1,
            Err(e) => r == Err::<(), ErrorKind>(e) && final(from)@ == old(from)@ && final(to)@
                == old(to)@,
        }),
{
    let from_amount = read_token_amount(from);
    if from_amount < amount {
        return Err(ErrorKind::InsufficientFunds);
    }
    let to_amount = read_token_amount(to);
    crate::util::write_u64_le_at(&mut from.data, 64, from_amount - amount);
    crate::util::write_u64_le_at(&mut to.data, 64, to_amount + amount);
    Ok(())
}

/// A freshly allocated token-account record stores a zero balance.
pub proof fn lemma_fresh_token_amount_zero()
    ensures
        token_amount(zero_data(TOKEN_ACCOUNT_LEN as nat)) == 0,
{
    assert(0u64 & 0xff == 0 && (0u64 >> 8) & 0xff == 0 && (0u64 >> 16) & 0xff == 0 && (0u64 >> 24)
        & 0xff == 0 && (0u64 >> 32) & 0xff == 0 && (0u64 >> 40) & 0xff == 0 && (0u64 >> 48) & 0xff
        == 0 && (0u64 >> 56) & 0xff == 0) by (bit_vector);
    vstd::bytes::spec_u64_to_le_bytes_to_open(0);
    assert(vstd::bytes::spec_u64_to_le_bytes(0u64) =~= zero_data(8));
    vstd::bytes::lemma_auto_spec_u64_to_from_le_bytes();
    assert(zero_data(TOKEN_ACCOUNT_LEN as nat).subrange(64, 72) =~= zero_data(8));
}

/// Idempotent initialization of a mint: when create-or-use succeeds, the
/// account passes the mint check, and a later create-or-use — under any
/// payer and any funding — leaves both accounts untouched.
pub proof fn lemma_mint_init_if_needed_idempotent(
    account: AccountState,
    payer: AccountState,
    cfg: ProgramConfig,
    rent: int,
    payer2: AccountState,
    rent2: int,
)
    requires
        MintAccount::init_if_needed_spec(account, payer, cfg, rent) is Ok,
    ensures
        (MintAccount::init_if_needed_spec(account, payer, cfg, rent) matches Ok(s) ==> {
            &&& MintAccount::check_spec(s.0, cfg) is Ok
            &&& MintAccount::init_if_needed_spec(s.0, payer2, cfg, rent2) == Ok::<
                _,
                ErrorKind,
            >((s.0, payer2))
        }),
{
}

/// Idempotent initialization of a token account: when create-or-use
/// succeeds, the account passes the token-account check, and a later
/// create-or-use leaves both accounts untouched.
pub proof fn lemma_token_account_init_if_needed_idempotent(
    account: AccountState,
    payer: AccountState,
    cfg: ProgramConfig,
    rent: int,
    payer2: AccountState,
    rent2: int,
)
    requires
        TokenAccount::init_if_needed_spec(account, payer, cfg, rent) is Ok,
    ensures
        (TokenAccount::init_if_needed_spec(account, payer, cfg, rent) matches Ok(s) ==> {
            &&& TokenAccount::check_spec(s.0, cfg) is Ok
            &&& TokenAccount::init_if_needed_spec(s.0, payer2, cfg, rent2) == Ok::<
                _,
                ErrorKind,
            >((s.0, payer2))
        }),
{
}

/// Idempotent initialization of a canonical token account: when
/// create-or-use succeeds, the account passes the associated-token-account
/// check against the same canonical address, and a later create-or-use
/// leaves both accounts untouched.
pub proof fn lemma_ata_init_if_needed_idempotent(
    account: AccountState,
    payer: AccountState,
    cfg: ProgramConfig,
    rent: int,
    expected: Seq<u8>,
    payer2: AccountState,
    rent2: int,
)
    requires
        AssociatedTokenAccount::init_if_needed_spec(account, payer, cfg, rent, expected) is Ok,
    ensures
        (AssociatedTokenAccount::init_if_needed_spec(account, payer, cfg, rent, expected)
            matches Ok(s) ==> {
            &&& AssociatedTokenAccount::check_spec(s.0, cfg, expected) is Ok
            &&& AssociatedTokenAccount::init_if_needed_spec(s.0, payer2, cfg, rent2, expected)
                == Ok::<_, ErrorKind>((s.0, payer2))
        }),
{
}

/// Anti-substitution: a token account whose address is not exactly the
/// re-derived canonical one for its (authority, mint) pair fails the
/// associated-token-account check with `AddressMismatch`, even when it is
/// otherwise a perfectly valid token account.
pub proof fn lemma_ata_anti_substitution(
    account: AccountState,
    cfg: ProgramConfig,
    expected: Seq<u8>,
)
    requires
        TokenAccount::check_spec(account, cfg) is Ok,
        account.key != expected,
    ensures
        AssociatedTokenAccount::check_spec(account, cfg, expected) == Err::<(), ErrorKind>(
            ErrorKind::AddressMismatch,
        ),
{
}

} // verus!
