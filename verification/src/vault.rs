//! The vault instructions: deposit and withdraw.
//!
//! A vault is a lamport-holding account with no stored data, at the address
//! derived from the fixed vault label and its owner's address.  Its balance
//! is increased only by its owner's deposit and drained only by its owner's
//! withdraw; a deposit is accepted only into a vault that holds nothing yet,
//! which guards against address reuse.

#![allow(unused_imports)]
use vstd::prelude::*;

use crate::account::{views_of, Account, AccountState};
use crate::derive::{derived, find_pda, vault_seed_path, vault_seeds};
use crate::keys::key_eq;
use crate::ErrorKind;
use crate::ProgramConfig;

verus! {

/// The parsed payload of a deposit: the amount to move into the vault.
#[derive(Debug)]
pub struct DepositInstructionData {
    pub amount: u64,
}

impl DepositInstructionData {
    /// What parsing decides: exactly eight little-endian bytes, and the
    /// amount they encode must not be zero.
    pub open spec fn parse_spec(data: Seq<u8>) -> Result<DepositInstructionData, ErrorKind> {
        if data.len() != 8 {
            Err(ErrorKind::BadInstructionData)
        } else if vstd::bytes::spec_u64_from_le_bytes(data) == 0 {
            Err(ErrorKind::BadInstructionData)
        } else {
            Ok(DepositInstructionData { amount: vstd::bytes::spec_u64_from_le_bytes(data) })
        }
    }

    /// Parses the deposit payload; a wrong length or a zero amount is
    /// rejected.
    pub fn try_from(data: &[u8]) -> (r: Result<DepositInstructionData, ErrorKind>)
        ensures
            r == Self::parse_spec(data@),
    {
        if data.len() != 8 {
            return Err(ErrorKind::BadInstructionData);
        }
        let amount = vstd::bytes::u64_from_le_bytes(data);
        if amount == 0 {
            return Err(ErrorKind::BadInstructionData);
        }
        Ok(DepositInstructionData { amount })
    }
}

/// The two accounts a deposit acts on, in positional order: the owner, then
/// the vault.  (A third supplied account, the native sub-program, is only
/// along for the ride.)
#[derive(Debug)]
pub struct DepositAccounts {
    pub owner: Account,
    pub vault: Account,
}

impl DepositAccounts {
    /// What deposit validation decides: the owner co-signs; the vault still
    /// belongs to the native sub-program; the vault holds nothing yet (the
    /// first-use guard — a deposit never silently tops up a used address);
    /// and the vault sits exactly at the re-derived address for its owner.
    /// `deriv` is the outcome of the address search for the owner's vault.
    pub open spec fn check_spec(
        owner: AccountState,
        vault: AccountState,
        cfg: ProgramConfig,
        deriv: Option<(Seq<u8>, u8)>,
    ) -> Result<(), ErrorKind> {
        if !owner.is_signer {
            Err(ErrorKind::MissingSignature)
        } else if vault.owner != cfg.system_program_id@ {
            Err(ErrorKind::WrongOwner)
        } else if vault.lamports != 0 {
            Err(ErrorKind::WrongOwner)
        } else {
            match deriv {
                Some(p) => {
                    if vault.key != p.0 {
                        Err(ErrorKind::AddressMismatch)
                    } else {
                        Ok(())
                    }
                },
                None => Err(ErrorKind::AddressMismatch),
            }
        }
    }

    /// What list parsing decides: exactly three accounts, then the checks.
    pub open spec fn try_from_spec(
        accounts: Seq<AccountState>,
        cfg: ProgramConfig,
        deriv: Option<(Seq<u8>, u8)>,
    ) -> Result<(AccountState, AccountState), ErrorKind> {
        if accounts.len() != 3 {
            Err(ErrorKind::NotEnoughAccountKeys)
        } else {
            match Self::check_spec(accounts[0], accounts[1], cfg, deriv) {
                Err(e) => Err(e),
                Ok(u) => Ok((accounts[0], accounts[1])),
            }
        }
    }

    /// Parses and validates the fixed-arity account list of a deposit,
    /// re-deriving the vault address from the owner.
    pub fn try_from(accounts: Vec<Account>, cfg: &ProgramConfig) -> (r: Result<
        DepositAccounts,
        ErrorKind,
    >)
        ensures
            (match r {
                Ok(a) => Self::try_from_spec(
                    views_of(accounts@),
                    *cfg,
                    derived(vault_seed_path(accounts@[0]@.key), cfg.program_id@),
                ) == Ok::<_, ErrorKind>((a.owner@, a.vault@)),
                Err(e) => Self::try_from_spec(
                    views_of(accounts@),
                    *cfg,
                    derived(vault_seed_path(accounts@[0]@.key), cfg.program_id@),
                ) == Err::<(AccountState, AccountState), ErrorKind>(e),
            }),
    {
        let mut accounts = accounts;
        if accounts.len() != 3 {
            return Err(ErrorKind::NotEnoughAccountKeys);
        }
        let owner = accounts.remove(0);
        let vault = accounts.remove(0);
        if !owner.is_signer {
            return Err(ErrorKind::MissingSignature);
        }
        if !key_eq(&vault.owner, &cfg.system_program_id) {
            return Err(ErrorKind::WrongOwner);
        }
        if vault.lamports != 0 {
            return Err(ErrorKind::WrongOwner);
        }
        let seeds = vault_seeds(&owner.key);
        match find_pda(&seeds, &cfg.program_id) {
            None => Err(ErrorKind::AddressMismatch),
            Some(p) => {
                if !key_eq(&vault.key, &p.0) {
                    Err(ErrorKind::AddressMismatch)
                } else {
                    Ok(DepositAccounts { owner, vault })
                }
            },
        }
    }
}

/// A validated deposit, ready to commit.
#[derive(Debug)]
pub struct Deposit {
    pub accounts: DepositAccounts,
    pub instruction_data: DepositInstructionData,
}

impl Deposit {
    /// What building a deposit decides: the account list first, the payload
    /// second.
    pub open spec fn build_spec(
        accounts: Seq<AccountState>,
        data: Seq<u8>,
        cfg: ProgramConfig,
        deriv: Option<(Seq<u8>, u8)>,
    ) -> Result<(AccountState, AccountState, DepositInstructionData), ErrorKind> {
        match DepositAccounts::try_from_spec(accounts, cfg, deriv) {
            Err(e) => Err(e),
            Ok(pair) => match DepositInstructionData::parse_spec(data) {
                Err(e) => Err(e),
                Ok(d) => Ok((pair.0, pair.1, d)),
            },
        }
    }

    /// What committing a deposit does: `amount` moves from the owner to the
    /// vault, or nothing moves and the transfer's refusal surfaces.
    pub open spec fn process_spec(owner: AccountState, vault: AccountState, amount: u64) -> Result<
        (AccountState, AccountState),
        ErrorKind,
    > {
        if owner.lamports < amount {
            Err(ErrorKind::InsufficientFunds)
        } else {
            Ok(
                (
                    AccountState { lamports: owner.lamports - amount, ..owner },
                    AccountState { lamports: vault.lamports + amount, ..vault },
                ),
            )
        }
    }

    /// The whole deposit instruction on validated-or-not inputs: validate,
    /// parse, commit.
    pub open spec fn run_spec(
        accounts: Seq<AccountState>,
        data: Seq<u8>,
        cfg: ProgramConfig,
        deriv: Option<(Seq<u8>, u8)>,
    ) -> Result<(AccountState, AccountState), ErrorKind> {
        match Self::build_spec(accounts, data, cfg, deriv) {
            Err(e) => Err(e),
            Ok(t) => Self::process_spec(t.0, t.1, t.2.amount),
        }
    }

    /// Parses and validates a deposit: the account list, then the payload.
    /// Validation happens entirely here — invalid input never reaches
    /// [`Deposit::process`].
    pub fn try_from(data: &[u8], accounts: Vec<Account>, cfg: &ProgramConfig) -> (r: Result<
        Deposit,
        ErrorKind,
    >)
        ensures
            (match r {
                Ok(d) => Self::build_spec(
                    views_of(accounts@),
                    data@,
                    *cfg,
                    derived(vault_seed_path(accounts@[0]@.key), cfg.program_id@),
                ) == Ok::<_, ErrorKind>((d.accounts.owner@, d.accounts.vault@, d.instruction_data)),
                Err(e) => Self::build_spec(
                    views_of(accounts@),
                    data@,
                    *cfg,
                    derived(vault_seed_path(accounts@[0]@.key), cfg.program_id@),
                ) == Err::<(AccountState, AccountState, DepositInstructionData), ErrorKind>(e),
            }),
    {
        let accounts = match DepositAccounts::try_from(accounts, cfg) {
            Err(e) => {
                return Err(e);
            },
            Ok(a) => a,
        };
        let instruction_data = match DepositInstructionData::try_from(data) {
            Err(e) => {
                return Err(e);
            },
            Ok(d) => d,
        };
        Ok(Deposit { accounts, instruction_data })
    }

    /// Commits the deposit: moves the parsed amount from the owner into the
    /// vault, or fails with the transfer's refusal and moves nothing.
    pub fn process(&mut self) -> (r: Result<(), ErrorKind>)
        requires
            old(self).accounts.owner@.lamports + old(self).accounts.vault@.lamports <= u64::MAX,
        ensures
            (match Self::process_spec(
                old(self).accounts.owner@,
                old(self).accounts.vault@,
                old(self).instruction_data.amount,
            ) {
                Ok(s) => r is Ok && final(self).accounts.owner@ == s.0
                    && final(self).accounts.vault@ == s.1,
                Err(e) => r == Err::<(), ErrorKind>(e) && final(self).accounts.owner@ == old(
                    self,
                ).accounts.owner@ && final(self).accounts.vault@ == old(self).accounts.vault@,
            }),
            final(self).instruction_data == old(self).instruction_data,
    {
        let amount = self.instruction_data.amount;
        if self.accounts.owner.lamports < amount {
            return Err(ErrorKind::InsufficientFunds);
        }
        self.accounts.owner.lamports = self.accounts.owner.lamports - amount;
        self.accounts.vault.lamports = self.accounts.vault.lamports + amount;
        Ok(())
    }
}

/// A validated withdraw, ready to commit.
#[derive(Debug)]
pub struct Withdraw {
    pub owner: Account,
    pub vault: Account,
}

impl Withdraw {
    /// What withdraw validation decides: the owner co-signs; the vault still
    /// belongs to the native sub-program; and the vault sits exactly at the
    /// re-derived address for its owner.  The balance is free: a withdraw
    /// drains whatever is there.
    pub open spec fn check_spec(
        owner: AccountState,
        vault: AccountState,
        cfg: ProgramConfig,
        deriv: Option<(Seq<u8>, u8)>,
    ) -> Result<(), ErrorKind> {
        if !owner.is_signer {
            Err(ErrorKind::MissingSignature)
        } else if vault.owner != cfg.system_program_id@ {
            Err(ErrorKind::WrongOwner)
        } else {
            match deriv {
                Some(p) => {
                    if vault.key != p.0 {
                        Err(ErrorKind::AddressMismatch)
                    } else {
                        Ok(())
                    }
                },
                None => Err(ErrorKind::AddressMismatch),
            }
        }
    }

    /// What committing a withdraw does: the vault's entire balance moves
    /// back to the owner and the vault ends at zero.
    pub open spec fn process_spec(owner: AccountState, vault: AccountState) -> (
        AccountState,
        AccountState,
    ) {
        (
            AccountState { lamports: owner.lamports + vault.lamports, ..owner },
            AccountState { lamports: 0, ..vault },
        )
    }

    /// The whole withdraw instruction: arity, validation, commit.
    pub open spec fn run_spec(
        accounts: Seq<AccountState>,
        cfg: ProgramConfig,
        deriv: Option<(Seq<u8>, u8)>,
    ) -> Result<(AccountState, AccountState), ErrorKind> {
        if accounts.len() != 3 {
            Err(ErrorKind::NotEnoughAccountKeys)
        } else {
            match Self::check_spec(accounts[0], accounts[1], cfg, deriv) {
                Err(e) => Err(e),
                Ok(u) => Ok(Self::process_spec(accounts[0], accounts[1])),
            }
        }
    }

    /// Parses and validates the fixed-arity account list of a withdraw,
    /// re-deriving the vault address from the owner.
    pub fn try_from(accounts: Vec<Account>, cfg: &ProgramConfig) -> (r: Result<
        Withdraw,
        ErrorKind,
    >)
        ensures
            (match r {
                Ok(w) => {
                    &&& accounts@.len() == 3
                    &&& Self::check_spec(
                        accounts@[0]@,
                        accounts@[1]@,
                        *cfg,
                        derived(vault_seed_path(accounts@[0]@.key), cfg.program_id@),
                    ) is Ok
                    &&& w.owner@ == accounts@[0]@
                    &&& w.vault@ == accounts@[1]@
                },
                Err(e) => {
                    if accounts@.len() != 3 {
                        e == ErrorKind::NotEnoughAccountKeys
                    } else {
                        Err::<(), ErrorKind>(e) == Self::check_spec(
                            accounts@[0]@,
                            accounts@[1]@,
                            *cfg,
                            derived(vault_seed_path(accounts@[0]@.key), cfg.program_id@),
                        )
                    }
                },
            }),
    {
        let mut accounts = accounts;
        if accounts.len() != 3 {
            return Err(ErrorKind::NotEnoughAccountKeys);
        }
        let owner = accounts.remove(0);
        let vault = accounts.remove(0);
        if !owner.is_signer {
            return Err(ErrorKind::MissingSignature);
        }
        if !key_eq(&vault.owner, &cfg.system_program_id) {
            return Err(ErrorKind::WrongOwner);
        }
        let seeds = vault_seeds(&owner.key);
        match find_pda(&seeds, &cfg.program_id) {
            None => Err(ErrorKind::AddressMismatch),
            Some(p) => {
                if !key_eq(&vault.key, &p.0) {
                    Err(ErrorKind::AddressMismatch)
                } else {
                    Ok(Withdraw { owner, vault })
                }
            },
        }
    }

    /// Commits the withdraw: drains the vault into the owner.
    pub fn process(&mut self) -> (r: Result<(), ErrorKind>)
        requires
            old(self).owner@.lamports + old(self).vault@.lamports <= u64::MAX,
        ensures
            r is Ok,
            ({
                let s = Self::process_spec(old(self).owner@, old(self).vault@);
                final(self).owner@ == s.0 && final(self).vault@ == s.1
            }),
    {
        self.owner.lamports = self.owner.lamports + self.vault.lamports;
        self.vault.lamports = 0;
        Ok(())
    }
}

/// What the vault program does with a routed instruction: the first payload
/// byte selects deposit (0) or withdraw (1); anything else — including an
/// empty payload — is refused.
pub open spec fn dispatch_spec(
    accounts: Seq<AccountState>,
    data: Seq<u8>,
    cfg: ProgramConfig,
    deriv: Option<(Seq<u8>, u8)>,
) -> Result<(AccountState, AccountState), ErrorKind> {
    if data.len() < 1 {
        Err(ErrorKind::BadInstructionData)
    } else if data[0] == 0u8 {
        Deposit::run_spec(accounts, data.skip(1), cfg, deriv)
    } else if data[0] == 1u8 {
        Withdraw::run_spec(accounts, cfg, deriv)
    } else {
        Err(ErrorKind::BadInstructionData)
    }
}

/// Routes one vault instruction and returns the final (owner, vault) pair.
/// The third supplied account, the native sub-program, is not touched.
pub fn process_instruction(
    accounts: Vec<Account>,
    instruction_data: &[u8],
    cfg: &ProgramConfig,
) -> (r: Result<(Account, Account), ErrorKind>)
    requires
        accounts@.len() == 3 ==> accounts@[0]@.lamports + accounts@[1]@.lamports <= u64::MAX,
    ensures
        (match r {
            Ok(pair) => dispatch_spec(
                views_of(accounts@),
                instruction_data@,
                *cfg,
                derived(vault_seed_path(accounts@[0]@.key), cfg.program_id@),
            ) == Ok::<_, ErrorKind>((pair.0@, pair.1@)),
            Err(e) => dispatch_spec(
                views_of(accounts@),
                instruction_data@,
                *cfg,
                derived(vault_seed_path(accounts@[0]@.key), cfg.program_id@),
            ) == Err::<(AccountState, AccountState), ErrorKind>(e),
        }),
{
    if instruction_data.len() < 1 {
        return Err(ErrorKind::BadInstructionData);
    }
    let disc = instruction_data[0];
    if disc == 0 {
        let rest = vstd::slice::slice_subrange(instruction_data, 1, instruction_data.len());
        let mut deposit = match Deposit::try_from(rest, accounts, cfg) {
            Err(e) => {
                return Err(e);
            },
            Ok(d) => d,
        };
        match deposit.process() {
            Err(e) => Err(e),
            Ok(u) => Ok((deposit.accounts.owner, deposit.accounts.vault)),
        }
    } else if disc == 1 {
        let mut withdraw = match Withdraw::try_from(accounts, cfg) {
            Err(e) => {
                return Err(e);
            },
            Ok(w) => w,
        };
        match withdraw.process() {
            Err(e) => Err(e),
            Ok(u) => Ok((withdraw.owner, withdraw.vault)),
        }
    } else {
        Err(ErrorKind::BadInstructionData)
    }
}

/// Zero-amount rejection: a deposit whose payload encodes the amount zero
/// never commits; under otherwise valid accounts the refusal is exactly
/// `BadInstructionData`.
pub proof fn lemma_deposit_zero_amount_rejected(
    accounts: Seq<AccountState>,
    data: Seq<u8>,
    cfg: ProgramConfig,
    deriv: Option<(Seq<u8>, u8)>,
)
    requires
        data.len() == 8,
        vstd::bytes::spec_u64_from_le_bytes(data) == 0,
    ensures
        Deposit::run_spec(accounts, data, cfg, deriv) is Err,
        DepositAccounts::try_from_spec(accounts, cfg, deriv) is Ok ==> Deposit::run_spec(
            accounts,
            data,
            cfg,
            deriv,
        ) == Err::<(AccountState, AccountState), ErrorKind>(ErrorKind::BadInstructionData),
{
}

/// Fresh-vault guard: a deposit aimed at a vault that already holds a
/// nonzero balance fails validation; it never silently tops up.
pub proof fn lemma_fresh_vault_guard(
    accounts: Seq<AccountState>,
    data: Seq<u8>,
    cfg: ProgramConfig,
    deriv: Option<(Seq<u8>, u8)>,
)
    requires
        accounts.len() == 3,
        accounts[1].lamports != 0,
    ensures
        Deposit::run_spec(accounts, data, cfg, deriv) is Err,
{
}

/// Vault lifecycle: when a deposit into a fresh vault commits, a withdraw
/// right after restores the owner's balance exactly and leaves the vault at
/// zero.
pub proof fn lemma_vault_lifecycle(
    accounts: Seq<AccountState>,
    data: Seq<u8>,
    cfg: ProgramConfig,
    deriv: Option<(Seq<u8>, u8)>,
    third: AccountState,
)
    requires
        Deposit::run_spec(accounts, data, cfg, deriv) is Ok,
    ensures
        (Deposit::run_spec(accounts, data, cfg, deriv) matches Ok(s) ==> {
            let w = Withdraw::run_spec(seq![s.0, s.1, third], cfg, deriv);
            &&& w is Ok
            &&& (w matches Ok(t) ==> t.0.lamports == accounts[0].lamports && t.1.lamports == 0)
        }),
{
}

} // verus!
