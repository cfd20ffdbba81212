//! The escrow instruction: `Make`.
//!
//! `Make` opens a swap offer: it validates the maker and the two mints,
//! provisions the escrow record account at its derived address and the vault
//! token account at the canonical address for (escrow, deposited mint), then
//! commits — writes the record and moves the deposit from the maker's token
//! account into the vault.  Validation happens during parsing: invalid input
//! never reaches execution.

#![allow(unused_imports)]
use vstd::prelude::*;

use crate::account::{views_of, Account, AccountState};
use crate::derive::{ata_seed_path, derived, escrow_seed_path, escrow_seeds, find_pda};
use crate::helpers::{
    lemma_fresh_token_amount_zero, token_amount, token_transfer, token_transfer_spec,
    AssociatedTokenAccount, MintAccount, ProgramAccount, SignerAccount, TOKEN_ACCOUNT_LEN,
};
use crate::state::{record_bytes_parts, Escrow, ESCROW_LEN};
use crate::ErrorKind;
use crate::ProgramConfig;

verus! {

/// The parsed payload of `Make`: the deposit amount, the demanded amount of
/// the wanted asset, and the maker's derivation nonce.
#[derive(Debug)]
pub struct MakeInstructionData {
    pub amount: u64,
    pub receive: u64,
    pub seed: u64,
}

impl MakeInstructionData {
    /// What parsing decides: exactly three little-endian 8-byte integers,
    /// and the deposit amount must not be zero.
    pub open spec fn parse_spec(data: Seq<u8>) -> Result<MakeInstructionData, ErrorKind> {
        if data.len() != 24 {
            Err(ErrorKind::BadInstructionData)
        } else if vstd::bytes::spec_u64_from_le_bytes(data.subrange(0, 8)) == 0 {
            Err(ErrorKind::BadInstructionData)
        } else {
            Ok(
                MakeInstructionData {
                    amount: vstd::bytes::spec_u64_from_le_bytes(data.subrange(0, 8)),
                    receive: vstd::bytes::spec_u64_from_le_bytes(data.subrange(8, 16)),
                    seed: vstd::bytes::spec_u64_from_le_bytes(data.subrange(16, 24)),
                },
            )
        }
    }

    /// Parses the `Make` payload; a wrong length or a zero deposit amount is
    /// rejected.
    pub fn try_from(data: &[u8]) -> (r: Result<MakeInstructionData, ErrorKind>)
        ensures
            r == Self::parse_spec(data@),
    {
        if data.len() != 24 {
            return Err(ErrorKind::BadInstructionData);
        }
        let amount = vstd::bytes::u64_from_le_bytes(vstd::slice::slice_subrange(data, 0, 8));
        let receive = vstd::bytes::u64_from_le_bytes(vstd::slice::slice_subrange(data, 8, 16));
        let seed = vstd::bytes::u64_from_le_bytes(vstd::slice::slice_subrange(data, 16, 24));
        if amount == 0 {
            return Err(ErrorKind::BadInstructionData);
        }
        Ok(MakeInstructionData { amount, receive, seed })
    }
}

/// The eight accounts `Make` acts on, in positional order: maker, escrow
/// record, the deposited asset's mint, the wanted asset's mint, the maker's
/// token account for the deposited mint, the escrow's vault token account,
/// the native sub-program, and the fungible-token sub-program.
#[derive(Debug)]
pub struct MakeAccounts {
    pub maker: Account,
    pub escrow: Account,
    pub a_mint: Account,
    pub b_mint: Account,
    pub maker_ata: Account,
    pub escrow_ata: Account,
    pub system_program: Account,
    pub token_program: Account,
}

impl MakeAccounts {
    /// What `Make` validation decides: the maker co-signs, both mints are
    /// shaped as mint records, and the maker's token account is the
    /// canonical one for (maker, deposited mint).
    pub open spec fn check_spec(
        maker: AccountState,
        a_mint: AccountState,
        b_mint: AccountState,
        maker_ata: AccountState,
        token_program_key: Seq<u8>,
        cfg: ProgramConfig,
    ) -> Result<(), ErrorKind> {
        match SignerAccount::check_spec(maker) {
            Err(e) => Err(e),
            Ok(u0) => match MintAccount::check_spec(a_mint, cfg) {
                Err(e) => Err(e),
                Ok(u1) => match MintAccount::check_spec(b_mint, cfg) {
                    Err(e) => Err(e),
                    Ok(u2) => match derived(
                        ata_seed_path(maker.key, token_program_key, a_mint.key),
                        cfg.ata_program_id@,
                    ) {
                        None => Err(ErrorKind::AddressMismatch),
                        Some(p) => AssociatedTokenAccount::check_spec(maker_ata, cfg, p.0),
                    },
                },
            },
        }
    }

    /// What list parsing decides: exactly eight accounts, then the checks.
    pub open spec fn list_check_spec(accounts: Seq<AccountState>, cfg: ProgramConfig) -> Result<
        (),
        ErrorKind,
    > {
        if accounts.len() != 8 {
            Err(ErrorKind::NotEnoughAccountKeys)
        } else {
            Self::check_spec(
                accounts[0],
                accounts[2],
                accounts[3],
                accounts[4],
                accounts[7].key,
                cfg,
            )
        }
    }

    /// Parses and validates the fixed-arity account list of `Make`,
    /// re-deriving the canonical address of the maker's token account.
    pub fn try_from(accounts: Vec<Account>, cfg: &ProgramConfig) -> (r: Result<
        MakeAccounts,
        ErrorKind,
    >)
        ensures
            (match r {
                Ok(a) => {
                    &&& Self::list_check_spec(views_of(accounts@), *cfg) is Ok
                    &&& a.maker@ == accounts@[0]@
                    &&& a.escrow@ == accounts@[1]@
                    &&& a.a_mint@ == accounts@[2]@
                    &&& a.b_mint@ == accounts@[3]@
                    &&& a.maker_ata@ == accounts@[4]@
                    &&& a.escrow_ata@ == accounts@[5]@
                    &&& a.system_program@ == accounts@[6]@
                    &&& a.token_program@ == accounts@[7]@
                },
                Err(e) => Self::list_check_spec(views_of(accounts@), *cfg) == Err::<(), ErrorKind>(
                    e,
                ),
            }),
    {
        let mut accounts = accounts;
        if accounts.len() != 8 {
            return Err(ErrorKind::NotEnoughAccountKeys);
        }
        let maker = accounts.remove(0);
        let escrow = accounts.remove(0);
        let a_mint = accounts.remove(0);
        let b_mint = accounts.remove(0);
        let maker_ata = accounts.remove(0);
        let escrow_ata = accounts.remove(0);
        let system_program = accounts.remove(0);
        let token_program = accounts.remove(0);
        match SignerAccount::check(&maker) {
            Err(e) => {
                return Err(e);
            },
            Ok(u) => {},
        }
        match MintAccount::check(&a_mint, cfg) {
            Err(e) => {
                return Err(e);
            },
            Ok(u) => {},
        }
        match MintAccount::check(&b_mint, cfg) {
            Err(e) => {
                return Err(e);
            },
            Ok(u) => {},
        }
        match AssociatedTokenAccount::check(&maker_ata, &a_mint, &maker, &token_program, cfg) {
            Err(e) => {
                return Err(e);
            },
            Ok(u) => {},
        }
        Ok(
            MakeAccounts {
                maker,
                escrow,
                a_mint,
                b_mint,
                maker_ata,
                escrow_ata,
                system_program,
                token_program,
            },
        )
    }
}

/// A provisioned `Make`, ready to commit: validated accounts, parsed
/// payload, and the bump found for the escrow address.
#[derive(Debug)]
pub struct Make {
    pub accounts: MakeAccounts,
    pub instruction_data: MakeInstructionData,
    pub bump: u8,
}

impl Make {
    /// What parsing, validating and provisioning decide, in order: parse the
    /// payload; validate the account list; derive the escrow address from
    /// the maker and the nonce; allocate the escrow record there, funded by
    /// the maker; derive the canonical vault address for (escrow, deposited
    /// mint); allocate the vault token account there, funded by the maker.
    /// Success carries (maker, escrow, vault, payload, bump) after the two
    /// allocations.
    pub open spec fn build_spec(
        accounts: Seq<AccountState>,
        data: Seq<u8>,
        cfg: ProgramConfig,
        rent_escrow: int,
        rent_vault: int,
    ) -> Result<(AccountState, AccountState, AccountState, MakeInstructionData, u8), ErrorKind> {
        match MakeInstructionData::parse_spec(data) {
            Err(e) => Err(e),
            Ok(d) => match MakeAccounts::list_check_spec(accounts, cfg) {
                Err(e) => Err(e),
                Ok(u0) => match derived(
                    escrow_seed_path(accounts[0].key, d.seed),
                    cfg.program_id@,
                ) {
                    None => Err(ErrorKind::AddressMismatch),
                    Some(ed) => match ProgramAccount::init_spec(
                        accounts[1],
                        accounts[0],
                        cfg,
                        ESCROW_LEN as nat,
                        rent_escrow,
                        ed.0,
                    ) {
                        Err(e) => Err(e),
                        Ok(s1) => match derived(
                            ata_seed_path(ed.0, cfg.token_program_id@, accounts[2].key),
                            cfg.ata_program_id@,
                        ) {
                            None => Err(ErrorKind::AddressMismatch),
                            Some(vd) => match AssociatedTokenAccount::init_spec(
                                accounts[5],
                                s1.1,
                                cfg,
                                rent_vault,
                                vd.0,
                            ) {
                                Err(e) => Err(e),
                                Ok(s2) => Ok((s2.1, s1.0, s2.0, d, ed.1)),
                            },
                        },
                    },
                },
            },
        }
    }

    /// What committing does: the record — maker, both mints, demanded
    /// amount, nonce, bump, each set exactly once — is written into the
    /// escrow account, and the deposit moves from the maker's token account
    /// into the vault.  A transfer the maker cannot cover moves nothing.
    pub open spec fn commit_spec(
        maker_key: Seq<u8>,
        a_mint_key: Seq<u8>,
        b_mint_key: Seq<u8>,
        escrow: AccountState,
        maker_ata: AccountState,
        escrow_ata: AccountState,
        d: MakeInstructionData,
        bump: u8,
    ) -> Result<(AccountState, AccountState, AccountState), ErrorKind> {
        match token_transfer_spec(maker_ata, escrow_ata, d.amount) {
            Err(e) => Err(e),
            Ok(t) => Ok(
                (
                    AccountState {
                        data: record_bytes_parts(
                            maker_key,
                            a_mint_key,
                            b_mint_key,
                            d.receive,
                            d.seed,
                            bump,
                        ),
                        ..escrow
                    },
                    t.0,
                    t.1,
                ),
            ),
        }
    }

    /// The whole `Make` instruction: build, then commit.  Success carries
    /// the final (maker, escrow, maker's token account, vault, bump); any
    /// failure leaves no state at all.
    pub open spec fn run_spec(
        accounts: Seq<AccountState>,
        data: Seq<u8>,
        cfg: ProgramConfig,
        rent_escrow: int,
        rent_vault: int,
    ) -> Result<(AccountState, AccountState, AccountState, AccountState, u8), ErrorKind> {
        match Self::build_spec(accounts, data, cfg, rent_escrow, rent_vault) {
            Err(e) => Err(e),
            Ok(b) => match Self::commit_spec(
                accounts[0].key,
                accounts[2].key,
                accounts[3].key,
                b.1,
                accounts[4],
                b.2,
                b.3,
                b.4,
            ) {
                Err(e) => Err(e),
                Ok(t) => Ok((b.0, t.0, t.1, t.2, b.4)),
            },
        }
    }

    /// Parses, validates and provisions a `Make`: payload, account list,
    /// escrow record at its derived address, vault token account at its
    /// canonical address.  `rent_escrow` and `rent_vault` are the ledger's
    /// minimum fundings for the two allocations.
    pub fn try_from(
        data: &[u8],
        accounts: Vec<Account>,
        cfg: &ProgramConfig,
        rent_escrow: u64,
        rent_vault: u64,
    ) -> (r: Result<Make, ErrorKind>)
        ensures
            (match r {
                Ok(m) => {
                    &&& Self::build_spec(
                        views_of(accounts@),
                        data@,
                        *cfg,
                        rent_escrow as int,
                        rent_vault as int,
                    ) == Ok::<_, ErrorKind>(
                        (
                            m.accounts.maker@,
                            m.accounts.escrow@,
                            m.accounts.escrow_ata@,
                            m.instruction_data,
                            m.bump,
                        ),
                    )
                    &&& m.accounts.a_mint@ == accounts@[2]@
                    &&& m.accounts.b_mint@ == accounts@[3]@
                    &&& m.accounts.maker_ata@ == accounts@[4]@
                    &&& m.accounts.system_program@ == accounts@[6]@
                    &&& m.accounts.token_program@ == accounts@[7]@
                },
                Err(e) => Self::build_spec(
                    views_of(accounts@),
                    data@,
                    *cfg,
                    rent_escrow as int,
                    rent_vault as int,
                ) == Err::<(AccountState, AccountState, AccountState, MakeInstructionData, u8), ErrorKind>(
                    e,
                ),
            }),
    {
        let instruction_data = match MakeInstructionData::try_from(data) {
            Err(e) => {
                return Err(e);
            },
            Ok(d) => d,
        };
        let mut accounts = match MakeAccounts::try_from(accounts, cfg) {
            Err(e) => {
                return Err(e);
            },
            Ok(a) => a,
        };
        let seeds = escrow_seeds(&accounts.maker.key, instruction_data.seed);
        let (escrow_pda, bump) = match find_pda(&seeds, &cfg.program_id) {
            None => {
                return Err(ErrorKind::AddressMismatch);
            },
            Some(p) => p,
        };
        match ProgramAccount::init(
            &mut accounts.maker,
            &mut accounts.escrow,
            &escrow_pda,
            ESCROW_LEN,
            cfg,
            rent_escrow,
        ) {
            Err(e) => {
                return Err(e);
            },
            Ok(u) => {},
        }
        match AssociatedTokenAccount::init(
            &mut accounts.maker,
            &mut accounts.escrow_ata,
            &accounts.a_mint,
            &escrow_pda,
            cfg,
            rent_vault,
        ) {
            Err(e) => {
                return Err(e);
            },
            Ok(u) => {},
        }
        Ok(Make { accounts, instruction_data, bump })
    }

    /// Commits the offer: writes the record in place and executes the
    /// deposit transfer, authorized by the maker's live signature.
    pub fn process(&mut self) -> (r: Result<(), ErrorKind>)
        requires
            old(self).accounts.escrow@.data.len() == ESCROW_LEN,
            old(self).accounts.maker_ata@.data.len() == TOKEN_ACCOUNT_LEN,
            old(self).accounts.escrow_ata@.data.len() == TOKEN_ACCOUNT_LEN,
            token_amount(old(self).accounts.maker_ata@.data) + token_amount(
                old(self).accounts.escrow_ata@.data,
            ) <= u64::MAX,
        ensures
            (match Self::commit_spec(
                old(self).accounts.maker@.key,
                old(self).accounts.a_mint@.key,
                old(self).accounts.b_mint@.key,
                old(self).accounts.escrow@,
                old(self).accounts.maker_ata@,
                old(self).accounts.escrow_ata@,
                old(self).instruction_data,
                old(self).bump,
            ) {
                Ok(t) => r is Ok && final(self).accounts.escrow@ == t.0
                    && final(self).accounts.maker_ata@ == t.1 && final(self).accounts.escrow_ata@
                    == t.2,
                Err(e) => r == Err::<(), ErrorKind>(e) && final(self).accounts.escrow@ == old(
                    self,
                ).accounts.escrow@ && final(self).accounts.maker_ata@ == old(
                    self,
                ).accounts.maker_ata@ && final(self).accounts.escrow_ata@ == old(
                    self,
                ).accounts.escrow_ata@,
            }),
            final(self).accounts.maker@ == old(self).accounts.maker@,
            final(self).accounts.a_mint@ == old(self).accounts.a_mint@,
            final(self).accounts.b_mint@ == old(self).accounts.b_mint@,
            final(self).accounts.system_program@ == old(self).accounts.system_program@,
            final(self).accounts.token_program@ == old(self).accounts.token_program@,
            final(self).instruction_data == old(self).instruction_data,
            final(self).bump == old(self).bump,
    {
        let amount = self.instruction_data.amount;
        let held = crate::helpers::read_token_amount(&self.accounts.maker_ata);
        if held < amount {
            return Err(ErrorKind::InsufficientFunds);
        }
        let record = Escrow {
            maker: self.accounts.maker.key,
            token_a_mint: self.accounts.a_mint.key,
            token_b_mint: self.accounts.b_mint.key,
            receive: self.instruction_data.receive,
            seed: self.instruction_data.seed,
            bump: self.bump,
        };
        match record.store(&mut self.accounts.escrow.data) {
            Err(e) => Err(e),
            Ok(u) => {
                match token_transfer(
                    &mut self.accounts.maker_ata,
                    &mut self.accounts.escrow_ata,
                    amount,
                ) {
                    Err(e) => Err(e),
                    Ok(u2) => Ok(()),
                }
            },
        }
    }
}

/// What the escrow program does with a routed instruction: the first payload
/// byte selects `Make` (0); anything else — including an empty payload — is
/// refused.
pub open spec fn dispatch_spec(
    accounts: Seq<AccountState>,
    data: Seq<u8>,
    cfg: ProgramConfig,
    rent_escrow: int,
    rent_vault: int,
) -> Result<(AccountState, AccountState, AccountState, AccountState, u8), ErrorKind> {
    if data.len() < 1 {
        Err(ErrorKind::BadInstructionData)
    } else if data[0] == 0u8 {
        Make::run_spec(accounts, data.skip(1), cfg, rent_escrow, rent_vault)
    } else {
        Err(ErrorKind::BadInstructionData)
    }
}

/// Routes one escrow instruction.  Success returns the committed `Make`
/// with the final accounts inside; any failure returns no state at all —
/// the all-or-nothing surface the host ledger's rollback provides.
pub fn process_instruction(
    accounts: Vec<Account>,
    instruction_data: &[u8],
    cfg: &ProgramConfig,
    rent_escrow: u64,
    rent_vault: u64,
) -> (r: Result<Make, ErrorKind>)
    ensures
        (match r {
            Ok(m) => dispatch_spec(
                views_of(accounts@),
                instruction_data@,
                *cfg,
                rent_escrow as int,
                rent_vault as int,
            ) == Ok::<_, ErrorKind>(
                (
                    m.accounts.maker@,
                    m.accounts.escrow@,
                    m.accounts.maker_ata@,
                    m.accounts.escrow_ata@,
                    m.bump,
                ),
            ),
            Err(e) => dispatch_spec(
                views_of(accounts@),
                instruction_data@,
                *cfg,
                rent_escrow as int,
                rent_vault as int,
            ) == Err::<(AccountState, AccountState, AccountState, AccountState, u8), ErrorKind>(e),
        }),
{
    if instruction_data.len() < 1 {
        return Err(ErrorKind::BadInstructionData);
    }
    let disc = instruction_data[0];
    if disc != 0 {
        return Err(ErrorKind::BadInstructionData);
    }
    let rest = vstd::slice::slice_subrange(instruction_data, 1, instruction_data.len());
    proof {
        assert(rest@ =~= instruction_data@.skip(1));
    }
    let mut m = match Make::try_from(rest, accounts, cfg, rent_escrow, rent_vault) {
        Err(e) => {
            return Err(e);
        },
        Ok(m) => m,
    };
    proof {
        lemma_fresh_token_amount_zero();
    }
    match m.process() {
        Err(e) => Err(e),
        Ok(u) => Ok(m),
    }
}

/// Atomicity of `Make`: when the deposit transfer would fail — the maker's
/// token account holds less than the deposit — the whole instruction
/// refuses, and no escrow record and no funded vault come out of it.
pub proof fn lemma_make_atomic(
    accounts: Seq<AccountState>,
    data: Seq<u8>,
    cfg: ProgramConfig,
    rent_escrow: int,
    rent_vault: int,
)
    requires
        (MakeInstructionData::parse_spec(data) matches Ok(d) && token_amount(accounts[4].data)
            < d.amount),
    ensures
        Make::run_spec(accounts, data, cfg, rent_escrow, rent_vault) is Err,
{
}

/// Zero-amount rejection: a `Make` whose payload encodes the deposit amount
/// zero is refused with `BadInstructionData`, before any account is read.
pub proof fn lemma_make_zero_amount_rejected(
    accounts: Seq<AccountState>,
    data: Seq<u8>,
    cfg: ProgramConfig,
    rent_escrow: int,
    rent_vault: int,
)
    requires
        data.len() == 24,
        vstd::bytes::spec_u64_from_le_bytes(data.subrange(0, 8)) == 0,
    ensures
        Make::run_spec(accounts, data, cfg, rent_escrow, rent_vault) == Err::<
            (AccountState, AccountState, AccountState, AccountState, u8),
            ErrorKind,
        >(ErrorKind::BadInstructionData),
{
}

} // verus!
