use escrow_vault::account::Account;
use escrow_vault::derive::{ata_seeds, find_pda};
use escrow_vault::helpers::{
    AssociatedTokenAccount, MintAccount, ProgramAccount, SignerAccount, TokenAccount,
    MINT_LEN, TOKEN_ACCOUNT_LEN,
};
use escrow_vault::state::{ESCROW_LEN, TOMBSTONE};
use escrow_vault::{ErrorKind, ProgramConfig, Pubkey};

const PROGRAM_ID: [u8; 32] = [1u8; 32];
const TOKEN_PROGRAM_ID: [u8; 32] = [2u8; 32];
const ATA_PROGRAM_ID: [u8; 32] = [3u8; 32];

fn config() -> ProgramConfig {
    ProgramConfig {
        program_id: PROGRAM_ID,
        token_program_id: TOKEN_PROGRAM_ID,
        ata_program_id: ATA_PROGRAM_ID,
        system_program_id: [0u8; 32],
    }
}

fn account(key: Pubkey, owner: Pubkey, lamports: u64, is_signer: bool, data_len: usize) -> Account {
    Account {
        key,
        owner,
        lamports,
        is_signer,
        data: vec![0u8; data_len],
    }
}

#[test]
fn signer_check() {
    let signed = account([5; 32], [0; 32], 10, true, 0);
    assert!(SignerAccount::check(&signed).is_ok());
    let unsigned = account([5; 32], [0; 32], 10, false, 0);
    assert_eq!(
        SignerAccount::check(&unsigned).unwrap_err(),
        ErrorKind::MissingSignature
    );
}

#[test]
fn mint_check() {
    let cfg = config();
    let good = account([5; 32], TOKEN_PROGRAM_ID, 1, false, MINT_LEN);
    assert!(MintAccount::check(&good, &cfg).is_ok());
    let foreign = account([5; 32], [9; 32], 1, false, MINT_LEN);
    assert_eq!(
        MintAccount::check(&foreign, &cfg).unwrap_err(),
        ErrorKind::WrongOwner
    );
    let short = account([5; 32], TOKEN_PROGRAM_ID, 1, false, MINT_LEN - 1);
    assert_eq!(
        MintAccount::check(&short, &cfg).unwrap_err(),
        ErrorKind::BadLayout
    );
}

#[test]
fn token_account_check() {
    let cfg = config();
    let good = account([5; 32], TOKEN_PROGRAM_ID, 1, false, TOKEN_ACCOUNT_LEN);
    assert!(TokenAccount::check(&good, &cfg).is_ok());
    let foreign = account([5; 32], [9; 32], 1, false, TOKEN_ACCOUNT_LEN);
    assert_eq!(
        TokenAccount::check(&foreign, &cfg).unwrap_err(),
        ErrorKind::WrongOwner
    );
    let long = account([5; 32], TOKEN_PROGRAM_ID, 1, false, TOKEN_ACCOUNT_LEN + 1);
    assert_eq!(
        TokenAccount::check(&long, &cfg).unwrap_err(),
        ErrorKind::BadLayout
    );
}

#[test]
fn mint_init_if_needed_is_idempotent() {
    // Create-or-use twice in sequence: the first call allocates and funds;
    // the second sees a valid mint and leaves everything untouched.
    let cfg = config();
    let mut target = account([5; 32], [0; 32], 0, false, 0);
    let mut payer = account([6; 32], [0; 32], 1_000, true, 0);
    MintAccount::init_if_needed(&mut target, &mut payer, 6, &[6; 32], None, &cfg, 400).unwrap();
    assert!(MintAccount::check(&target, &cfg).is_ok());
    assert_eq!(target.owner, TOKEN_PROGRAM_ID);
    assert_eq!(target.data.len(), MINT_LEN);
    assert_eq!(target.lamports, 400);
    assert_eq!(payer.lamports, 600);

    MintAccount::init_if_needed(&mut target, &mut payer, 6, &[6; 32], None, &cfg, 400).unwrap();
    assert!(MintAccount::check(&target, &cfg).is_ok());
    assert_eq!(target.lamports, 400);
    assert_eq!(payer.lamports, 600);
}

#[test]
fn mint_init_refuses_poor_payer_and_used_target() {
    let cfg = config();
    let mut target = account([5; 32], [0; 32], 0, false, 0);
    let mut payer = account([6; 32], [0; 32], 300, true, 0);
    assert_eq!(
        MintAccount::init(&mut target, &mut payer, 6, &[6; 32], None, &cfg, 400).unwrap_err(),
        ErrorKind::InsufficientFunds
    );
    assert_eq!(payer.lamports, 300);
    assert_eq!(target.data.len(), 0);

    let mut used = account([5; 32], TOKEN_PROGRAM_ID, 400, false, MINT_LEN);
    let mut payer = account([6; 32], [0; 32], 1_000, true, 0);
    assert_eq!(
        MintAccount::init(&mut used, &mut payer, 6, &[6; 32], None, &cfg, 400).unwrap_err(),
        ErrorKind::WrongOwner
    );
}

#[test]
fn token_account_init_if_needed_is_idempotent() {
    let cfg = config();
    let mint = account([7; 32], TOKEN_PROGRAM_ID, 1, false, MINT_LEN);
    let mut target = account([5; 32], [0; 32], 0, false, 0);
    let mut payer = account([6; 32], [0; 32], 1_000, true, 0);
    TokenAccount::init_if_needed(&mut target, &mint, &mut payer, &[6; 32], &cfg, 250).unwrap();
    assert!(TokenAccount::check(&target, &cfg).is_ok());
    assert_eq!(payer.lamports, 750);
    TokenAccount::init_if_needed(&mut target, &mint, &mut payer, &[6; 32], &cfg, 250).unwrap();
    assert_eq!(payer.lamports, 750);
    assert_eq!(target.lamports, 250);
}

#[test]
fn ata_check_accepts_only_the_canonical_address() {
    let cfg = config();
    let authority_key: Pubkey = [9; 32];
    let mint = account([7; 32], TOKEN_PROGRAM_ID, 1, false, MINT_LEN);
    let authority = account(authority_key, [0; 32], 10, true, 0);
    let token_program = account(TOKEN_PROGRAM_ID, [0; 32], 1, false, 0);
    let pda = find_pda(
        &ata_seeds(&authority_key, &TOKEN_PROGRAM_ID, &mint.key),
        &ATA_PROGRAM_ID,
    )
    .unwrap()
    .0;

    let canonical = account(pda, TOKEN_PROGRAM_ID, 1, false, TOKEN_ACCOUNT_LEN);
    assert!(
        AssociatedTokenAccount::check(&canonical, &mint, &authority, &token_program, &cfg).is_ok()
    );

    // Anti-substitution: a valid token account elsewhere is refused.
    let substituted = account([8; 32], TOKEN_PROGRAM_ID, 1, false, TOKEN_ACCOUNT_LEN);
    assert_eq!(
        AssociatedTokenAccount::check(&substituted, &mint, &authority, &token_program, &cfg)
            .unwrap_err(),
        ErrorKind::AddressMismatch
    );
    // A token-account shape failure is reported before the address.
    let malformed = account(pda, [9; 32], 1, false, TOKEN_ACCOUNT_LEN);
    assert_eq!(
        AssociatedTokenAccount::check(&malformed, &mint, &authority, &token_program, &cfg)
            .unwrap_err(),
        ErrorKind::WrongOwner
    );
}

#[test]
fn ata_init_if_needed_is_idempotent() {
    let cfg = config();
    let authority_key: Pubkey = [9; 32];
    let mint = account([7; 32], TOKEN_PROGRAM_ID, 1, false, MINT_LEN);
    let pda = find_pda(
        &ata_seeds(&authority_key, &TOKEN_PROGRAM_ID, &mint.key),
        &ATA_PROGRAM_ID,
    )
    .unwrap()
    .0;
    let mut target = account(pda, [0; 32], 0, false, 0);
    let mut payer = account([6; 32], [0; 32], 1_000, true, 0);
    AssociatedTokenAccount::init_if_needed(&mut payer, &mut target, &mint, &authority_key, &cfg, 300)
        .unwrap();
    assert!(AssociatedTokenAccount::check_against(&target, &pda, &cfg).is_ok());
    assert_eq!(payer.lamports, 700);
    AssociatedTokenAccount::init_if_needed(&mut payer, &mut target, &mint, &authority_key, &cfg, 300)
        .unwrap();
    assert_eq!(payer.lamports, 700);
    assert_eq!(target.lamports, 300);
}

#[test]
fn ata_init_refuses_foreign_address() {
    let cfg = config();
    let mint = account([7; 32], TOKEN_PROGRAM_ID, 1, false, MINT_LEN);
    let mut target = account([8; 32], [0; 32], 0, false, 0);
    let mut payer = account([6; 32], [0; 32], 1_000, true, 0);
    assert_eq!(
        AssociatedTokenAccount::init(&mut payer, &mut target, &mint, &[9; 32], &cfg, 300)
            .unwrap_err(),
        ErrorKind::AddressMismatch
    );
    assert_eq!(payer.lamports, 1_000);
}

#[test]
fn program_account_check() {
    let cfg = config();
    let good = account([5; 32], PROGRAM_ID, 1, false, ESCROW_LEN);
    assert!(ProgramAccount::check(&good, &cfg).is_ok());
    let foreign = account([5; 32], TOKEN_PROGRAM_ID, 1, false, ESCROW_LEN);
    assert_eq!(
        ProgramAccount::check(&foreign, &cfg).unwrap_err(),
        ErrorKind::WrongOwner
    );
    let wrong_size = account([5; 32], PROGRAM_ID, 1, false, ESCROW_LEN + 1);
    assert_eq!(
        ProgramAccount::check(&wrong_size, &cfg).unwrap_err(),
        ErrorKind::BadLayout
    );
}

#[test]
fn program_account_init_demands_the_derived_address() {
    let cfg = config();
    let mut payer = account([6; 32], [0; 32], 1_000, true, 0);
    let mut target = account([5; 32], [0; 32], 0, false, 0);
    assert_eq!(
        ProgramAccount::init(&mut payer, &mut target, &[4; 32], ESCROW_LEN, &cfg, 400)
            .unwrap_err(),
        ErrorKind::AddressMismatch
    );
    assert!(
        ProgramAccount::init(&mut payer, &mut target, &[5; 32], ESCROW_LEN, &cfg, 400).is_ok()
    );
    assert_eq!(target.owner, PROGRAM_ID);
    assert_eq!(target.data.len(), ESCROW_LEN);
    assert_eq!(target.lamports, 400);
    assert_eq!(payer.lamports, 600);
    assert!(ProgramAccount::check(&target, &cfg).is_ok());
}

#[test]
fn close_retires_the_record() {
    let cfg = config();
    let mut record = account([5; 32], PROGRAM_ID, 400, false, ESCROW_LEN);
    let mut destination = account([6; 32], [0; 32], 100, true, 0);
    ProgramAccount::close(&mut record, &mut destination, &cfg);
    assert_eq!(destination.lamports, 500);
    assert_eq!(record.lamports, 0);
    assert_eq!(record.owner, [0u8; 32]);
    assert_eq!(record.data, vec![TOMBSTONE]);
    // A re-read of the closed account no longer passes the record check.
    assert_eq!(
        ProgramAccount::check(&record, &cfg).unwrap_err(),
        ErrorKind::WrongOwner
    );
}
