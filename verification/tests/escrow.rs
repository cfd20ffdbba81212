use escrow_vault::account::Account;
use escrow_vault::derive::{ata_seeds, escrow_seeds, find_pda};
use escrow_vault::helpers::read_token_amount;
use escrow_vault::make::{Make, MakeInstructionData};
use escrow_vault::state::{Escrow, ESCROW_LEN};
use escrow_vault::{ErrorKind, ProgramConfig, Pubkey};

const PROGRAM_ID: [u8; 32] = [
    0xfa, 0xc2, 0xaa, 0x9e, 0x82, 0x8c, 0xca, 0x97, 0x94, 0xac, 0x6a, 0x0b, 0x94, 0x33, 0x15, 0xa0,
    0xf6, 0xc9, 0xab, 0xcf, 0x21, 0x53, 0x12, 0xdc, 0x4b, 0x56, 0x5a, 0xd2, 0xfe, 0xd2, 0xc4, 0x58,
];

const TOKEN_PROGRAM_ID: [u8; 32] = [2u8; 32];
const ATA_PROGRAM_ID: [u8; 32] = [3u8; 32];
const LAMPORTS_PER_SOL: u64 = 1_000_000_000;
const DECIMALS_FACTOR: u64 = 1_000_000;
const RENT_ESCROW: u64 = 1_500_000;
const RENT_VAULT: u64 = 2_100_000;

fn config() -> ProgramConfig {
    ProgramConfig {
        program_id: PROGRAM_ID,
        token_program_id: TOKEN_PROGRAM_ID,
        ata_program_id: ATA_PROGRAM_ID,
        system_program_id: [0u8; 32],
    }
}

fn fresh_account(key: Pubkey, lamports: u64, is_signer: bool) -> Account {
    Account {
        key,
        owner: [0u8; 32],
        lamports,
        is_signer,
        data: Vec::new(),
    }
}

fn mint_account(key: Pubkey) -> Account {
    Account {
        key,
        owner: TOKEN_PROGRAM_ID,
        lamports: 1,
        is_signer: false,
        data: vec![0u8; 82],
    }
}

fn token_account(key: Pubkey, amount: u64) -> Account {
    let mut data = vec![0u8; 165];
    data[64..72].copy_from_slice(&amount.to_le_bytes());
    Account {
        key,
        owner: TOKEN_PROGRAM_ID,
        lamports: 1,
        is_signer: false,
        data,
    }
}

fn make_payload(amount: u64, receive: u64, seed: u64) -> Vec<u8> {
    let mut data = vec![0u8];
    data.extend_from_slice(&amount.to_le_bytes());
    data.extend_from_slice(&receive.to_le_bytes());
    data.extend_from_slice(&seed.to_le_bytes());
    data
}

/// The eight accounts of a well-formed `Make`, with the given token balance
/// in the maker's token account.
fn prelude(seed: u64, maker_tokens: u64) -> Vec<Account> {
    let maker_key: Pubkey = [9u8; 32];
    let a_mint_key: Pubkey = [0xaa; 32];
    let b_mint_key: Pubkey = [0xbb; 32];
    let escrow_pda = find_pda(&escrow_seeds(&maker_key, seed), &PROGRAM_ID)
        .unwrap()
        .0;
    let maker_ata_pda = find_pda(
        &ata_seeds(&maker_key, &TOKEN_PROGRAM_ID, &a_mint_key),
        &ATA_PROGRAM_ID,
    )
    .unwrap()
    .0;
    let vault_pda = find_pda(
        &ata_seeds(&escrow_pda, &TOKEN_PROGRAM_ID, &a_mint_key),
        &ATA_PROGRAM_ID,
    )
    .unwrap()
    .0;
    vec![
        fresh_account(maker_key, 10 * LAMPORTS_PER_SOL, true),
        fresh_account(escrow_pda, 0, false),
        mint_account(a_mint_key),
        mint_account(b_mint_key),
        token_account(maker_ata_pda, maker_tokens),
        fresh_account(vault_pda, 0, false),
        fresh_account([0u8; 32], 1, false),
        Account {
            key: TOKEN_PROGRAM_ID,
            owner: [0u8; 32],
            lamports: 1,
            is_signer: false,
            data: Vec::new(),
        },
    ]
}

#[test]
fn test_make() {
    let cfg = config();
    let starting_tokens = 100 * DECIMALS_FACTOR;
    let amount = starting_tokens / 10;
    let receive = 1000 * DECIMALS_FACTOR;
    let seed = 7;

    let accounts = prelude(seed, starting_tokens);
    let maker_key = accounts[0].key;
    let a_mint_key = accounts[2].key;
    let b_mint_key = accounts[3].key;
    let (escrow_pda, bump) = find_pda(&escrow_seeds(&maker_key, seed), &PROGRAM_ID).unwrap();

    let m = escrow_vault::make::process_instruction(
        accounts,
        &make_payload(amount, receive, seed),
        &cfg,
        RENT_ESCROW,
        RENT_VAULT,
    )
    .unwrap();

    // The maker funded both allocations.
    assert_eq!(
        m.accounts.maker.lamports,
        10 * LAMPORTS_PER_SOL - RENT_ESCROW - RENT_VAULT
    );
    // The escrow record sits at its derived address, owned by the program,
    // holding exactly the committed record.
    assert_eq!(m.bump, bump);
    assert_eq!(m.accounts.escrow.key, escrow_pda);
    assert_eq!(m.accounts.escrow.owner, PROGRAM_ID);
    assert_eq!(m.accounts.escrow.lamports, RENT_ESCROW);
    assert_eq!(m.accounts.escrow.data.len(), ESCROW_LEN);
    let expected = Escrow {
        maker: maker_key,
        token_a_mint: a_mint_key,
        token_b_mint: b_mint_key,
        receive,
        seed,
        bump,
    };
    assert_eq!(m.accounts.escrow.data, expected.encode());
    let stored = Escrow::load(&m.accounts.escrow.data).unwrap();
    assert_eq!(stored.receive, receive);
    assert_eq!(stored.seed, seed);
    // The deposit moved into the vault.
    assert_eq!(m.accounts.escrow_ata.owner, TOKEN_PROGRAM_ID);
    assert_eq!(m.accounts.escrow_ata.lamports, RENT_VAULT);
    assert_eq!(read_token_amount(&m.accounts.escrow_ata), amount);
    assert_eq!(read_token_amount(&m.accounts.maker_ata), starting_tokens - amount);
}

#[test]
fn make_rejects_zero_amount() {
    let cfg = config();
    let accounts = prelude(7, 100 * DECIMALS_FACTOR);
    let err = escrow_vault::make::process_instruction(
        accounts,
        &make_payload(0, 5, 7),
        &cfg,
        RENT_ESCROW,
        RENT_VAULT,
    )
    .unwrap_err();
    assert_eq!(err, ErrorKind::BadInstructionData);
}

#[test]
fn make_rejects_wrong_payload_length() {
    let cfg = config();
    let accounts = prelude(7, 100 * DECIMALS_FACTOR);
    let err = escrow_vault::make::process_instruction(
        accounts,
        &[0u8; 17],
        &cfg,
        RENT_ESCROW,
        RENT_VAULT,
    )
    .unwrap_err();
    assert_eq!(err, ErrorKind::BadInstructionData);
}

#[test]
fn make_is_atomic_on_insufficient_tokens() {
    // The deposit exceeds the maker's held balance: the instruction refuses
    // as a whole, and no committed state comes out of it.
    let cfg = config();
    let accounts = prelude(7, 100);
    let err = escrow_vault::make::process_instruction(
        accounts,
        &make_payload(101, 5, 7),
        &cfg,
        RENT_ESCROW,
        RENT_VAULT,
    )
    .unwrap_err();
    assert_eq!(err, ErrorKind::InsufficientFunds);
}

#[test]
fn make_rejects_unsigned_maker() {
    let cfg = config();
    let mut accounts = prelude(7, 100 * DECIMALS_FACTOR);
    accounts[0].is_signer = false;
    let err = escrow_vault::make::process_instruction(
        accounts,
        &make_payload(10, 5, 7),
        &cfg,
        RENT_ESCROW,
        RENT_VAULT,
    )
    .unwrap_err();
    assert_eq!(err, ErrorKind::MissingSignature);
}

#[test]
fn make_rejects_malformed_mints() {
    let cfg = config();
    let mut accounts = prelude(7, 100 * DECIMALS_FACTOR);
    accounts[2].owner = [7u8; 32];
    let err = escrow_vault::make::process_instruction(
        accounts,
        &make_payload(10, 5, 7),
        &cfg,
        RENT_ESCROW,
        RENT_VAULT,
    )
    .unwrap_err();
    assert_eq!(err, ErrorKind::WrongOwner);

    let mut accounts = prelude(7, 100 * DECIMALS_FACTOR);
    accounts[3].data = vec![0u8; 81];
    let err = escrow_vault::make::process_instruction(
        accounts,
        &make_payload(10, 5, 7),
        &cfg,
        RENT_ESCROW,
        RENT_VAULT,
    )
    .unwrap_err();
    assert_eq!(err, ErrorKind::BadLayout);
}

#[test]
fn make_rejects_substituted_maker_token_account() {
    // Anti-substitution: a perfectly shaped token account that is not the
    // canonical one for (maker, deposited mint) is refused.
    let cfg = config();
    let mut accounts = prelude(7, 100 * DECIMALS_FACTOR);
    accounts[4].key = [0x77; 32];
    let err = escrow_vault::make::process_instruction(
        accounts,
        &make_payload(10, 5, 7),
        &cfg,
        RENT_ESCROW,
        RENT_VAULT,
    )
    .unwrap_err();
    assert_eq!(err, ErrorKind::AddressMismatch);
}

#[test]
fn make_rejects_wrong_arity() {
    let cfg = config();
    let mut accounts = prelude(7, 100 * DECIMALS_FACTOR);
    accounts.pop();
    let err = escrow_vault::make::process_instruction(
        accounts,
        &make_payload(10, 5, 7),
        &cfg,
        RENT_ESCROW,
        RENT_VAULT,
    )
    .unwrap_err();
    assert_eq!(err, ErrorKind::NotEnoughAccountKeys);
}

#[test]
fn make_rejects_escrow_at_foreign_address() {
    // The claimed escrow account does not sit at the address the seed path
    // derives to: the creator cannot prove the right to write there.
    let cfg = config();
    let mut accounts = prelude(7, 100 * DECIMALS_FACTOR);
    accounts[1].key = [0x55; 32];
    let err = escrow_vault::make::process_instruction(
        accounts,
        &make_payload(10, 5, 7),
        &cfg,
        RENT_ESCROW,
        RENT_VAULT,
    )
    .unwrap_err();
    assert_eq!(err, ErrorKind::AddressMismatch);
}

#[test]
fn make_rejects_insufficient_maker_lamports() {
    let cfg = config();
    let mut accounts = prelude(7, 100 * DECIMALS_FACTOR);
    accounts[0].lamports = RENT_ESCROW - 1;
    let err = escrow_vault::make::process_instruction(
        accounts,
        &make_payload(10, 5, 7),
        &cfg,
        RENT_ESCROW,
        RENT_VAULT,
    )
    .unwrap_err();
    assert_eq!(err, ErrorKind::InsufficientFunds);
}

#[test]
fn make_rejects_unknown_discriminator() {
    let cfg = config();
    let accounts = prelude(7, 100 * DECIMALS_FACTOR);
    let err = escrow_vault::make::process_instruction(
        accounts,
        &[1u8, 2, 3],
        &cfg,
        RENT_ESCROW,
        RENT_VAULT,
    )
    .unwrap_err();
    assert_eq!(err, ErrorKind::BadInstructionData);
}

#[test]
fn make_parts_compose() {
    let cfg = config();
    let accounts = prelude(3, 500);
    let payload = make_payload(200, 40, 3);
    let mut m = Make::try_from(&payload[1..], accounts, &cfg, RENT_ESCROW, RENT_VAULT).unwrap();
    // Provisioned but not yet committed: the vault exists and is empty.
    assert_eq!(m.accounts.escrow.data.len(), ESCROW_LEN);
    assert_eq!(read_token_amount(&m.accounts.escrow_ata), 0);
    m.process().unwrap();
    assert_eq!(read_token_amount(&m.accounts.escrow_ata), 200);
    assert_eq!(read_token_amount(&m.accounts.maker_ata), 300);
}

#[test]
fn instruction_data_parses_three_fields() {
    let payload = make_payload(11, 22, 33);
    let parsed = MakeInstructionData::try_from(&payload[1..]).unwrap();
    assert_eq!(parsed.amount, 11);
    assert_eq!(parsed.receive, 22);
    assert_eq!(parsed.seed, 33);
}
