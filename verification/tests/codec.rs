use escrow_vault::state::{Escrow, ESCROW_LEN, TOMBSTONE};
use escrow_vault::ErrorKind;

fn sample() -> Escrow {
    Escrow {
        maker: [0x11; 32],
        token_a_mint: [0x22; 32],
        token_b_mint: [0x33; 32],
        receive: 0x0102030405060708,
        seed: 77,
        bump: 254,
    }
}

#[test]
fn encode_layout_is_fixed() {
    let e = sample();
    let bytes = e.encode();
    assert_eq!(bytes.len(), ESCROW_LEN);
    assert_eq!(&bytes[0..32], &[0x11; 32]);
    assert_eq!(&bytes[32..64], &[0x22; 32]);
    assert_eq!(&bytes[64..96], &[0x33; 32]);
    assert_eq!(&bytes[96..104], &0x0102030405060708u64.to_le_bytes());
    assert_eq!(&bytes[104..112], &77u64.to_le_bytes());
    assert_eq!(bytes[112], 254);
}

#[test]
fn load_round_trips() {
    let e = sample();
    let bytes = e.encode();
    let parsed = Escrow::load(&bytes).unwrap();
    assert_eq!(parsed.maker, e.maker);
    assert_eq!(parsed.token_a_mint, e.token_a_mint);
    assert_eq!(parsed.token_b_mint, e.token_b_mint);
    assert_eq!(parsed.receive, e.receive);
    assert_eq!(parsed.seed, e.seed);
    assert_eq!(parsed.bump, e.bump);
    assert_eq!(parsed.encode(), bytes);
}

#[test]
fn load_rejects_wrong_length() {
    assert_eq!(Escrow::load(&[0u8; 112]).unwrap_err(), ErrorKind::BadLayout);
    assert_eq!(Escrow::load(&[0u8; 114]).unwrap_err(), ErrorKind::BadLayout);
    assert_eq!(Escrow::load(&[]).unwrap_err(), ErrorKind::BadLayout);
}

#[test]
fn setters_overwrite_single_fields() {
    let mut e = sample();
    e.set_maker([0x44; 32]);
    e.set_token_a_mint([0x55; 32]);
    e.set_token_b_mint([0x66; 32]);
    e.set_receive(9);
    e.set_seed(8);
    e.set_bump(7);
    assert_eq!(e.maker, [0x44; 32]);
    assert_eq!(e.token_a_mint, [0x55; 32]);
    assert_eq!(e.token_b_mint, [0x66; 32]);
    assert_eq!(e.receive, 9);
    assert_eq!(e.seed, 8);
    assert_eq!(e.bump, 7);
}

#[test]
fn set_inner_overwrites_all_fields() {
    let mut e = sample();
    e.set_inner([1; 32], [2; 32], [3; 32], 4, 5, 6);
    assert_eq!(e.maker, [1; 32]);
    assert_eq!(e.token_a_mint, [2; 32]);
    assert_eq!(e.token_b_mint, [3; 32]);
    assert_eq!(e.seed, 4);
    assert_eq!(e.receive, 5);
    assert_eq!(e.bump, 6);
}

#[test]
fn store_writes_in_place_and_rejects_other_lengths() {
    let e = sample();
    let mut buf = vec![0u8; ESCROW_LEN];
    assert!(e.store(&mut buf).is_ok());
    assert_eq!(buf, e.encode());

    let mut short = vec![0u8; 5];
    assert_eq!(e.store(&mut short).unwrap_err(), ErrorKind::BadLayout);
    assert_eq!(short, vec![0u8; 5]);
}

#[test]
fn tombstone_is_all_ones_byte() {
    assert_eq!(TOMBSTONE, 0xff);
}
