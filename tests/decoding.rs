use bottle::layout::{decode_bottle, read_i64_le, read_key, read_le, MESSAGE_OFFSET};
use bottle::program::BottleState;
use bottle::selector::calculate_discriminator;

fn encoded(disc: [u8; 8], state: u8, message: &[u8], declared_len: u32) -> Vec<u8> {
    let mut d = Vec::new();
    d.extend_from_slice(&disc);
    d.extend_from_slice(&1_700_000_000_123u64.to_le_bytes());
    d.extend_from_slice(&[7u8; 32]);
    d.extend_from_slice(&(-5i64).to_le_bytes());
    d.push(state);
    d.extend_from_slice(&2_000_000_000u64.to_le_bytes());
    d.extend_from_slice(&[8u8; 32]);
    d.push(253);
    d.extend_from_slice(&declared_len.to_le_bytes());
    d.extend_from_slice(message);
    d
}

#[test]
fn decodes_every_field() {
    let disc = calculate_discriminator("account:Bottle");
    let mut data = encoded(disc, 1, "hello".as_bytes(), 5);
    data.extend_from_slice(&[0u8; 20]);
    let b = decode_bottle(&data, &disc).unwrap();
    assert_eq!(b.id, 1_700_000_000_123);
    assert_eq!(b.sender, [7u8; 32]);
    assert_eq!(b.timestamp, -5);
    assert_eq!(b.state, BottleState::Retrieved);
    assert_eq!(b.asset, 2_000_000_000);
    assert_eq!(b.asset_account, [8u8; 32]);
    assert_eq!(b.bump, 253);
    assert_eq!(b.message, "hello");
}

#[test]
fn decodes_drifting_and_empty_message() {
    let disc = calculate_discriminator("account:Bottle");
    let data = encoded(disc, 0, b"", 0);
    assert_eq!(data.len(), MESSAGE_OFFSET);
    let b = decode_bottle(&data, &disc).unwrap();
    assert_eq!(b.state, BottleState::Drifting);
    assert_eq!(b.message, "");
}

#[test]
fn rejects_malformed_data() {
    let disc = calculate_discriminator("account:Bottle");
    let other = calculate_discriminator("account:Bag");
    assert!(decode_bottle(&encoded(other, 0, b"hi", 2), &disc).is_none());
    assert!(decode_bottle(&encoded(disc, 2, b"hi", 2), &disc).is_none());
    assert!(decode_bottle(&encoded(disc, 0, b"hi", 3), &disc).is_none());
    assert!(decode_bottle(&encoded(disc, 0, &[0xff, 0xfe], 2), &disc).is_none());
    let short = encoded(disc, 0, b"", 0);
    assert!(decode_bottle(&short[..MESSAGE_OFFSET - 1], &disc).is_none());
}

#[test]
fn reads_narrow_and_signed_integers() {
    let data = [0x34u8, 0x12, 0, 0, 0xff, 0xff, 0xff, 0xff, 0xff, 0xff, 0xff, 0x7f];
    assert_eq!(read_le(&data, 0, 2), 0x1234);
    assert_eq!(read_le(&data, 0, 0), 0);
    assert_eq!(read_i64_le(&[0xffu8; 8], 0), -1);
    assert_eq!(read_i64_le(&data, 4), i64::MAX);
    assert_eq!(read_i64_le(&[0, 0, 0, 0, 0, 0, 0, 0x80], 0), i64::MIN);
}

#[test]
fn copies_keys() {
    let data: Vec<u8> = (0u8..40).collect();
    let k = read_key(&data, 3);
    assert_eq!(k[0], 3);
    assert_eq!(k[31], 34);
}
