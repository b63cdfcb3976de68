use sha2::{Digest, Sha256};

use bottle::layout::{read_u64_le, ID_OFFSET, STATE_OFFSET};
use bottle::selector::{calculate_discriminator, is_drifting_record, oldest_by_id, oldest_drifting};

fn record(disc: [u8; 8], id: u64, state: u8) -> Vec<u8> {
    let mut d = Vec::new();
    d.extend_from_slice(&disc);
    d.extend_from_slice(&id.to_le_bytes());
    d.extend_from_slice(&[4u8; 32]);
    d.extend_from_slice(&123i64.to_le_bytes());
    d.push(state);
    d.extend_from_slice(&[0u8; 50]);
    d
}

#[test]
fn discriminator_is_digest_prefix() {
    // SHA-256("abc") = ba7816bf 8f01cfea ...
    assert_eq!(
        calculate_discriminator("abc"),
        [0xba, 0x78, 0x16, 0xbf, 0x8f, 0x01, 0xcf, 0xea]
    );
}

#[test]
fn bottle_discriminator_matches_sha2() {
    let h = Sha256::digest(b"account:Bottle");
    assert_eq!(calculate_discriminator("account:Bottle")[..], h[..8]);
}

#[test]
fn reads_little_endian() {
    let data = [0u8, 0x01, 0x02, 0, 0, 0, 0, 0, 0, 0xff];
    assert_eq!(read_u64_le(&data, 1), 0x0201);
    let max = [0xffu8; 8];
    assert_eq!(read_u64_le(&max, 0), u64::MAX);
}

#[test]
fn layout_offsets() {
    let disc = calculate_discriminator("account:Bottle");
    let d = record(disc, 500, 0);
    assert_eq!(read_u64_le(&d, ID_OFFSET), 500);
    assert_eq!(d[STATE_OFFSET], 0);
    assert!(is_drifting_record(&d, &disc));
    assert!(!is_drifting_record(&record(disc, 500, 1), &disc));
    assert!(!is_drifting_record(&record([0; 8], 500, 0), &disc));
    assert!(!is_drifting_record(&d[..STATE_OFFSET], &disc));
}

#[test]
fn picks_smallest_id() {
    assert_eq!(oldest_by_id(&vec![500, 200, 800]), Some(1));
    assert_eq!(oldest_by_id(&vec![]), None);
    assert_eq!(oldest_by_id(&vec![3, 1, 1]), Some(1));
}

#[test]
fn picks_oldest_drifting_record() {
    let disc = calculate_discriminator("account:Bottle");
    let records = vec![record(disc, 500, 0), record(disc, 200, 0), record(disc, 800, 0)];
    assert_eq!(oldest_drifting(&records, &disc), Some(1));
}

#[test]
fn skips_retrieved_and_foreign_records() {
    let disc = calculate_discriminator("account:Bottle");
    let bag_disc = calculate_discriminator("account:Bag");
    let records = vec![
        record(disc, 100, 1),
        record(bag_disc, 50, 0),
        record(disc, 900, 0),
        record(disc, 300, 0),
    ];
    assert_eq!(oldest_drifting(&records, &disc), Some(3));
}

#[test]
fn no_drifting_record_gives_none() {
    let disc = calculate_discriminator("account:Bottle");
    assert_eq!(oldest_drifting(&vec![], &disc), None);
    let records = vec![record(disc, 100, 1), record(disc, 200, 1)];
    assert_eq!(oldest_drifting(&records, &disc), None);
}

#[test]
fn prefix_takes_first_eight_bytes() {
    let hash: Vec<u8> = (10u8..42).collect();
    assert_eq!(
        bottle::selector::digest_prefix(&hash),
        [10, 11, 12, 13, 14, 15, 16, 17]
    );
}
