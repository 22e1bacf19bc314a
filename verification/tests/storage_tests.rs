use nft_mint::address::Address;
use nft_mint::registry::Configuration;
use nft_mint::storage::{pack, unpack, ACCOUNT_LEN, HEADER_LEN};

const HEADER: [u8; 8] = [192, 79, 172, 30, 21, 173, 25, 43];

fn record() -> Configuration {
    let mut owner = [1u8; 32];
    owner[0] = 200;
    Configuration {
        owner: Address::new(owner),
        update_authority: Address::new([2u8; 32]),
        nft_count: 0x0102_0304_0506_0708,
    }
}

fn stored() -> Vec<u8> {
    let mut bytes: Vec<u8> = HEADER.to_vec();
    bytes.push(200);
    bytes.extend_from_slice(&[1u8; 31]);
    bytes.extend_from_slice(&[2u8; 32]);
    bytes.extend_from_slice(&[8, 7, 6, 5, 4, 3, 2, 1]);
    bytes
}

#[test]
fn account_holds_header_and_record() {
    assert_eq!(HEADER_LEN, 8);
    assert_eq!(ACCOUNT_LEN, 80);
    assert_eq!(ACCOUNT_LEN, HEADER_LEN + Configuration::LEN);
}

#[test]
fn record_is_stored_field_by_field() {
    assert_eq!(pack(&record(), &HEADER), stored());
    let fresh = Configuration {
        owner: Address::new([9u8; 32]),
        update_authority: Address::new([0u8; 32]),
        nft_count: 0,
    };
    let mut bytes = vec![0u8; 8];
    bytes.extend_from_slice(&[9u8; 32]);
    bytes.extend_from_slice(&[0u8; 40]);
    assert_eq!(pack(&fresh, &[0u8; 8]), bytes);
}

#[test]
fn stored_record_is_read_back() {
    assert_eq!(unpack(&stored(), &HEADER), Some(record()));
    assert_eq!(unpack(&pack(&record(), &HEADER), &HEADER), Some(record()));
    let last = Configuration { nft_count: u64::MAX, ..record() };
    assert_eq!(unpack(&pack(&last, &HEADER), &HEADER), Some(last));
}

#[test]
fn bytes_after_the_record_are_not_read() {
    let mut bytes = stored();
    bytes.extend_from_slice(&[77u8; 5]);
    assert_eq!(unpack(&bytes, &HEADER), Some(record()));
}

#[test]
fn short_account_holds_no_record() {
    let bytes = stored();
    assert_eq!(unpack(&bytes[..79], &HEADER), None);
    assert_eq!(unpack(&[], &HEADER), None);
    assert_eq!(unpack(&HEADER, &HEADER), None);
}

#[test]
fn other_header_holds_no_record() {
    let mut other = HEADER;
    other[7] = 44;
    assert_eq!(unpack(&stored(), &other), None);
    let mut bytes = stored();
    bytes[0] = 0;
    assert_eq!(unpack(&bytes, &HEADER), None);
    assert_eq!(unpack(&vec![0u8; 80], &HEADER), None);
    assert_eq!(
        unpack(&vec![0u8; 80], &[0u8; 8]),
        Some(Configuration {
            owner: Address::new([0u8; 32]),
            update_authority: Address::new([0u8; 32]),
            nft_count: 0,
        })
    );
}
