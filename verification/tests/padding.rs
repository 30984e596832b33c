//! Round trips and exact forms of the per-field-element padding scheme.

use eigenda_exex::pad::{pad_payload, unpad_payload};

fn roundtrip(len: usize) {
    let data: Vec<u8> = (0..len).map(|i| (i % 251) as u8).collect();
    let padded = pad_payload(&data);
    let recovered = unpad_payload(&padded);
    assert_eq!(recovered, data);
}

#[test]
fn roundtrip_empty() {
    roundtrip(0);
}

#[test]
fn roundtrip_one_byte() {
    roundtrip(1);
}

#[test]
fn roundtrip_element_minus_one() {
    // one byte short of the payload capacity of one element
    roundtrip(30);
}

#[test]
fn roundtrip_element_payload() {
    // exactly one element's payload
    roundtrip(31);
}

#[test]
fn roundtrip_element_size() {
    roundtrip(32);
}

#[test]
fn roundtrip_element_plus_one() {
    roundtrip(33);
}

#[test]
fn roundtrip_two_elements() {
    roundtrip(62);
}

#[test]
fn roundtrip_large() {
    roundtrip(1000);
}

#[test]
fn pad_exact_small() {
    let data = vec![1u8, 2, 3];
    assert_eq!(pad_payload(&data), vec![0u8, 1, 2, 3]);
}

#[test]
fn pad_exact_two_chunks() {
    let data: Vec<u8> = (1..=32).collect();
    let mut expected: Vec<u8> = vec![0];
    expected.extend(1..=31u8);
    expected.push(0);
    expected.push(32);
    assert_eq!(pad_payload(&data), expected);
}

#[test]
fn pad_of_empty_is_empty() {
    let data: Vec<u8> = Vec::new();
    assert_eq!(pad_payload(&data), Vec::<u8>::new());
}

#[test]
fn unpad_drops_reserved_bytes() {
    // unpadding is not the identity: the reserved byte of each element goes
    let padded = vec![9u8, 1, 2, 3];
    assert_eq!(unpad_payload(&padded), vec![1u8, 2, 3]);
    let full: Vec<u8> = (0..32).collect();
    let unpadded = unpad_payload(&full);
    assert_eq!(unpadded.len(), 31);
    assert_eq!(unpadded, (1..32).collect::<Vec<u8>>());
}
