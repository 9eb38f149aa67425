//! Tests for buffer canonicalization and the field-element encoding.

use deposit_proof::encode::canonicalize32;
use deposit_proof::field::FIELD_MODULUS;
use deposit_proof::inputs::{build_public_inputs, DepositAttributes};

#[test]
fn short_buffer_is_zero_padded_on_the_right() {
    let b = vec![1u8, 2, 3];
    let c = canonicalize32(&b);
    let mut expected = vec![1u8, 2, 3];
    expected.extend(std::iter::repeat(0u8).take(29));
    assert_eq!(c, expected);
}

#[test]
fn long_buffer_is_truncated_to_first_32_bytes() {
    let b: Vec<u8> = (0u8..40).collect();
    let c = canonicalize32(&b);
    let expected: Vec<u8> = (0u8..32).collect();
    assert_eq!(c, expected);
}

#[test]
fn empty_buffer_becomes_all_zeros() {
    let c = canonicalize32(&Vec::new());
    assert_eq!(c, vec![0u8; 32]);
}

#[test]
fn exact_buffer_is_unchanged() {
    let b = vec![0xABu8; 32];
    assert_eq!(canonicalize32(&b), b);
}

#[test]
fn canonicalization_is_deterministic() {
    let b = vec![9u8, 8, 7, 6, 5];
    assert_eq!(canonicalize32(&b), canonicalize32(&b));
}

#[test]
fn elements_follow_the_fixed_order() {
    let tx = vec![0x00u8; 32];
    let bh = vec![0x11u8; 32];
    let rc = vec![0x22u8; 32];
    let mr = vec![0x33u8; 32];
    let p = build_public_inputs(1000, 30, &tx, &bh, &rc, &mr);
    let elements = p.to_elements();
    assert_eq!(elements.len(), 18);
    assert_eq!(elements[0], 1000);
    assert_eq!(elements[1], 30);
    for i in 2..6 {
        assert_eq!(elements[i], 0);
    }
    for i in 6..10 {
        assert_eq!(elements[i], 0x1111_1111_1111_1111);
    }
    for i in 10..14 {
        assert_eq!(elements[i], 0x2222_2222_2222_2222);
    }
    for i in 14..18 {
        assert_eq!(elements[i], 0x3333_3333_3333_3333);
    }
}

#[test]
fn windows_are_read_little_endian() {
    let mut tx = vec![0u8; 32];
    tx[0] = 0x01;
    tx[7] = 0x02;
    tx[8] = 0xFF;
    let p = build_public_inputs(800, 0, &tx, &vec![0u8; 32], &vec![0u8; 32], &vec![0u8; 32]);
    let elements = p.to_elements();
    assert_eq!(elements[2], 0x0200_0000_0000_0001);
    assert_eq!(elements[3], 0x0000_0000_0000_00FF);
}

#[test]
fn amount_is_reduced_into_the_field() {
    let zeros = vec![0u8; 32];
    let p = build_public_inputs(u64::MAX, 0, &zeros, &zeros, &zeros, &zeros);
    let elements = p.to_elements();
    assert_eq!(elements[0], u64::MAX - FIELD_MODULUS);
    assert_eq!(elements[0], 4294967294);
}

#[test]
fn window_at_modulus_wraps_to_zero() {
    let mut tx = vec![0u8; 32];
    tx[..8].copy_from_slice(&FIELD_MODULUS.to_le_bytes());
    let p = build_public_inputs(800, 0, &tx, &vec![0u8; 32], &vec![0u8; 32], &vec![0u8; 32]);
    assert_eq!(p.to_elements()[2], 0);
}

#[test]
fn attributes_canonicalize_like_the_facades() {
    let attrs = DepositAttributes {
        amount: 2500,
        term: 12,
        tx_hash: vec![0x01u8; 3],
        block_hash: vec![0x02u8; 64],
        recipient: vec![0x03u8; 32],
        merkle_root: Vec::new(),
    };
    let p = attrs.canonicalize();
    let q = build_public_inputs(
        2500,
        12,
        &attrs.tx_hash,
        &attrs.block_hash,
        &attrs.recipient,
        &attrs.merkle_root,
    );
    assert_eq!(p.to_elements(), q.to_elements());
    assert_eq!(p.tx_hash.len(), 32);
    assert_eq!(p.block_hash, vec![0x02u8; 32]);
}

#[test]
fn short_and_padded_buffers_encode_identically() {
    let short = vec![0xAAu8; 7];
    let mut padded = vec![0xAAu8; 7];
    padded.extend(std::iter::repeat(0u8).take(25));
    let zeros = vec![0u8; 32];
    let p1 = build_public_inputs(900, 5, &short, &zeros, &zeros, &zeros);
    let p2 = build_public_inputs(900, 5, &padded, &zeros, &zeros, &zeros);
    assert_eq!(p1.to_elements(), p2.to_elements());
}
