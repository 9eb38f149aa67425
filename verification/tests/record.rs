//! Tests for the persisted proof record boundary: lossless hex encoding of
//! the buffer and proof fields, and the "no proof available" rule.

use deposit_proof::record::{
    decode_attribute_buffers, decode_proof_field, encode_record, ProofRecord,
};

fn sample_record() -> ProofRecord {
    ProofRecord {
        amount: "1000".to_string(),
        term: "30".to_string(),
        tx_hash: "00ff10".to_string(),
        block_hash: "a1b2c3d4".to_string(),
        recipient: "".to_string(),
        merkle_root: "ABCDEF".to_string(),
        proof_hex: Some("0102030405".to_string()),
    }
}

#[test]
fn record_encodes_buffers_as_lowercase_hex() {
    let tx = vec![0xABu8, 0x01];
    let bh = vec![0x00u8];
    let rc = Vec::new();
    let mr = vec![0xFFu8, 0x10, 0x00];
    let rec = encode_record(
        "1000".to_string(),
        "30".to_string(),
        &tx,
        &bh,
        &rc,
        &mr,
        None,
    );
    assert_eq!(rec.amount, "1000");
    assert_eq!(rec.term, "30");
    assert_eq!(rec.tx_hash, "ab01");
    assert_eq!(rec.block_hash, "00");
    assert_eq!(rec.recipient, "");
    assert_eq!(rec.merkle_root, "ff1000");
    assert!(rec.proof_hex.is_none());
}

#[test]
fn record_round_trips_buffers_and_proof() {
    let tx = vec![0x00u8, 0x11, 0x22];
    let bh = vec![0xDEu8, 0xAD];
    let rc = vec![0x01u8];
    let mr = vec![0xFEu8; 32];
    let proof = vec![9u8, 8, 7, 6];
    let rec = encode_record(
        "800".to_string(),
        "1".to_string(),
        &tx,
        &bh,
        &rc,
        &mr,
        Some(&proof),
    );
    let buffers = decode_attribute_buffers(&rec).expect("valid hex must decode");
    assert_eq!(buffers.tx_hash, tx);
    assert_eq!(buffers.block_hash, bh);
    assert_eq!(buffers.recipient, rc);
    assert_eq!(buffers.merkle_root, mr);
    assert_eq!(decode_proof_field(&rec), Some(proof));
}

#[test]
fn mixed_case_hex_is_accepted() {
    let rec = sample_record();
    let buffers = decode_attribute_buffers(&rec).expect("valid hex must decode");
    assert_eq!(buffers.tx_hash, vec![0x00u8, 0xFF, 0x10]);
    assert_eq!(buffers.block_hash, vec![0xA1u8, 0xB2, 0xC3, 0xD4]);
    assert_eq!(buffers.recipient, Vec::<u8>::new());
    assert_eq!(buffers.merkle_root, vec![0xABu8, 0xCD, 0xEF]);
}

#[test]
fn invalid_buffer_hex_rejects_the_record() {
    let mut rec = sample_record();
    rec.recipient = "zz".to_string();
    assert!(decode_attribute_buffers(&rec).is_none());
    let mut rec = sample_record();
    rec.tx_hash = "abc".to_string();
    assert!(decode_attribute_buffers(&rec).is_none());
}

#[test]
fn missing_proof_field_means_no_proof() {
    let mut rec = sample_record();
    rec.proof_hex = None;
    assert_eq!(decode_proof_field(&rec), None);
}

#[test]
fn undecodable_proof_field_means_no_proof() {
    let mut rec = sample_record();
    rec.proof_hex = Some("not hex".to_string());
    assert_eq!(decode_proof_field(&rec), None);
    let mut rec = sample_record();
    rec.proof_hex = Some("123".to_string());
    assert_eq!(decode_proof_field(&rec), None);
}

#[test]
fn valid_proof_field_decodes() {
    let rec = sample_record();
    assert_eq!(decode_proof_field(&rec), Some(vec![1u8, 2, 3, 4, 5]));
}
