//! Tests for the prover and verifier façades: the eligibility threshold, the
//! prepared requests, and the outcome mappings.

use deposit_proof::air::{fixed_proof_options, BatchingKind, DepositAir};
use deposit_proof::deposit::{
    finish_decode, finish_prove, finish_verify, prepare_prove, prepare_verify, DepositError,
    MIN_DEPOSIT,
};
use deposit_proof::inputs::build_public_inputs;

#[test]
fn amounts_below_the_threshold_are_rejected() {
    let b = vec![0u8; 32];
    for amount in [0u64, 1, 400, 799] {
        let r = prepare_prove(amount, 30, &b, &b, &b, &b);
        assert!(matches!(r, Err(DepositError::BelowMinimum)));
        let v = prepare_verify(vec![1u8, 2, 3], amount, 30, &b, &b, &b, &b);
        assert!(matches!(v, Err(DepositError::BelowMinimum)));
    }
}

#[test]
fn threshold_amount_is_accepted() {
    assert_eq!(MIN_DEPOSIT, 800);
    let b = vec![0u8; 32];
    let r = prepare_prove(800, 30, &b, &b, &b, &b);
    assert!(r.is_ok());
}

#[test]
fn prepared_request_holds_canonical_inputs_and_trace() {
    let tx = vec![0xABu8; 5];
    let bh = vec![0xCDu8; 40];
    let rc = vec![0u8; 32];
    let mr = vec![0xFFu8; 32];
    let req = prepare_prove(5000, 90, &tx, &bh, &rc, &mr).expect("above threshold");
    assert_eq!(req.pub_inputs.amount, 5000);
    assert_eq!(req.pub_inputs.term, 90);
    assert_eq!(req.pub_inputs.tx_hash.len(), 32);
    assert_eq!(&req.pub_inputs.tx_hash[..5], &[0xABu8; 5]);
    assert_eq!(&req.pub_inputs.tx_hash[5..], &[0u8; 27]);
    assert_eq!(req.pub_inputs.block_hash, vec![0xCDu8; 32]);

    let elements = req.pub_inputs.to_elements();
    assert_eq!(req.trace.columns.len(), 19);
    for (c, col) in req.trace.columns.iter().take(18).enumerate() {
        assert_eq!(col.len(), 8);
        for row in col {
            assert_eq!(*row, elements[c]);
        }
    }
    let counter: Vec<u64> = (0..8).collect();
    assert_eq!(req.trace.columns[18], counter);
}

#[test]
fn prepared_request_uses_the_fixed_options() {
    let b = vec![0u8; 32];
    let req = prepare_prove(800, 1, &b, &b, &b, &b).expect("above threshold");
    assert_eq!(req.options.num_queries, 32);
    assert_eq!(req.options.blowup_factor, 8);
    assert_eq!(req.options.grinding_factor, 0);
    assert_eq!(req.options.field_extension_degree, 2);
    assert_eq!(req.options.fri_folding_factor, 8);
    assert_eq!(req.options.fri_remainder_max_degree, 31);
    assert_eq!(req.options.constraint_batching, BatchingKind::Linear);
    assert_eq!(req.options.deep_batching, BatchingKind::Linear);
}

#[test]
fn air_assertions_bind_the_public_inputs() {
    let tx = vec![0x44u8; 32];
    let bh = vec![0x55u8; 32];
    let rc = vec![0x66u8; 32];
    let mr = vec![0x77u8; 32];
    let p = build_public_inputs(1234, 56, &tx, &bh, &rc, &mr);
    let elements = p.to_elements();
    let air = DepositAir::new(p, fixed_proof_options());
    let assertions = air.get_assertions();
    assert_eq!(assertions.len(), 19);
    for (c, a) in assertions.iter().take(18).enumerate() {
        assert_eq!(a.column, c);
        assert_eq!(a.step, 0);
        assert_eq!(a.value, elements[c]);
    }
    assert_eq!(assertions[18].column, 18);
    assert_eq!(assertions[18].step, 0);
    assert_eq!(assertions[18].value, 0);
}

#[test]
fn transition_constraints_vanish_exactly_on_valid_rows() {
    let b = vec![0x10u8; 32];
    let p = build_public_inputs(800, 2, &b, &b, &b, &b);
    let air = DepositAir::new(p.clone(), fixed_proof_options());
    let mut current = p.to_elements();
    current.push(3);
    let mut next = p.to_elements();
    next.push(4);
    let result = air.evaluate_transition(&current, &next);
    assert_eq!(result, vec![0u64; 19]);

    let mut tampered = next.clone();
    tampered[5] ^= 0xFF;
    let result = air.evaluate_transition(&current, &tampered);
    assert_ne!(result[5], 0);

    let mut stalled = next.clone();
    stalled[18] = 3;
    let result = air.evaluate_transition(&current, &stalled);
    assert_ne!(result[18], 0);
}

#[test]
fn verification_request_carries_the_proof_bytes_unchanged() {
    let b = vec![0u8; 32];
    let bytes = vec![0x01u8, 0x02, 0x03, 0x04];
    let req = prepare_verify(bytes.clone(), 1000, 30, &b, &b, &b, &b).expect("above threshold");
    assert_eq!(req.proof_bytes, bytes);
    assert_eq!(req.min_security, 95);
    assert_eq!(req.pub_inputs.amount, 1000);
}

#[test]
fn failed_decode_surfaces_as_decode_error() {
    let r: Result<u8, DepositError> = finish_decode(None);
    assert!(matches!(r, Err(DepositError::ProofDecodeError)));
    let r = finish_decode(Some(7u8));
    assert_eq!(r, Ok(7));
}

#[test]
fn threshold_is_checked_before_proof_decoding() {
    let b = vec![0u8; 32];
    let garbage = vec![0xDEu8, 0xAD];
    let r = prepare_verify(garbage, 799, 30, &b, &b, &b, &b);
    assert!(matches!(r, Err(DepositError::BelowMinimum)));
}

#[test]
fn backend_failure_maps_to_prover_error() {
    let r = finish_prove(Err("backend exploded".to_string()));
    assert_eq!(r, Err(DepositError::ProverBackendError("backend exploded".to_string())));
    let ok = finish_prove(Ok(vec![1u8, 2, 3]));
    assert_eq!(ok, Ok(vec![1u8, 2, 3]));
}

#[test]
fn every_backend_outcome_collapses_to_a_boolean() {
    assert_eq!(finish_verify(true), Ok(true));
    assert_eq!(finish_verify(false), Ok(false));
}
