//! The prover and verifier façades.
//!
//! Both operations first enforce the minimum-amount eligibility rule, then
//! canonicalize the attribute buffers and derive the public inputs in exactly
//! the same way. Generation additionally builds the trace. The cryptographic
//! backend itself is an external collaborator: it consumes a fully prepared
//! request — decoding the verification request's proof bytes is part of its
//! work — and each of its outcomes is mapped back here, so that every
//! decision — which inputs are rejected, which errors surface, and how a
//! backend outcome collapses to a boolean — is made by this module.

use vstd::prelude::*;

use crate::air::{fixed_proof_options, is_fixed_options, ProofOptions, MIN_CONJECTURED_SECURITY};
use crate::inputs::{build_public_inputs, is_canonical_inputs, PublicInputs};
use crate::trace::{build_trace, trace_columns, Trace};

verus! {

/// The minimum deposit amount accepted by both façades.
pub const MIN_DEPOSIT: u64 = 800;

/// The errors either façade can raise. Every deeper cryptographic rejection
/// is collapsed to a boolean `false` instead, by design, so that a verifier
/// cannot tell which check failed.
#[derive(Debug, PartialEq, Eq)]
pub enum DepositError {
    /// The amount is under the eligibility threshold; raised before any
    /// cryptographic work, under the same rule in both façades.
    BelowMinimum,
    /// The backend could not construct the proof; carries its diagnostic
    /// message.
    ProverBackendError(String),
    /// The supplied bytes are not a well-formed serialized proof; distinct
    /// from a semantically invalid proof.
    ProofDecodeError,
}

/// Everything the backend needs to construct a proof: the trace, the
/// canonical public inputs it must bind, and the fixed parameters.
pub struct ProveRequest {
    pub trace: Trace,
    pub pub_inputs: PublicInputs,
    pub options: ProofOptions,
}

/// Everything the backend needs to check a proof: the serialized proof
/// bytes, carried through unchanged for the backend to decode, the canonical
/// public inputs rebuilt from the caller-asserted attributes, and the
/// minimum conjectured security (in bits) the proof must offer.
pub struct VerifyRequest {
    pub proof_bytes: Vec<u8>,
    pub pub_inputs: PublicInputs,
    pub min_security: u32,
}

/// Validates and prepares a proof-generation request: rejects an amount
/// under the threshold before any other work, then canonicalizes the buffers
/// and builds the public inputs and the trace.
pub fn prepare_prove(
    amount: u64,
    term: u32,
    tx_hash: &Vec<u8>,
    block_hash: &Vec<u8>,
    recipient: &Vec<u8>,
    merkle_root: &Vec<u8>,
) -> (r: Result<ProveRequest, DepositError>)
    ensures
        r is Ok <==> amount >= MIN_DEPOSIT,
        r is Err ==> r->Err_0 is BelowMinimum,
        r is Ok ==> ({
            let req = r->Ok_0;
            &&& is_canonical_inputs(
                req.pub_inputs,
                amount,
                term,
                tx_hash@,
                block_hash@,
                recipient@,
                merkle_root@,
            )
            &&& req.pub_inputs.wf()
            &&& req.trace.matrix() == trace_columns(req.pub_inputs)
            &&& req.trace.wf()
            &&& is_fixed_options(req.options)
        }),
{
    if amount < MIN_DEPOSIT {
        return Err(DepositError::BelowMinimum);
    }
    let pub_inputs = build_public_inputs(amount, term, tx_hash, block_hash, recipient, merkle_root);
    let trace = build_trace(&pub_inputs);
    let options = fixed_proof_options();
    Ok(ProveRequest { trace, pub_inputs, options })
}

/// Maps the backend's proof-construction outcome to the façade's result: the
/// serialized proof bytes on success, `ProverBackendError` with the
/// backend's message on failure.
pub fn finish_prove(outcome: Result<Vec<u8>, String>) -> (r: Result<Vec<u8>, DepositError>)
    ensures
        outcome is Ok <==> r is Ok,
        outcome is Ok ==> r->Ok_0@ == outcome->Ok_0@,
        outcome is Err ==> r->Err_0 is ProverBackendError && r->Err_0->ProverBackendError_0@
            == outcome->Err_0@,
{
    match outcome {
        Ok(bytes) => Ok(bytes),
        Err(message) => Err(DepositError::ProverBackendError(message)),
    }
}

/// Validates and prepares a verification request: rejects an amount under
/// the threshold under the same rule as generation, before any other work,
/// and rebuilds the public inputs from the caller-asserted attributes —
/// never from the proof. The proof bytes are carried through unchanged; the
/// backend decodes them, and `finish_decode` maps its failure to the decode
/// error.
pub fn prepare_verify(
    proof_bytes: Vec<u8>,
    amount: u64,
    term: u32,
    tx_hash: &Vec<u8>,
    block_hash: &Vec<u8>,
    recipient: &Vec<u8>,
    merkle_root: &Vec<u8>,
) -> (r: Result<VerifyRequest, DepositError>)
    ensures
        r is Ok <==> amount >= MIN_DEPOSIT,
        r is Err ==> r->Err_0 is BelowMinimum,
        r is Ok ==> ({
            let req = r->Ok_0;
            &&& req.proof_bytes@ == proof_bytes@
            &&& is_canonical_inputs(
                req.pub_inputs,
                amount,
                term,
                tx_hash@,
                block_hash@,
                recipient@,
                merkle_root@,
            )
            &&& req.pub_inputs.wf()
            &&& req.min_security == MIN_CONJECTURED_SECURITY
        }),
{
    if amount < MIN_DEPOSIT {
        return Err(DepositError::BelowMinimum);
    }
    let pub_inputs = build_public_inputs(amount, term, tx_hash, block_hash, recipient, merkle_root);
    Ok(VerifyRequest { proof_bytes, pub_inputs, min_security: MIN_CONJECTURED_SECURITY })
}

/// Maps the backend's proof-decoding outcome to the façade's result: the
/// decoded proof on success, `ProofDecodeError` when the bytes were not a
/// well-formed serialized proof. The error carries no detail, by design:
/// a malformed proof is only ever distinguished from a semantically invalid
/// one.
pub fn finish_decode<T>(outcome: Option<T>) -> (r: Result<T, DepositError>)
    ensures
        outcome is Some <==> r is Ok,
        outcome is Some ==> r->Ok_0 == outcome->Some_0,
        outcome is None ==> r->Err_0 is ProofDecodeError,
{
    match outcome {
        Some(decoded) => Ok(decoded),
        None => Err(DepositError::ProofDecodeError),
    }
}

/// Collapses the backend's verification outcome to the façade's result:
/// `Ok(true)` when the proof was accepted and `Ok(false)` for every
/// rejection, so that a wrong Merkle root, a failed query and an
/// insufficient security level are indistinguishable.
pub fn finish_verify(accepted: bool) -> (r: Result<bool, DepositError>)
    ensures
        r is Ok && r->Ok_0 == accepted,
{
    Ok(accepted)
}

} // verus!
