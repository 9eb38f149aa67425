//! The canonical, order-sensitive public-input model shared by the prover and
//! the verifier.
//!
//! A deposit is encoded as exactly 18 field elements in a fixed order:
//! `[amount, term, tx_hash[0..4), block_hash[0..4), recipient[0..4),
//! merkle_root[0..4)]`, where each canonical 32-byte buffer contributes four
//! elements. Proof generation and verification must derive this sequence from
//! the attributes in exactly the same way; any divergence breaks soundness
//! silently rather than producing a decode error.

use vstd::prelude::*;

use crate::encode::{canon32, canonicalize32, encode32, encode32_spec};
use crate::field::{fe_of, fe_reduce};

verus! {

/// The number of field elements a deposit contributes: 2 + 4 * 4.
pub const NUM_ELEMENTS: usize = 18;

/// The raw, caller-supplied description of a deposit. The four buffers may
/// have any length; they are canonicalized to 32 bytes before use.
pub struct DepositAttributes {
    pub amount: u64,
    pub term: u32,
    pub tx_hash: Vec<u8>,
    pub block_hash: Vec<u8>,
    pub recipient: Vec<u8>,
    pub merkle_root: Vec<u8>,
}

impl DepositAttributes {
    /// Brings this deposit into its canonical public-input form.
    pub fn canonicalize(&self) -> (p: PublicInputs)
        ensures
            is_canonical_inputs(
                p,
                self.amount,
                self.term,
                self.tx_hash@,
                self.block_hash@,
                self.recipient@,
                self.merkle_root@,
            ),
            p.wf(),
    {
        build_public_inputs(
            self.amount,
            self.term,
            &self.tx_hash,
            &self.block_hash,
            &self.recipient,
            &self.merkle_root,
        )
    }
}

/// The canonical form of a deposit: the amount, the term, and the four
/// buffers brought to exactly 32 bytes each.
#[derive(Clone)]
pub struct PublicInputs {
    pub amount: u64,
    pub term: u32,
    pub tx_hash: Vec<u8>,
    pub block_hash: Vec<u8>,
    pub recipient: Vec<u8>,
    pub merkle_root: Vec<u8>,
}

impl PublicInputs {
    /// Well-formedness: every buffer is in canonical 32-byte form.
    pub open spec fn wf(self) -> bool {
        self.tx_hash@.len() == 32 && self.block_hash@.len() == 32 && self.recipient@.len() == 32
            && self.merkle_root@.len() == 32
    }

    /// The 18-element sequence this deposit contributes, in the fixed order.
    pub open spec fn spec_elements(self) -> Seq<u64> {
        seq![fe_of(self.amount as int), fe_of(self.term as int)] + encode32_spec(self.tx_hash@)
            + encode32_spec(self.block_hash@) + encode32_spec(self.recipient@) + encode32_spec(
            self.merkle_root@,
        )
    }

    /// Encodes this deposit as its canonical field-element sequence.
    pub fn to_elements(&self) -> (r: Vec<u64>)
        requires
            self.wf(),
        ensures
            r@ == self.spec_elements(),
            r@.len() == NUM_ELEMENTS,
    {
        let mut r: Vec<u64> = Vec::new();
        r.push(fe_reduce(self.amount));
        r.push(fe_reduce(self.term as u64));
        let mut tx = encode32(&self.tx_hash);
        let mut bh = encode32(&self.block_hash);
        let mut rc = encode32(&self.recipient);
        let mut mr = encode32(&self.merkle_root);
        r.append(&mut tx);
        r.append(&mut bh);
        r.append(&mut rc);
        r.append(&mut mr);
        assert(r@ =~= self.spec_elements());
        r
    }
}

/// Whether `p` is the canonical form of the given raw attributes.
pub open spec fn is_canonical_inputs(
    p: PublicInputs,
    amount: u64,
    term: u32,
    tx_hash: Seq<u8>,
    block_hash: Seq<u8>,
    recipient: Seq<u8>,
    merkle_root: Seq<u8>,
) -> bool {
    &&& p.amount == amount
    &&& p.term == term
    &&& p.tx_hash@ == canon32(tx_hash)
    &&& p.block_hash@ == canon32(block_hash)
    &&& p.recipient@ == canon32(recipient)
    &&& p.merkle_root@ == canon32(merkle_root)
}

/// Builds the canonical public inputs for the given raw attribute values.
pub fn build_public_inputs(
    amount: u64,
    term: u32,
    tx_hash: &Vec<u8>,
    block_hash: &Vec<u8>,
    recipient: &Vec<u8>,
    merkle_root: &Vec<u8>,
) -> (p: PublicInputs)
    ensures
        is_canonical_inputs(p, amount, term, tx_hash@, block_hash@, recipient@, merkle_root@),
        p.wf(),
{
    PublicInputs {
        amount,
        term,
        tx_hash: canonicalize32(tx_hash),
        block_hash: canonicalize32(block_hash),
        recipient: canonicalize32(recipient),
        merkle_root: canonicalize32(merkle_root),
    }
}

} // verus!
