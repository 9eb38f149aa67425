//! The algebraic constraint system (AIR) for a deposit, as plain data plus
//! pure evaluation functions.
//!
//! There is one degree-1 transition constraint per column: for each
//! attribute column `trace[c, row+1] - trace[c, row] = 0`, stating that the
//! encoded attributes do not change across the trace, and for the counter
//! column `trace[c, row+1] - (trace[c, row] + 1) = 0`. Each attribute column
//! carries a boundary assertion at row 0, `trace[c, 0] == PublicInputs[c]` —
//! the binding step that forces the committed trace to match the attributes
//! the verifier supplies — and the counter is anchored at zero. The fixed
//! proof parameters the backend is driven with live here too.

use vstd::prelude::*;

use crate::field::{fe_incr, fe_incr_spec, fe_sub, fe_sub_spec, fe_reduced};
use crate::inputs::PublicInputs;
use crate::trace::{COUNTER_COLUMN, TRACE_WIDTH};

verus! {

/// How a batch of polynomials is combined by the backend.
#[derive(Clone, Copy, PartialEq, Eq, Structural, Debug)]
pub enum BatchingKind {
    Linear,
    Algebraic,
}

/// The immutable proof-parameter bundle. It is fixed by the system, not
/// caller-configurable, and the same bundle drives generation and
/// verification.
#[derive(Clone, Copy, PartialEq, Eq, Structural, Debug)]
pub struct ProofOptions {
    pub num_queries: usize,
    pub blowup_factor: usize,
    pub grinding_factor: u32,
    pub field_extension_degree: usize,
    pub fri_folding_factor: usize,
    pub fri_remainder_max_degree: usize,
    pub constraint_batching: BatchingKind,
    pub deep_batching: BatchingKind,
}

/// Whether an options bundle is the system's fixed configuration: 32 queries,
/// blowup 8, no grinding, a quadratic field extension, FRI folding 8 with
/// remainder degree at most 31, linear batching throughout. The 32 queries
/// over a blowup-8 domain contribute 96 conjectured bits and the extension
/// lifts the field contribution to 128, so the bundle clears the 95-bit
/// acceptance policy; over the 64-bit base field alone no bundle could.
pub open spec fn is_fixed_options(o: ProofOptions) -> bool {
    &&& o.num_queries == 32
    &&& o.blowup_factor == 8
    &&& o.grinding_factor == 0
    &&& o.field_extension_degree == 2
    &&& o.fri_folding_factor == 8
    &&& o.fri_remainder_max_degree == 31
    &&& o.constraint_batching is Linear
    &&& o.deep_batching is Linear
}

/// The parameter bundle used for every proof.
pub fn fixed_proof_options() -> (o: ProofOptions)
    ensures
        is_fixed_options(o),
{
    ProofOptions {
        num_queries: 32,
        blowup_factor: 8,
        grinding_factor: 0,
        field_extension_degree: 2,
        fri_folding_factor: 8,
        fri_remainder_max_degree: 31,
        constraint_batching: BatchingKind::Linear,
        deep_batching: BatchingKind::Linear,
    }
}

/// The minimum conjectured security (in bits) a proof must offer to be
/// accepted at verification time.
pub const MIN_CONJECTURED_SECURITY: u32 = 95;

/// A required exact value at one trace cell.
#[derive(Clone, Copy, PartialEq, Eq, Structural, Debug)]
pub struct BoundaryAssertion {
    pub column: usize,
    pub step: usize,
    pub value: u64,
}

/// The constraint system for one deposit: the canonical public inputs it
/// binds, and the options the proof is parameterized with.
pub struct DepositAir {
    pub pub_inputs: PublicInputs,
    pub options: ProofOptions,
}

impl DepositAir {
    /// Well-formedness: canonical inputs and the fixed parameter bundle.
    pub open spec fn wf(self) -> bool {
        self.pub_inputs.wf() && is_fixed_options(self.options)
    }

    /// Builds the constraint system for the given canonical deposit.
    pub fn new(pub_inputs: PublicInputs, options: ProofOptions) -> (air: DepositAir)
        ensures
            air.pub_inputs == pub_inputs,
            air.options == options,
    {
        DepositAir { pub_inputs, options }
    }

    /// The boundary assertions, all at row 0: one per attribute column,
    /// equal to the matching public-input element — the binding step — and
    /// one anchoring the counter column at zero.
    pub fn get_assertions(&self) -> (r: Vec<BoundaryAssertion>)
        requires
            self.pub_inputs.wf(),
        ensures
            r@.len() == TRACE_WIDTH,
            forall|c: int|
                0 <= c < COUNTER_COLUMN ==> (#[trigger] r@[c]).column == c && r@[c].step == 0
                    && r@[c].value == self.pub_inputs.spec_elements()[c],
            r@[COUNTER_COLUMN as int].column == COUNTER_COLUMN,
            r@[COUNTER_COLUMN as int].step == 0,
            r@[COUNTER_COLUMN as int].value == 0,
    {
        let elements = self.pub_inputs.to_elements();
        let mut r: Vec<BoundaryAssertion> = Vec::new();
        let mut c: usize = 0;
        while c < 18
            invariant
                c <= 18,
                elements@ == self.pub_inputs.spec_elements(),
                elements@.len() == 18,
                r@.len() == c,
                forall|j: int|
                    0 <= j < c ==> (#[trigger] r@[j]).column == j && r@[j].step == 0 && r@[j].value
                        == self.pub_inputs.spec_elements()[j],
            decreases 18 - c,
        {
            r.push(BoundaryAssertion { column: c, step: 0, value: elements[c] });
            c += 1;
        }
        r.push(BoundaryAssertion { column: COUNTER_COLUMN, step: 0, value: 0 });
        r
    }

    /// Evaluates the transition constraints on a pair of consecutive rows:
    /// for each attribute column the field difference `current[c] - next[c]`
    /// — zero exactly when the encoded attributes do not change — and for
    /// the counter column `next - (current + 1)`, zero exactly when the
    /// counter advances by one.
    pub fn evaluate_transition(&self, current: &Vec<u64>, next: &Vec<u64>) -> (r: Vec<u64>)
        requires
            current@.len() == TRACE_WIDTH,
            next@.len() == TRACE_WIDTH,
            forall|c: int| 0 <= c < TRACE_WIDTH ==> fe_reduced(#[trigger] current@[c]),
            forall|c: int| 0 <= c < TRACE_WIDTH ==> fe_reduced(#[trigger] next@[c]),
        ensures
            r@.len() == TRACE_WIDTH,
            forall|c: int|
                0 <= c < COUNTER_COLUMN ==> #[trigger] r@[c] == fe_sub_spec(
                    current@[c],
                    next@[c],
                ),
            r@[COUNTER_COLUMN as int] == fe_sub_spec(
                next@[COUNTER_COLUMN as int],
                fe_incr_spec(current@[COUNTER_COLUMN as int]),
            ),
    {
        let mut r: Vec<u64> = Vec::new();
        let mut c: usize = 0;
        while c < 18
            invariant
                c <= 18,
                current@.len() == 19,
                next@.len() == 19,
                forall|j: int| 0 <= j < 19 ==> fe_reduced(#[trigger] current@[j]),
                forall|j: int| 0 <= j < 19 ==> fe_reduced(#[trigger] next@[j]),
                r@.len() == c,
                forall|j: int|
                    0 <= j < c ==> #[trigger] r@[j] == fe_sub_spec(current@[j], next@[j]),
            decreases 18 - c,
        {
            r.push(fe_sub(current[c], next[c]));
            c += 1;
        }
        r.push(fe_sub(next[COUNTER_COLUMN], fe_incr(current[COUNTER_COLUMN])));
        r
    }
}

} // verus!
