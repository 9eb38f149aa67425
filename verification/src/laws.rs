//! Relations between the library's components, stated and proved once.
//!
//! The generate and verify façades promise, through their contracts, that
//! each derives its public inputs canonically from the caller's attributes.
//! The lemmas here close the remaining gaps: the canonical derivation is
//! unique, so the two façades agree; the trace the prover commits to
//! satisfies the very constraint system the verifier checks; and
//! canonicalization is exactly truncation or right zero-padding, and is
//! idempotent.

use vstd::prelude::*;

use crate::encode::canon32;
use crate::field::{fe_incr_spec, fe_of, fe_reduced, fe_sub_spec, FIELD_MODULUS};
use crate::inputs::{is_canonical_inputs, PublicInputs};
use crate::trace::{matrix_wf, trace_columns, COUNTER_COLUMN, TRACE_LENGTH, TRACE_WIDTH};

verus! {

/// Whether a trace satisfies every boundary assertion of the deposit's
/// constraint system: each attribute column holds the matching public-input
/// element at row 0, and the counter column starts at zero.
pub open spec fn boundary_assertions_hold(t: Seq<Seq<u64>>, p: PublicInputs) -> bool {
    (forall|c: int| 0 <= c < COUNTER_COLUMN ==> #[trigger] t[c][0] == p.spec_elements()[c])
        && t[COUNTER_COLUMN as int][0] == 0
}

/// Whether a trace satisfies every transition constraint at every row
/// boundary: each attribute column's field difference of consecutive rows is
/// zero, and the counter column advances by one.
pub open spec fn transition_constraints_hold(t: Seq<Seq<u64>>) -> bool {
    (forall|c: int, r: int|
        0 <= c < COUNTER_COLUMN && 0 <= r < TRACE_LENGTH - 1 ==> fe_sub_spec(
            #[trigger] t[c][r],
            t[c][r + 1],
        ) == 0) && forall|r: int|
        0 <= r < TRACE_LENGTH - 1 ==> fe_sub_spec(
            #[trigger] t[COUNTER_COLUMN as int][r + 1],
            fe_incr_spec(t[COUNTER_COLUMN as int][r]),
        ) == 0
}

/// The trace built for a deposit satisfies the constraint system checked
/// against the same deposit: every boundary assertion binds, and every
/// transition constraint evaluates to zero.
pub proof fn lemma_built_trace_satisfies_air(p: PublicInputs)
    ensures
        boundary_assertions_hold(trace_columns(p), p),
        transition_constraints_hold(trace_columns(p)),
{
    let t = trace_columns(p);
    assert forall|c: int| 0 <= c < COUNTER_COLUMN implies #[trigger] t[c][0]
        == p.spec_elements()[c] by {
        let e = p.spec_elements()[c];
        assert(t[c] == Seq::new(8, |r: int| e));
    }
    assert(t[COUNTER_COLUMN as int][0] == 0);
    assert forall|c: int, r: int| 0 <= c < COUNTER_COLUMN && 0 <= r < TRACE_LENGTH - 1 implies
        fe_sub_spec(#[trigger] t[c][r], t[c][r + 1]) == 0 by {
        let e = p.spec_elements()[c];
        assert(t[c][r] == e);
        assert(t[c][r + 1] == e);
        assert(fe_sub_spec(e, e) == fe_of(0));
    }
    assert forall|r: int| 0 <= r < TRACE_LENGTH - 1 implies fe_sub_spec(
        #[trigger] t[COUNTER_COLUMN as int][r + 1],
        fe_incr_spec(t[COUNTER_COLUMN as int][r]),
    ) == 0 by {
        assert(t[COUNTER_COLUMN as int][r] == r as u64);
        assert(t[COUNTER_COLUMN as int][r + 1] == (r + 1) as u64);
        assert(fe_incr_spec(r as u64) == (r + 1) as u64);
    }
}

/// A vanishing field difference of canonical elements means equality.
proof fn lemma_fe_sub_zero(a: u64, b: u64)
    requires
        fe_reduced(a),
        fe_reduced(b),
        fe_sub_spec(a, b) == 0,
    ensures
        a == b,
{
    if a >= b {
        assert(fe_of(a - b) == a - b);
    } else {
        assert(fe_of(a - b) == a - b + FIELD_MODULUS);
    }
}

/// In a trace whose transition constraints hold, an attribute column keeps
/// its row-0 value in every row.
proof fn lemma_attribute_column_is_constant(t: Seq<Seq<u64>>, c: int, r: int)
    requires
        matrix_wf(t),
        transition_constraints_hold(t),
        0 <= c < COUNTER_COLUMN,
        0 <= r < TRACE_LENGTH,
    ensures
        t[c][r] == t[c][0],
    decreases r,
{
    if r > 0 {
        lemma_attribute_column_is_constant(t, c, r - 1);
        lemma_fe_sub_zero(t[c][r - 1], t[c][r]);
    }
}

/// In a trace whose constraints hold, the counter column holds the row
/// index.
proof fn lemma_counter_column_counts(t: Seq<Seq<u64>>, r: int)
    requires
        matrix_wf(t),
        t[COUNTER_COLUMN as int][0] == 0,
        transition_constraints_hold(t),
        0 <= r < TRACE_LENGTH,
    ensures
        t[COUNTER_COLUMN as int][r] == r as u64,
    decreases r,
{
    if r > 0 {
        lemma_counter_column_counts(t, r - 1);
        assert(fe_incr_spec((r - 1) as u64) == r as u64);
        lemma_fe_sub_zero(
            t[COUNTER_COLUMN as int][r],
            fe_incr_spec(t[COUNTER_COLUMN as int][r - 1]),
        );
    }
}

/// The constraint system admits exactly the honest trace: a well-formed
/// table that satisfies every boundary assertion and every transition
/// constraint for a deposit is the very table the trace builder writes for
/// it. The boundary assertions thus bind the whole committed trace, not just
/// its first row, to the attributes the verifier supplies.
pub proof fn lemma_constraints_pin_the_trace(t: Seq<Seq<u64>>, p: PublicInputs)
    requires
        matrix_wf(t),
        boundary_assertions_hold(t, p),
        transition_constraints_hold(t),
    ensures
        t == trace_columns(p),
{
    assert forall|c: int, r: int| 0 <= c < TRACE_WIDTH && 0 <= r < TRACE_LENGTH implies
        #[trigger] t[c][r] == trace_columns(p)[c][r] by {
        if c < COUNTER_COLUMN {
            lemma_attribute_column_is_constant(t, c, r);
        } else {
            lemma_counter_column_counts(t, r);
        }
    }
    assert forall|c: int| 0 <= c < TRACE_WIDTH implies #[trigger] t[c] =~= trace_columns(p)[c] by {
        assert(t[c].len() == TRACE_LENGTH);
    }
    assert(t =~~= trace_columns(p));
}

/// The canonical public inputs of a deposit are unique. Generation and
/// verification each promise canonical inputs for the attributes they were
/// handed, so for equal attributes the two façades necessarily encode equal
/// inputs — the property the soundness of the whole scheme rests on.
pub proof fn lemma_facades_agree_on_inputs(
    p1: PublicInputs,
    p2: PublicInputs,
    amount: u64,
    term: u32,
    tx_hash: Seq<u8>,
    block_hash: Seq<u8>,
    recipient: Seq<u8>,
    merkle_root: Seq<u8>,
)
    requires
        is_canonical_inputs(p1, amount, term, tx_hash, block_hash, recipient, merkle_root),
        is_canonical_inputs(p2, amount, term, tx_hash, block_hash, recipient, merkle_root),
    ensures
        p1.spec_elements() == p2.spec_elements(),
{
}

/// A buffer of at least 32 bytes is canonicalized by truncation to its first
/// 32 bytes.
pub proof fn lemma_canon32_truncates(s: Seq<u8>)
    requires
        s.len() >= 32,
    ensures
        canon32(s) == s.subrange(0, 32),
{
    assert(canon32(s) =~= s.subrange(0, 32));
}

/// A buffer of at most 32 bytes is canonicalized by zero-padding on the
/// right.
pub proof fn lemma_canon32_pads(s: Seq<u8>)
    requires
        s.len() <= 32,
    ensures
        canon32(s) == s + Seq::new((32 - s.len()) as nat, |i: int| 0u8),
{
    assert(canon32(s) =~= s + Seq::new((32 - s.len()) as nat, |i: int| 0u8));
}

/// Canonicalization is idempotent: a canonical buffer canonicalizes to
/// itself.
pub proof fn lemma_canon32_idempotent(s: Seq<u8>)
    ensures
        canon32(canon32(s)) == canon32(s),
{
    assert(canon32(canon32(s)) =~= canon32(s));
}

} // verus!
