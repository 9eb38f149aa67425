//! The minimal execution trace.
//!
//! The trace has one column per public-input element, each holding that
//! element in every row — the attributes encode a constant, not an evolving
//! computation — plus one counter column holding the row index. Its length
//! is the smallest the backend accepts (a power of two of at least 8 rows).
//! The counter column exists only for the backend: a committed trace must
//! contain a polynomial of maximal degree, which a fully constant table
//! cannot provide; the counter is fixed by its own constraints and carries
//! no attribute data.

use vstd::prelude::*;

use crate::field::fe_reduced;
use crate::inputs::PublicInputs;

verus! {

/// The number of trace columns: 18 attribute columns and the counter.
pub const TRACE_WIDTH: usize = 19;

/// The index of the counter column.
pub const COUNTER_COLUMN: usize = 18;

/// The number of trace rows: the smallest length the backend accepts.
pub const TRACE_LENGTH: usize = 8;

/// A column-major table of canonical field elements.
pub struct Trace {
    pub columns: Vec<Vec<u64>>,
}

/// Whether a column-sequence table has the trace's shape: 19 columns of 8
/// canonical field elements each.
pub open spec fn matrix_wf(m: Seq<Seq<u64>>) -> bool {
    m.len() == TRACE_WIDTH && forall|c: int|
        0 <= c < TRACE_WIDTH ==> (#[trigger] m[c]).len() == TRACE_LENGTH && forall|r: int|
            0 <= r < TRACE_LENGTH ==> fe_reduced(#[trigger] m[c][r])
}

impl Trace {
    /// The table as a sequence of column sequences.
    pub open spec fn matrix(self) -> Seq<Seq<u64>> {
        self.columns@.map_values(|col: Vec<u64>| col@)
    }

    /// Well-formedness: the table has the trace's shape.
    pub open spec fn wf(self) -> bool {
        matrix_wf(self.matrix())
    }
}

/// The table a deposit gives rise to: each attribute column holds the
/// matching public-input element in all of its rows, and the counter column
/// holds the row index.
pub open spec fn trace_columns(p: PublicInputs) -> Seq<Seq<u64>> {
    Seq::new(
        19,
        |c: int| if c < 18 {
            Seq::new(8, |r: int| p.spec_elements()[c])
        } else {
            Seq::new(8, |r: int| r as u64)
        },
    )
}

/// Builds the trace for the given canonical deposit: every attribute column
/// repeats its public-input element, the counter column counts the rows.
pub fn build_trace(p: &PublicInputs) -> (t: Trace)
    requires
        p.wf(),
    ensures
        t.matrix() == trace_columns(*p),
        t.wf(),
{
    let elements = p.to_elements();
    let mut columns: Vec<Vec<u64>> = Vec::new();
    let mut c: usize = 0;
    while c < 18
        invariant
            c <= 18,
            elements@ == p.spec_elements(),
            elements@.len() == 18,
            columns@.len() == c,
            forall|j: int|
                0 <= j < c ==> (#[trigger] columns@[j])@ == Seq::new(
                    8,
                    |r: int| p.spec_elements()[j],
                ),
        decreases 18 - c,
    {
        let e = elements[c];
        let mut col: Vec<u64> = Vec::new();
        let mut r: usize = 0;
        while r < 8
            invariant
                r <= 8,
                col@.len() == r,
                e == p.spec_elements()[c as int],
                forall|k: int| 0 <= k < r ==> col@[k] == e,
            decreases 8 - r,
        {
            col.push(e);
            r += 1;
        }
        assert(col@ =~= Seq::new(8, |r: int| p.spec_elements()[c as int]));
        columns.push(col);
        c += 1;
    }
    let mut counter: Vec<u64> = Vec::new();
    let mut r: usize = 0;
    while r < 8
        invariant
            r <= 8,
            counter@.len() == r,
            forall|k: int| 0 <= k < r ==> counter@[k] == k as u64,
        decreases 8 - r,
    {
        counter.push(r as u64);
        r += 1;
    }
    assert(counter@ =~= Seq::new(8, |r: int| r as u64));
    columns.push(counter);
    let t = Trace { columns };
    proof {
        assert(t.matrix() =~~= trace_columns(*p));
        assert forall|c: int| 0 <= c < TRACE_WIDTH implies (#[trigger] t.matrix()[c]).len()
            == TRACE_LENGTH && forall|r: int|
            0 <= r < TRACE_LENGTH ==> fe_reduced(#[trigger] t.matrix()[c][r]) by {
            assert forall|r: int| 0 <= r < TRACE_LENGTH implies fe_reduced(
                #[trigger] t.matrix()[c][r],
            ) by {
                if c < 18 {
                    assert(t.matrix()[c][r] == p.spec_elements()[c]);
                } else {
                    assert(t.matrix()[c][r] == r as u64);
                }
            }
        }
    }
    t
}

} // verus!
