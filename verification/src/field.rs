//! The prime field in which all trace and constraint arithmetic happens.
//!
//! An element is represented by its canonical residue, a `u64` below
//! [`FIELD_MODULUS`]. The backend performs its polynomial arithmetic over the
//! same field; this module only needs the canonical reduction and the
//! subtraction used by the transition constraints.

use vstd::prelude::*;

verus! {

/// The field modulus: 2^64 - 2^32 + 1.
pub const FIELD_MODULUS: u64 = 0xFFFF_FFFF_0000_0001;

/// Whether a value is a canonical field element.
pub open spec fn fe_reduced(v: u64) -> bool {
    v < FIELD_MODULUS
}

/// The canonical residue of an arbitrary integer.
pub open spec fn fe_of(v: int) -> u64 {
    (v % (FIELD_MODULUS as int)) as u64
}

/// The residue of the difference of two canonical elements.
pub open spec fn fe_sub_spec(a: u64, b: u64) -> u64 {
    fe_of(a - b)
}

/// The residue of a canonical element's successor.
pub open spec fn fe_incr_spec(a: u64) -> u64 {
    fe_of(a + 1)
}

/// Reduces a 64-bit value into the field.
pub fn fe_reduce(v: u64) -> (r: u64)
    ensures
        r == fe_of(v as int),
        fe_reduced(r),
{
    v % FIELD_MODULUS
}

/// Increments a canonical field element.
pub fn fe_incr(a: u64) -> (r: u64)
    requires
        fe_reduced(a),
    ensures
        r == fe_incr_spec(a),
        fe_reduced(r),
{
    if a + 1 == FIELD_MODULUS {
        assert(fe_of(a + 1) == 0);
        0
    } else {
        assert(fe_of(a + 1) == a + 1);
        a + 1
    }
}

/// Subtracts one canonical field element from another.
pub fn fe_sub(a: u64, b: u64) -> (r: u64)
    requires
        fe_reduced(a),
        fe_reduced(b),
    ensures
        r == fe_sub_spec(a, b),
        fe_reduced(r),
{
    if a >= b {
        assert(fe_of(a - b) == a - b);
        a - b
    } else {
        assert(fe_of(a - b) == a - b + FIELD_MODULUS);
        a + (FIELD_MODULUS - b)
    }
}

} // verus!
