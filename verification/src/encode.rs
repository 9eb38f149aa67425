//! Deterministic mapping from byte buffers to field elements.
//!
//! A caller-supplied buffer of arbitrary length is first canonicalized to
//! exactly 32 bytes (truncated to its first 32 bytes if longer, zero-padded
//! on the right if shorter). A canonical buffer is then split into four
//! consecutive 8-byte windows, each read as a little-endian unsigned integer
//! and reduced into the field. Encoding is total: no input is rejected.

use vstd::prelude::*;

use crate::field::{fe_of, fe_reduce};

verus! {

/// The canonical 32-byte form of an arbitrary buffer: its first 32 bytes,
/// zero-padded on the right.
pub open spec fn canon32(s: Seq<u8>) -> Seq<u8> {
    Seq::new(32, |i: int| if i < s.len() { s[i] } else { 0u8 })
}

/// The little-endian value of an 8-byte window.
pub open spec fn le64(s: Seq<u8>) -> int
    recommends
        s.len() == 8,
{
    s[0] + s[1] * 0x100 + s[2] * 0x1_0000 + s[3] * 0x100_0000 + s[4] * 0x1_0000_0000 + s[5]
        * 0x100_0000_0000 + s[6] * 0x1_0000_0000_0000 + s[7] * 0x100_0000_0000_0000
}

/// The four field elements contributed by a canonical 32-byte buffer.
pub open spec fn encode32_spec(s: Seq<u8>) -> Seq<u64>
    recommends
        s.len() == 32,
{
    Seq::new(4, |i: int| fe_of(le64(s.subrange(8 * i, 8 * i + 8))))
}

/// Canonicalizes a buffer to exactly 32 bytes: the first 32 bytes are kept,
/// missing bytes are filled with zeros on the right.
pub fn canonicalize32(b: &Vec<u8>) -> (r: Vec<u8>)
    ensures
        r@ == canon32(b@),
        r@.len() == 32,
{
    let mut r: Vec<u8> = Vec::new();
    let mut i: usize = 0;
    while i < 32
        invariant
            i <= 32,
            r@.len() == i,
            forall|j: int| 0 <= j < i ==> r@[j] == canon32(b@)[j],
        decreases 32 - i,
    {
        if i < b.len() {
            r.push(b[i]);
        } else {
            r.push(0);
        }
        i += 1;
    }
    assert(r@ =~= canon32(b@));
    r
}

/// Reads the 8-byte window of `b` starting at `off` as a little-endian
/// unsigned 64-bit integer.
pub fn le_u64(b: &Vec<u8>, off: usize) -> (r: u64)
    requires
        off + 8 <= b@.len(),
    ensures
        r == le64(b@.subrange(off as int, off as int + 8)),
{
    let n: usize = b.len();
    assert(off + 8 <= n);
    let r: u64 = (b[off] as u64) + (b[off + 1] as u64) * 0x100 + (b[off + 2] as u64) * 0x1_0000 + (
    b[off + 3] as u64) * 0x100_0000 + (b[off + 4] as u64) * 0x1_0000_0000 + (b[off + 5] as u64)
        * 0x100_0000_0000 + (b[off + 6] as u64) * 0x1_0000_0000_0000 + (b[off + 7] as u64)
        * 0x100_0000_0000_0000;
    proof {
        let w = b@.subrange(off as int, off as int + 8);
        assert(w[0] == b@[off as int]);
        assert(w[1] == b@[off as int + 1]);
        assert(w[2] == b@[off as int + 2]);
        assert(w[3] == b@[off as int + 3]);
        assert(w[4] == b@[off as int + 4]);
        assert(w[5] == b@[off as int + 5]);
        assert(w[6] == b@[off as int + 6]);
        assert(w[7] == b@[off as int + 7]);
    }
    r
}

/// Encodes a canonical 32-byte buffer as four field elements, one per
/// consecutive 8-byte little-endian window.
pub fn encode32(b: &Vec<u8>) -> (r: Vec<u64>)
    requires
        b@.len() == 32,
    ensures
        r@ == encode32_spec(b@),
        r@.len() == 4,
{
    let mut r: Vec<u64> = Vec::new();
    let mut i: usize = 0;
    while i < 4
        invariant
            i <= 4,
            b@.len() == 32,
            r@.len() == i,
            forall|j: int| 0 <= j < i ==> r@[j] == encode32_spec(b@)[j],
        decreases 4 - i,
    {
        let w = le_u64(b, 8 * i);
        r.push(fe_reduce(w));
        i += 1;
    }
    assert(r@ =~= encode32_spec(b@));
    r
}

} // verus!
