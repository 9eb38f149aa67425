//! The persisted proof record boundary.
//!
//! A proof record carries the six deposit attributes and an optional proof as
//! text: the four buffers and the proof as hex strings, the amount and term
//! as the text the editing surface handed over (that surface, and the file
//! handling around it, are external collaborators). The obligations here are
//! to hex-encode and hex-decode the buffer and proof fields losslessly, and
//! to treat a missing or undecodable proof field as "no proof available"
//! rather than as an error.

use vstd::prelude::*;

verus! {

/// Whether a character is a hexadecimal digit, in either case.
pub open spec fn is_hex_digit(c: char) -> bool {
    ('0' <= c && c <= '9') || ('a' <= c && c <= 'f') || ('A' <= c && c <= 'F')
}

/// The value of a hexadecimal digit.
pub open spec fn hex_val(c: char) -> int
    recommends
        is_hex_digit(c),
{
    if '0' <= c && c <= '9' {
        c as int - '0' as int
    } else if 'a' <= c && c <= 'f' {
        c as int - 'a' as int + 10
    } else {
        c as int - 'A' as int + 10
    }
}

/// The lowercase hexadecimal digit for a value below 16.
pub open spec fn hex_char(n: int) -> char
    recommends
        0 <= n < 16,
{
    if n == 0 {
        '0'
    } else if n == 1 {
        '1'
    } else if n == 2 {
        '2'
    } else if n == 3 {
        '3'
    } else if n == 4 {
        '4'
    } else if n == 5 {
        '5'
    } else if n == 6 {
        '6'
    } else if n == 7 {
        '7'
    } else if n == 8 {
        '8'
    } else if n == 9 {
        '9'
    } else if n == 10 {
        'a'
    } else if n == 11 {
        'b'
    } else if n == 12 {
        'c'
    } else if n == 13 {
        'd'
    } else if n == 14 {
        'e'
    } else {
        'f'
    }
}

/// The hex text of a byte buffer: two lowercase digits per byte, high nibble
/// first.
pub open spec fn hex_encoding_of(b: Seq<u8>) -> Seq<char> {
    Seq::new(
        2 * b.len(),
        |i: int| if i % 2 == 0 {
            hex_char(b[i / 2] as int / 16)
        } else {
            hex_char(b[i / 2] as int % 16)
        },
    )
}

/// Whether a string decodes as hex: even length, hex digits throughout.
pub open spec fn hex_valid(s: Seq<char>) -> bool {
    s.len() % 2 == 0 && forall|i: int| 0 <= i < s.len() ==> is_hex_digit(#[trigger] s[i])
}

/// The bytes a valid hex string decodes to, one byte per digit pair, high
/// nibble first.
pub open spec fn hex_decoded(s: Seq<char>) -> Seq<u8>
    recommends
        hex_valid(s),
{
    Seq::new(s.len() / 2, |i: int| (hex_val(s[2 * i]) * 16 + hex_val(s[2 * i + 1])) as u8)
}

#[verifier::external_type_specification]
#[verifier::external_body]
pub struct ExternalFromHexError(hex::FromHexError);

/// Relies on hex::encode: each byte becomes two lowercase hexadecimal
/// digits, high nibble first.
#[verifier::external_body]
fn hex_encode(b: &Vec<u8>) -> (r: String)
    ensures
        r@ == hex_encoding_of(b@),
{
    hex::encode(b.as_slice())
}

/// Relies on hex::decode: it succeeds exactly on even-length strings of
/// hexadecimal digits of either case, reading one byte per digit pair, high
/// nibble first.
#[verifier::external_body]
fn hex_decode(s: &String) -> (r: Result<Vec<u8>, hex::FromHexError>)
    ensures
        r is Ok <==> hex_valid(s@),
        r is Ok ==> r->Ok_0@ == hex_decoded(s@),
{
    hex::decode(s.as_str())
}

/// A persisted proof record: every field as text, the proof optional.
pub struct ProofRecord {
    pub amount: String,
    pub term: String,
    pub tx_hash: String,
    pub block_hash: String,
    pub recipient: String,
    pub merkle_root: String,
    pub proof_hex: Option<String>,
}

/// The four attribute buffers of a record, decoded.
pub struct RecordBuffers {
    pub tx_hash: Vec<u8>,
    pub block_hash: Vec<u8>,
    pub recipient: Vec<u8>,
    pub merkle_root: Vec<u8>,
}

/// Builds the record for the given attribute text, buffers and optional
/// proof: the buffers and the proof are hex-encoded, the amount and term
/// text is carried through unchanged.
pub fn encode_record(
    amount: String,
    term: String,
    tx_hash: &Vec<u8>,
    block_hash: &Vec<u8>,
    recipient: &Vec<u8>,
    merkle_root: &Vec<u8>,
    stark_proof: Option<&Vec<u8>>,
) -> (r: ProofRecord)
    ensures
        r.amount == amount,
        r.term == term,
        r.tx_hash@ == hex_encoding_of(tx_hash@),
        r.block_hash@ == hex_encoding_of(block_hash@),
        r.recipient@ == hex_encoding_of(recipient@),
        r.merkle_root@ == hex_encoding_of(merkle_root@),
        r.proof_hex is Some <==> stark_proof is Some,
        r.proof_hex is Some ==> r.proof_hex->0@ == hex_encoding_of(stark_proof->0@),
{
    let proof_hex = match stark_proof {
        Some(bytes) => Some(hex_encode(bytes)),
        None => None,
    };
    ProofRecord {
        amount,
        term,
        tx_hash: hex_encode(tx_hash),
        block_hash: hex_encode(block_hash),
        recipient: hex_encode(recipient),
        merkle_root: hex_encode(merkle_root),
        proof_hex,
    }
}

/// Decodes the four attribute buffers of a record. All four must decode;
/// a record whose buffer fields are not valid hex yields nothing.
pub fn decode_attribute_buffers(rec: &ProofRecord) -> (r: Option<RecordBuffers>)
    ensures
        r is Some <==> hex_valid(rec.tx_hash@) && hex_valid(rec.block_hash@) && hex_valid(
            rec.recipient@,
        ) && hex_valid(rec.merkle_root@),
        r is Some ==> ({
            let b = r->0;
            &&& b.tx_hash@ == hex_decoded(rec.tx_hash@)
            &&& b.block_hash@ == hex_decoded(rec.block_hash@)
            &&& b.recipient@ == hex_decoded(rec.recipient@)
            &&& b.merkle_root@ == hex_decoded(rec.merkle_root@)
        }),
{
    let tx_hash = match hex_decode(&rec.tx_hash) {
        Ok(b) => b,
        Err(_) => {
            return None;
        },
    };
    let block_hash = match hex_decode(&rec.block_hash) {
        Ok(b) => b,
        Err(_) => {
            return None;
        },
    };
    let recipient = match hex_decode(&rec.recipient) {
        Ok(b) => b,
        Err(_) => {
            return None;
        },
    };
    let merkle_root = match hex_decode(&rec.merkle_root) {
        Ok(b) => b,
        Err(_) => {
            return None;
        },
    };
    Some(RecordBuffers { tx_hash, block_hash, recipient, merkle_root })
}

/// Extracts the proof bytes of a record. A missing proof field and one that
/// is not valid hex both yield "no proof available", never an error.
pub fn decode_proof_field(rec: &ProofRecord) -> (r: Option<Vec<u8>>)
    ensures
        r is Some <==> rec.proof_hex is Some && hex_valid(rec.proof_hex->0@),
        r is Some ==> r->0@ == hex_decoded(rec.proof_hex->0@),
{
    match &rec.proof_hex {
        Some(text) => match hex_decode(text) {
            Ok(bytes) => Some(bytes),
            Err(_) => None,
        },
        None => None,
    }
}

/// Every hexadecimal digit produced for a value below 16 is a digit that
/// decodes back to that value.
proof fn lemma_hex_char_val(n: int)
    requires
        0 <= n < 16,
    ensures
        is_hex_digit(hex_char(n)),
        hex_val(hex_char(n)) == n,
{
}

/// Hex encoding is lossless: the text written for any byte buffer is valid
/// hex, and decoding it yields the buffer back unchanged.
pub proof fn lemma_hex_round_trip(b: Seq<u8>)
    ensures
        hex_valid(hex_encoding_of(b)),
        hex_decoded(hex_encoding_of(b)) == b,
{
    let enc = hex_encoding_of(b);
    assert forall|i: int| 0 <= i < enc.len() implies is_hex_digit(#[trigger] enc[i]) by {
        if i % 2 == 0 {
            lemma_hex_char_val(b[i / 2] as int / 16);
        } else {
            lemma_hex_char_val(b[i / 2] as int % 16);
        }
    }
    assert forall|i: int| 0 <= i < b.len() implies hex_decoded(enc)[i] == b[i] by {
        lemma_hex_char_val(b[i] as int / 16);
        lemma_hex_char_val(b[i] as int % 16);
        assert(enc[2 * i] == hex_char(b[i] as int / 16));
        assert(enc[2 * i + 1] == hex_char(b[i] as int % 16));
        assert(hex_val(enc[2 * i]) * 16 + hex_val(enc[2 * i + 1]) == (b[i] as int / 16) * 16 + b[i] as int % 16);
    }
    assert(hex_decoded(enc) =~= b);
}

} // verus!
