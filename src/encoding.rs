//! The canonical binary encoding of call arguments.
//!
//! The bytes themselves come from the ledger's own encoder (`aptos_bcs`,
//! re-exported by `aptos_sdk`); this module states what those bytes are, wraps
//! each use of the encoder, and gives the matching decoders as spec functions
//! together with the proofs that decoding undoes encoding.

use vstd::prelude::*;
use vstd::utf8::*;
use aptos_sdk::aptos_bcs;
use crate::address::Address;

verus! {

broadcast use vstd::utf8::encode_utf8_decode_utf8;

#[verifier::external_type_specification]
#[verifier::external_body]
pub struct ExBcsError(aptos_bcs::Error);

/// The longest sequence, in elements, that the encoder accepts.
pub const MAX_SEQUENCE_LENGTH: usize = 2147483647;

// ---------------------------------------------------------------------------
// What the encoding is.
// ---------------------------------------------------------------------------

/// Unsigned LEB128: seven bits per byte, least significant group first, the
/// high bit set on every byte but the last.
pub open spec fn uleb128(n: nat) -> Seq<u8>
    decreases n,
{
    if n < 128 {
        seq![n as u8]
    } else {
        seq![(n % 128 + 128) as u8] + uleb128(n / 128)
    }
}

/// A `u64`: its eight bytes, least significant first.
pub open spec fn bcs_u64(v: u64) -> Seq<u8> {
    seq![
        (v & 0xff) as u8,
        ((v >> 8u64) & 0xff) as u8,
        ((v >> 16u64) & 0xff) as u8,
        ((v >> 24u64) & 0xff) as u8,
        ((v >> 32u64) & 0xff) as u8,
        ((v >> 40u64) & 0xff) as u8,
        ((v >> 48u64) & 0xff) as u8,
        ((v >> 56u64) & 0xff) as u8,
    ]
}

/// A `bool`: one byte, one for true and zero for false.
pub open spec fn bcs_bool(b: bool) -> u8 {
    if b {
        1u8
    } else {
        0u8
    }
}

/// A byte string: its length in LEB128, then the bytes.
pub open spec fn bcs_byte_string(b: Seq<u8>) -> Seq<u8> {
    uleb128(b.len()) + b
}

/// A string: its UTF-8 bytes as a byte string.
pub open spec fn bcs_string(s: Seq<char>) -> Seq<u8> {
    bcs_byte_string(encode_utf8(s))
}

/// A sequence of booleans: its length, then one byte for each.
pub open spec fn bcs_bool_seq(v: Seq<bool>) -> Seq<u8> {
    uleb128(v.len()) + v.map_values(|b: bool| bcs_bool(b))
}

/// The encoded strings of a sequence, one after the other.
pub open spec fn bcs_strings_body(v: Seq<Seq<char>>) -> Seq<u8>
    decreases v.len(),
{
    if v.len() == 0 {
        seq![]
    } else {
        bcs_string(v[0]) + bcs_strings_body(v.drop_first())
    }
}

/// A sequence of strings: its length, then each string.
pub open spec fn bcs_string_seq(v: Seq<Seq<char>>) -> Seq<u8> {
    uleb128(v.len()) + bcs_strings_body(v)
}

/// An address: its bytes, with no length in front.
pub open spec fn bcs_address(a: Address) -> Seq<u8> {
    a@
}

/// A string is encodable when its UTF-8 form is no longer than the encoder's
/// limit on sequences.
pub open spec fn string_encodable(s: Seq<char>) -> bool {
    encode_utf8(s).len() <= MAX_SEQUENCE_LENGTH
}

/// A sequence of strings is encodable when it and each of its strings are
/// within the encoder's limit.
pub open spec fn strings_encodable(v: Seq<Seq<char>>) -> bool {
    &&& v.len() <= MAX_SEQUENCE_LENGTH
    &&& forall|i: int| 0 <= i < v.len() ==> string_encodable(#[trigger] v[i])
}

// ---------------------------------------------------------------------------
// The encoder.
// ---------------------------------------------------------------------------

/// Relies on `aptos_bcs::to_bytes` at `u64`: the value's eight little-endian
/// bytes, with no failure possible.
#[verifier::external_body]
fn bcs_to_bytes_u64(v: &u64) -> (r: Result<Vec<u8>, aptos_bcs::Error>)
    ensures
        r is Ok,
        r is Ok ==> r->Ok_0@ == bcs_u64(*v),
{
    aptos_bcs::to_bytes(v)
}

/// Relies on `aptos_bcs::to_bytes` at `str`: the UTF-8 bytes behind a LEB128
/// length, failing exactly when that length is over `MAX_SEQUENCE_LENGTH`.
#[verifier::external_body]
fn bcs_to_bytes_str(s: &str) -> (r: Result<Vec<u8>, aptos_bcs::Error>)
    ensures
        string_encodable(s@) ==> r is Ok && r->Ok_0@ == bcs_string(s@),
        !string_encodable(s@) ==> r is Err,
{
    aptos_bcs::to_bytes(s)
}

/// Relies on `aptos_bcs::to_bytes` at `Vec<bool>`: the LEB128 length, then one
/// byte for each element, failing exactly when the length is over
/// `MAX_SEQUENCE_LENGTH`.
#[verifier::external_body]
fn bcs_to_bytes_bools(v: &Vec<bool>) -> (r: Result<Vec<u8>, aptos_bcs::Error>)
    ensures
        v@.len() <= MAX_SEQUENCE_LENGTH ==> r is Ok && r->Ok_0@ == bcs_bool_seq(v@),
        v@.len() > MAX_SEQUENCE_LENGTH ==> r is Err,
{
    aptos_bcs::to_bytes(v)
}

/// Relies on `aptos_bcs::to_bytes` at `Vec<String>`: the LEB128 length, then
/// each string as `bcs_to_bytes_str` encodes it, failing exactly when the
/// sequence or one of its strings is over `MAX_SEQUENCE_LENGTH`.
#[verifier::external_body]
fn bcs_to_bytes_strings(v: &Vec<String>) -> (r: Result<Vec<u8>, aptos_bcs::Error>)
    ensures
        strings_encodable(v.deep_view()) ==> r is Ok && r->Ok_0@ == bcs_string_seq(
            v.deep_view(),
        ),
        !strings_encodable(v.deep_view()) ==> r is Err,
{
    aptos_bcs::to_bytes(v)
}

/// Relies on `aptos_bcs::to_bytes` at `aptos_sdk::AccountAddress`: the
/// address's 32 bytes as they stand, with no length and no failure possible.
#[verifier::external_body]
fn bcs_to_bytes_address(a: &Address) -> (r: Result<Vec<u8>, aptos_bcs::Error>)
    ensures
        r is Ok,
        r is Ok ==> r->Ok_0@ == bcs_address(*a),
{
    aptos_bcs::to_bytes(&aptos_sdk::AccountAddress::new(a.bytes))
}

/// Encodes a `u64`.
pub fn encode_u64(v: u64) -> (r: Vec<u8>)
    ensures
        r@ == bcs_u64(v),
{
    match bcs_to_bytes_u64(&v) {
        Ok(b) => b,
        Err(_) => {
            proof {
                assert(false);
            }
            Vec::new()
        },
    }
}

/// Encodes an address.
pub fn encode_address(a: &Address) -> (r: Vec<u8>)
    ensures
        r@ == bcs_address(*a),
{
    match bcs_to_bytes_address(a) {
        Ok(b) => b,
        Err(_) => {
            proof {
                assert(false);
            }
            Vec::new()
        },
    }
}

/// Encodes a string; `None` when it is too long to encode.
pub fn encode_str(s: &str) -> (r: Option<Vec<u8>>)
    ensures
        r is Some <==> string_encodable(s@),
        r matches Some(b) ==> b@ == bcs_string(s@),
{
    match bcs_to_bytes_str(s) {
        Ok(b) => Some(b),
        Err(_) => None,
    }
}

/// Encodes a sequence of booleans; `None` when it is too long to encode.
pub fn encode_bools(v: &Vec<bool>) -> (r: Option<Vec<u8>>)
    ensures
        r is Some <==> v@.len() <= MAX_SEQUENCE_LENGTH,
        r matches Some(b) ==> b@ == bcs_bool_seq(v@),
{
    match bcs_to_bytes_bools(v) {
        Ok(b) => Some(b),
        Err(_) => None,
    }
}

/// Encodes a sequence of strings; `None` when it or one of its strings is too
/// long to encode.
pub fn encode_strings(v: &Vec<String>) -> (r: Option<Vec<u8>>)
    ensures
        r is Some <==> strings_encodable(v.deep_view()),
        r matches Some(b) ==> b@ == bcs_string_seq(v.deep_view()),
{
    match bcs_to_bytes_strings(v) {
        Ok(b) => Some(b),
        Err(_) => None,
    }
}

// ---------------------------------------------------------------------------
// Decoding, and the proofs that it undoes the encoding.
// ---------------------------------------------------------------------------

/// Reads a LEB128 number from the front of `b`: its value and the number of
/// bytes it took.
pub open spec fn uleb128_decode(b: Seq<u8>) -> Option<(nat, nat)>
    decreases b.len(),
{
    if b.len() == 0 {
        None
    } else if b[0] < 128 {
        Some((b[0] as nat, 1nat))
    } else {
        match uleb128_decode(b.drop_first()) {
            Some((v, k)) => Some(((b[0] - 128) as nat + 128 * v, k + 1)),
            None => None,
        }
    }
}

/// Reads a `u64` from exactly eight bytes.
pub open spec fn decode_u64(b: Seq<u8>) -> Option<u64> {
    if b.len() == 8 {
        Some(
            (b[0] as u64) | ((b[1] as u64) << 8u64) | ((b[2] as u64) << 16u64) | ((b[3] as u64)
                << 24u64) | ((b[4] as u64) << 32u64) | ((b[5] as u64) << 40u64) | ((b[6] as u64)
                << 48u64) | ((b[7] as u64) << 56u64),
        )
    } else {
        None
    }
}

/// Reads a byte string that fills `b` exactly.
pub open spec fn decode_byte_string(b: Seq<u8>) -> Option<Seq<u8>> {
    match uleb128_decode(b) {
        Some((len, k)) => if k + len == b.len() {
            Some(b.subrange(k as int, b.len() as int))
        } else {
            None
        },
        None => None,
    }
}

/// Reads a string that fills `b` exactly.
pub open spec fn decode_string(b: Seq<u8>) -> Option<Seq<char>> {
    match decode_byte_string(b) {
        Some(bytes) => if valid_utf8(bytes) {
            Some(decode_utf8(bytes))
        } else {
            None
        },
        None => None,
    }
}

/// Reads a sequence of booleans that fills `b` exactly.
pub open spec fn decode_bool_seq(b: Seq<u8>) -> Option<Seq<bool>> {
    match decode_byte_string(b) {
        Some(bytes) => if forall|i: int| 0 <= i < bytes.len() ==> #[trigger] bytes[i] <= 1 {
            Some(bytes.map_values(|x: u8| x == 1))
        } else {
            None
        },
        None => None,
    }
}

/// LEB128 decoding reads back the number that LEB128 encoding wrote, whatever
/// follows it.
pub proof fn lemma_uleb128_round_trip(n: nat, rest: Seq<u8>)
    ensures
        uleb128_decode(uleb128(n) + rest) == Some((n, uleb128(n).len())),
    decreases n,
{
    let b = uleb128(n) + rest;
    if n < 128 {
        assert(b[0] == n as u8);
    } else {
        let tail = uleb128(n / 128);
        lemma_uleb128_round_trip(n / 128, rest);
        assert(b.drop_first() =~= tail + rest);
        assert(b[0] == (n % 128 + 128) as u8);
        assert((b[0] - 128) as nat + 128 * (n / 128) == n);
    }
}

/// Decoding a `u64` gives back the value encoded.
pub proof fn lemma_u64_round_trip(v: u64)
    ensures
        decode_u64(bcs_u64(v)) == Some(v),
{
    let b = bcs_u64(v);
    assert(((v & 0xff) as u8 as u64) | ((((v >> 8u64) & 0xff) as u8 as u64) << 8u64) | ((((v
        >> 16u64) & 0xff) as u8 as u64) << 16u64) | ((((v >> 24u64) & 0xff) as u8 as u64)
        << 24u64) | ((((v >> 32u64) & 0xff) as u8 as u64) << 32u64) | ((((v >> 40u64) & 0xff)
        as u8 as u64) << 40u64) | ((((v >> 48u64) & 0xff) as u8 as u64) << 48u64) | ((((v
        >> 56u64) & 0xff) as u8 as u64) << 56u64) == v) by (bit_vector);
}

/// Decoding a byte string gives back the bytes encoded.
pub proof fn lemma_byte_string_round_trip(bytes: Seq<u8>)
    ensures
        decode_byte_string(bcs_byte_string(bytes)) == Some(bytes),
{
    lemma_uleb128_round_trip(bytes.len(), bytes);
    let b = bcs_byte_string(bytes);
    assert(b.subrange(uleb128(bytes.len()).len() as int, b.len() as int) =~= bytes);
}

/// Decoding a string gives back the string encoded.
pub proof fn lemma_string_round_trip(s: Seq<char>)
    ensures
        decode_string(bcs_string(s)) == Some(s),
{
    lemma_byte_string_round_trip(encode_utf8(s));
    encode_utf8_valid_utf8(s);
}

/// Decoding a sequence of booleans gives back the sequence encoded.
pub proof fn lemma_bool_seq_round_trip(v: Seq<bool>)
    ensures
        decode_bool_seq(bcs_bool_seq(v)) == Some(v),
{
    let bytes = v.map_values(|b: bool| bcs_bool(b));
    lemma_byte_string_round_trip(bytes);
    assert(bytes.map_values(|x: u8| x == 1) =~= v);
}

} // verus!
