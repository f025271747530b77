use vstd::prelude::*;

use crate::error::CryptoError;

verus! {

/// The lowercase hex digit of a nibble.
pub open spec fn lower_digit(n: nat) -> char {
    if n == 0 { '0' } else if n == 1 { '1' } else if n == 2 { '2' } else if n == 3 { '3' }
    else if n == 4 { '4' } else if n == 5 { '5' } else if n == 6 { '6' } else if n == 7 { '7' }
    else if n == 8 { '8' } else if n == 9 { '9' } else if n == 10 { 'a' } else if n == 11 { 'b' }
    else if n == 12 { 'c' } else if n == 13 { 'd' } else if n == 14 { 'e' } else { 'f' }
}

/// The uppercase hex digit of a nibble.
pub open spec fn upper_digit(n: nat) -> char {
    if n < 10 { lower_digit(n) } else if n == 10 { 'A' } else if n == 11 { 'B' }
    else if n == 12 { 'C' } else if n == 13 { 'D' } else if n == 14 { 'E' } else { 'F' }
}

/// The value of a hex digit of either case.
pub open spec fn digit_value(c: char) -> Option<nat> {
    let v = c as u32;
    if 48 <= v && v <= 57 {
        Some((v - 48) as nat)
    } else if 97 <= v && v <= 102 {
        Some((v - 87) as nat)
    } else if 65 <= v && v <= 70 {
        Some((v - 55) as nat)
    } else {
        None
    }
}

/// Lowercase hex text of a byte sequence, high nibble first.
pub open spec fn hex_lower(b: Seq<u8>) -> Seq<char>
    decreases b.len(),
{
    if b.len() == 0 {
        Seq::empty()
    } else {
        seq![lower_digit(b[0] as nat / 16), lower_digit(b[0] as nat % 16)] + hex_lower(b.drop_first())
    }
}

/// Uppercase hex text of a byte sequence, high nibble first.
pub open spec fn hex_upper(b: Seq<u8>) -> Seq<char>
    decreases b.len(),
{
    if b.len() == 0 {
        Seq::empty()
    } else {
        seq![upper_digit(b[0] as nat / 16), upper_digit(b[0] as nat % 16)] + hex_upper(b.drop_first())
    }
}

/// The bytes that hex text stands for: `None` on odd length or on a character
/// that is not a hex digit.
pub open spec fn hex_decode_spec(s: Seq<char>) -> Option<Seq<u8>>
    decreases s.len(),
{
    if s.len() == 0 {
        Some(Seq::empty())
    } else if s.len() == 1 {
        None
    } else {
        match (digit_value(s[0]), digit_value(s[1]), hex_decode_spec(s.subrange(2, s.len() as int))) {
            (Some(hi), Some(lo), Some(rest)) => Some(seq![(16 * hi + lo) as u8] + rest),
            _ => None,
        }
    }
}

/// Relies on hex::encode: two lowercase digits per byte, high nibble first.
#[verifier::external_body]
fn encode_lower(b: &[u8]) -> (r: String)
    ensures
        r@ == hex_lower(b@),
{
    hex::encode(b)
}

/// Relies on hex::encode_upper: two uppercase digits per byte, high nibble first.
#[verifier::external_body]
fn encode_upper(b: &[u8]) -> (r: String)
    ensures
        r@ == hex_upper(b@),
{
    hex::encode_upper(b)
}

/// Relies on hex::decode: fails on odd length or on a byte that is not a
/// digit of either case; otherwise one byte per pair of digits.
#[verifier::external_body]
fn decode(s: &str) -> (r: Option<Vec<u8>>)
    ensures
        r is None <==> hex_decode_spec(s@) is None,
        r is Some ==> hex_decode_spec(s@) == Some(r->0@),
{
    hex::decode(s).ok()
}

/// Lowercase hex text of `bytes`.
pub fn hex_encode(bytes: &[u8]) -> (r: String)
    ensures
        r@ == hex_lower(bytes@),
{
    encode_lower(bytes)
}

/// Uppercase hex text of `bytes`.
pub fn hex_encode_upper(bytes: &[u8]) -> (r: String)
    ensures
        r@ == hex_upper(bytes@),
{
    encode_upper(bytes)
}

/// Reads hex text of either case; odd length or a non-digit character gives
/// `MalformedHex`.
pub fn hex_decode(hex: &str) -> (r: Result<Vec<u8>, CryptoError>)
    ensures
        hex_decode_spec(hex@) is None ==> r == Err::<Vec<u8>, CryptoError>(CryptoError::MalformedHex),
        hex_decode_spec(hex@) is Some ==> r is Ok && r->Ok_0@ == hex_decode_spec(hex@)->0,
{
    match decode(hex) {
        Some(v) => Ok(v),
        None => Err(CryptoError::MalformedHex),
    }
}

proof fn lemma_digit(n: nat)
    requires
        n < 16,
    ensures
        digit_value(lower_digit(n)) == Some(n),
        digit_value(upper_digit(n)) == Some(n),
{
}

/// Decoding lowercase hex text of `b` followed by `t` gives `b` followed by
/// what `t` decodes to.
pub proof fn lemma_decode_lower_concat(b: Seq<u8>, t: Seq<char>)
    ensures
        hex_decode_spec(hex_lower(b) + t) == (match hex_decode_spec(t) {
            Some(r) => Some(b + r),
            None => None,
        }),
    decreases b.len(),
{
    if b.len() == 0 {
        assert(hex_lower(b) + t =~= t);
        match hex_decode_spec(t) {
            Some(r) => { assert(b + r =~= r); },
            None => {},
        }
    } else {
        let s = hex_lower(b) + t;
        let tail = b.drop_first();
        let hi = b[0] as nat / 16;
        let lo = b[0] as nat % 16;
        lemma_digit(hi);
        lemma_digit(lo);
        lemma_decode_lower_concat(tail, t);
        assert(s.subrange(2, s.len() as int) =~= hex_lower(tail) + t);
        assert((16 * hi + lo) as u8 == b[0]);
        match hex_decode_spec(t) {
            Some(r) => { assert(seq![b[0]] + (tail + r) =~= b + r); },
            None => {},
        }
    }
}

/// Decoding uppercase hex text of `b` followed by `t` gives `b` followed by
/// what `t` decodes to.
pub proof fn lemma_decode_upper_concat(b: Seq<u8>, t: Seq<char>)
    ensures
        hex_decode_spec(hex_upper(b) + t) == (match hex_decode_spec(t) {
            Some(r) => Some(b + r),
            None => None,
        }),
    decreases b.len(),
{
    if b.len() == 0 {
        assert(hex_upper(b) + t =~= t);
        match hex_decode_spec(t) {
            Some(r) => { assert(b + r =~= r); },
            None => {},
        }
    } else {
        let s = hex_upper(b) + t;
        let tail = b.drop_first();
        let hi = b[0] as nat / 16;
        let lo = b[0] as nat % 16;
        lemma_digit(hi);
        lemma_digit(lo);
        lemma_decode_upper_concat(tail, t);
        assert(s.subrange(2, s.len() as int) =~= hex_upper(tail) + t);
        assert((16 * hi + lo) as u8 == b[0]);
        match hex_decode_spec(t) {
            Some(r) => { assert(seq![b[0]] + (tail + r) =~= b + r); },
            None => {},
        }
    }
}

/// Hex text decodes back to the bytes it was made from.
pub proof fn lemma_hex_round_trip(b: Seq<u8>)
    ensures
        hex_decode_spec(hex_lower(b)) == Some(b),
        hex_decode_spec(hex_upper(b)) == Some(b),
{
    let e = Seq::<char>::empty();
    lemma_decode_lower_concat(b, e);
    lemma_decode_upper_concat(b, e);
    assert(hex_lower(b) + e =~= hex_lower(b));
    assert(hex_upper(b) + e =~= hex_upper(b));
    assert(b + Seq::<u8>::empty() =~= b);
}

} // verus!
