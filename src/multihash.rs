use vstd::prelude::*;
use vstd::slice::{slice_subrange, slice_to_vec};
use vstd::string::*;

use crate::error::CryptoError;
use crate::hexcodec::{
    hex_decode, hex_decode_spec, hex_encode, hex_encode_upper, hex_lower, hex_upper,
    lemma_decode_lower_concat, lemma_hex_round_trip,
};

verus! {

/// The most bytes a varint may take; it then holds at most 63 bits.
pub const VARINT_MAX_BYTES: u64 = 9;

/// One past the largest code or length that a multihash can carry.
pub const VARINT_LIMIT: u64 = 0x8000_0000_0000_0000;

/// `128` to the power `k`.
pub open spec fn pow128(k: nat) -> nat
    decreases k,
{
    if k == 0 { 1 } else { 128 * pow128((k - 1) as nat) }
}

/// Unsigned LEB128: seven bits per byte, least significant group first, the
/// high bit set on every byte but the last.
pub open spec fn varint(v: nat) -> Seq<u8>
    decreases v,
{
    if v < 128 {
        seq![v as u8]
    } else {
        seq![(v % 128 + 128) as u8] + varint(v / 128)
    }
}

/// Reads a varint of at most `k` bytes from the front of `s`: its value and
/// how many bytes it took.
pub open spec fn read_varint(s: Seq<u8>, k: nat) -> Option<(nat, nat)>
    decreases k,
{
    if k == 0 || s.len() == 0 {
        None
    } else if s[0] < 128 {
        Some((s[0] as nat, 1))
    } else {
        match read_varint(s.drop_first(), (k - 1) as nat) {
            Some((v, n)) => Some(((s[0] - 128) as nat + 128 * v, n + 1)),
            None => None,
        }
    }
}

/// The multihash bytes of a codec code and a payload: code, payload length,
/// payload.
pub open spec fn multihash_bytes(code: nat, payload: Seq<u8>) -> Seq<u8> {
    varint(code) + varint(payload.len()) + payload
}

/// Splits multihash bytes into code and payload; the payload must take up
/// exactly the length that the header gives.
pub open spec fn parse_multihash(b: Seq<u8>) -> Option<(nat, Seq<u8>)> {
    match read_varint(b, VARINT_MAX_BYTES as nat) {
        None => None,
        Some((code, n)) => {
            let rest = b.subrange(n as int, b.len() as int);
            match read_varint(rest, VARINT_MAX_BYTES as nat) {
                None => None,
                Some((len, m)) => {
                    let payload = rest.subrange(m as int, rest.len() as int);
                    if payload.len() == len {
                        Some((code, payload))
                    } else {
                        None
                    }
                },
            }
        },
    }
}

/// The text form of a multihash: the header in lowercase hex, the payload in
/// uppercase hex.
pub open spec fn multihash_text(code: nat, payload: Seq<u8>) -> Seq<char> {
    hex_lower(varint(code) + varint(payload.len())) + hex_upper(payload)
}

/// What multihash text stands for: hex of either case, then the bytes as
/// `parse_multihash` reads them.
pub open spec fn multihash_decode_spec(s: Seq<char>) -> Option<(nat, Seq<u8>)> {
    match hex_decode_spec(s) {
        Some(b) => parse_multihash(b),
        None => None,
    }
}

proof fn lemma_pow128_pos(k: nat)
    ensures
        pow128(k) >= 1,
    decreases k,
{
    if k > 0 {
        lemma_pow128_pos((k - 1) as nat);
    }
}

proof fn lemma_read_varint_bound(s: Seq<u8>, k: nat)
    ensures
        read_varint(s, k) matches Some((v, n)) ==> v < pow128(k) && 1 <= n <= k && n <= s.len(),
    decreases k,
{
    lemma_pow128_pos(k);
    if k > 0 && s.len() > 0 {
        lemma_pow128_pos((k - 1) as nat);
        lemma_read_varint_bound(s.drop_first(), (k - 1) as nat);
        if s[0] >= 128 {
            if let Some((v, n)) = read_varint(s.drop_first(), (k - 1) as nat) {
                let p = pow128((k - 1) as nat);
                let c = (s[0] - 128) as nat;
                assert(c + 128 * v < 128 * p) by (nonlinear_arith)
                    requires
                        c < 128,
                        v < p,
                ;
            }
        } else {
            assert(128 * pow128((k - 1) as nat) >= 128) by (nonlinear_arith)
                requires
                    pow128((k - 1) as nat) >= 1,
            ;
        }
    }
}

proof fn lemma_pow128_values()
    ensures
        pow128(8) == 0x0100_0000_0000_0000,
        pow128(9) == VARINT_LIMIT,
{
    reveal_with_fuel(pow128, 10);
}

proof fn lemma_varint_len(v: nat, j: nat)
    requires
        1 <= j,
        v < pow128(j),
    ensures
        1 <= varint(v).len() <= j,
    decreases v,
{
    if v >= 128 {
        let p = pow128((j - 1) as nat);
        if j == 1 {
            assert(pow128(1) == 128) by {
                reveal_with_fuel(pow128, 2);
            }
        }
        assert(v / 128 < p) by (nonlinear_arith)
            requires
                v < 128 * p,
        ;
        lemma_varint_len(v / 128, (j - 1) as nat);
    }
}

/// A varint reads back as its value, whatever follows it.
pub proof fn lemma_varint_round_trip(v: nat, rest: Seq<u8>, k: nat)
    requires
        varint(v).len() <= k,
    ensures
        read_varint(varint(v) + rest, k) == Some((v, varint(v).len())),
    decreases v,
{
    let s = varint(v) + rest;
    if v >= 128 {
        assert(s.drop_first() =~= varint(v / 128) + rest);
        lemma_varint_round_trip(v / 128, rest, (k - 1) as nat);
    }
}

/// Multihash bytes parse back into their code and payload.
pub proof fn lemma_multihash_bytes_round_trip(code: nat, payload: Seq<u8>)
    requires
        code < VARINT_LIMIT,
        payload.len() < VARINT_LIMIT,
    ensures
        parse_multihash(multihash_bytes(code, payload)) == Some((code, payload)),
{
    lemma_pow128_values();
    lemma_varint_len(code, 9);
    lemma_varint_len(payload.len(), 9);
    let a = varint(code);
    let l = varint(payload.len());
    let b = multihash_bytes(code, payload);
    assert(b =~= a + (l + payload));
    lemma_varint_round_trip(code, l + payload, 9);
    let rest = b.subrange(a.len() as int, b.len() as int);
    assert(rest =~= l + payload);
    lemma_varint_round_trip(payload.len(), payload, 9);
    assert(rest.subrange(l.len() as int, rest.len() as int) =~= payload);
}

/// Multihash text decodes back into its code and payload.
pub proof fn lemma_multihash_round_trip(code: nat, payload: Seq<u8>)
    requires
        code < VARINT_LIMIT,
        payload.len() < VARINT_LIMIT,
    ensures
        multihash_decode_spec(multihash_text(code, payload)) == Some((code, payload)),
{
    let header = varint(code) + varint(payload.len());
    lemma_hex_round_trip(payload);
    lemma_decode_lower_concat(header, hex_upper(payload));
    assert(header + payload =~= multihash_bytes(code, payload));
    lemma_multihash_bytes_round_trip(code, payload);
}

fn write_varint(out: &mut Vec<u8>, v: u64)
    ensures
        final(out)@ == old(out)@ + varint(v as nat),
{
    let mut cur: u64 = v;
    while cur >= 128
        invariant
            out@ + varint(cur as nat) == old(out)@ + varint(v as nat),
        decreases cur,
    {
        let b: u8 = (cur % 128 + 128) as u8;
        proof {
            assert(varint(cur as nat) == seq![b] + varint((cur / 128) as nat));
            assert(out@.push(b) + varint((cur / 128) as nat) =~= out@ + varint(cur as nat));
        }
        out.push(b);
        cur = cur / 128;
    }
    proof {
        assert(varint(cur as nat) == seq![cur as u8]);
        assert(out@.push(cur as u8) =~= out@ + varint(cur as nat));
    }
    out.push(cur as u8);
}

fn read_varint_at(b: &[u8], pos: usize, k: u64) -> (r: Option<(u64, usize)>)
    requires
        pos <= b@.len(),
        k <= VARINT_MAX_BYTES,
    ensures
        match read_varint(b@.subrange(pos as int, b@.len() as int), k as nat) {
            None => r is None,
            Some((v, n)) => r matches Some((rv, rn)) && rv as nat == v && rn as nat == n,
        },
    decreases k,
{
    let ghost s = b@.subrange(pos as int, b@.len() as int);
    if k == 0 || pos >= b.len() {
        return None;
    }
    let c = b[pos];
    assert(s[0] == c);
    if c < 128 {
        return Some((c as u64, 1));
    }
    assert(b@.subrange(pos + 1, b@.len() as int) =~= s.drop_first());
    match read_varint_at(b, pos + 1, k - 1) {
        None => None,
        Some((v, n)) => {
            proof {
                lemma_read_varint_bound(s.drop_first(), (k - 1) as nat);
                lemma_pow128_values();
                if k - 1 < 8 {
                    lemma_pow128_mono((k - 1) as nat, 8);
                }
            }
            Some(((c - 128) as u64 + 128 * v, n + 1))
        },
    }
}

proof fn lemma_pow128_mono(i: nat, j: nat)
    requires
        i <= j,
    ensures
        pow128(i) <= pow128(j),
    decreases j,
{
    if i < j {
        lemma_pow128_mono(i, (j - 1) as nat);
        lemma_pow128_pos((j - 1) as nat);
    }
}

/// The multihash bytes of `code` and `payload`.
pub fn multihash_to_bytes(code: u64, payload: &[u8]) -> (r: Vec<u8>)
    requires
        payload@.len() < VARINT_LIMIT,
    ensures
        r@ == multihash_bytes(code as nat, payload@),
{
    let mut out: Vec<u8> = Vec::new();
    write_varint(&mut out, code);
    write_varint(&mut out, payload.len() as u64);
    let mut i: usize = 0;
    let ghost header = out@;
    while i < payload.len()
        invariant
            i <= payload@.len(),
            out@ == header + payload@.subrange(0, i as int),
        decreases payload@.len() - i,
    {
        assert(payload@.subrange(0, i + 1) =~= payload@.subrange(0, i as int).push(payload@[i as int]));
        out.push(payload[i]);
        i = i + 1;
    }
    assert(payload@.subrange(0, i as int) =~= payload@);
    out
}

/// Splits multihash bytes into code and payload; anything that does not
/// parse gives `MalformedMultihash`.
pub fn multihash_from_bytes(b: &[u8]) -> (r: Result<(u64, Vec<u8>), CryptoError>)
    ensures
        parse_multihash(b@) is None ==> r == Err::<(u64, Vec<u8>), CryptoError>(CryptoError::MalformedMultihash),
        parse_multihash(b@) matches Some((code, payload)) ==> r matches Ok((rc, rp)) && rc as nat == code && rp@ == payload,
{
    proof {
        assert(b@.subrange(0, b@.len() as int) =~= b@);
    }
    match read_varint_at(b, 0, VARINT_MAX_BYTES) {
        None => Err(CryptoError::MalformedMultihash),
        Some((code, n)) => {
            proof {
                lemma_read_varint_bound(b@, VARINT_MAX_BYTES as nat);
            }
            let ghost rest = b@.subrange(n as int, b@.len() as int);
            match read_varint_at(b, n, VARINT_MAX_BYTES) {
                None => Err(CryptoError::MalformedMultihash),
                Some((len, m)) => {
                    proof {
                        lemma_read_varint_bound(rest, VARINT_MAX_BYTES as nat);
                    }
                    let start = n + m;
                    if start > b.len() {
                        return Err(CryptoError::MalformedMultihash);
                    }
                    if (b.len() - start) as u64 != len {
                        return Err(CryptoError::MalformedMultihash);
                    }
                    let payload = slice_to_vec(slice_subrange(b, start, b.len()));
                    assert(payload@ =~= rest.subrange(m as int, rest.len() as int));
                    Ok((code, payload))
                },
            }
        },
    }
}

/// The header of a multihash: code, then payload length, as varints.
pub fn multihash_header(code: u64, len: u64) -> (r: Vec<u8>)
    ensures
        r@ == varint(code as nat) + varint(len as nat),
{
    let mut out: Vec<u8> = Vec::new();
    write_varint(&mut out, code);
    write_varint(&mut out, len);
    out
}

/// The text form of a multihash of `code` and `payload`.
pub fn multihash_encode(code: u64, payload: &[u8]) -> (r: String)
    requires
        payload@.len() < VARINT_LIMIT,
    ensures
        r@ == multihash_text(code as nat, payload@),
{
    let header = multihash_header(code, payload.len() as u64);
    let mut text = hex_encode(header.as_slice());
    let tail = hex_encode_upper(payload);
    text.append(tail.as_str());
    text
}

/// Reads multihash text into code and payload; bad hex or bytes that do not
/// parse give `MalformedMultihash`.
pub fn multihash_decode(text: &str) -> (r: Result<(u64, Vec<u8>), CryptoError>)
    ensures
        multihash_decode_spec(text@) is None ==> r == Err::<(u64, Vec<u8>), CryptoError>(CryptoError::MalformedMultihash),
        multihash_decode_spec(text@) matches Some((code, payload)) ==> r matches Ok((rc, rp)) && rc as nat == code && rp@ == payload,
{
    match hex_decode(text) {
        Err(_) => Err(CryptoError::MalformedMultihash),
        Ok(bytes) => multihash_from_bytes(bytes.as_slice()),
    }
}

} // verus!
