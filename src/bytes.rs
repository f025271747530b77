use vstd::prelude::*;
use vstd::slice::slice_to_vec;

use crate::error::CryptoError;
use crate::hexcodec::{hex_decode, hex_decode_spec, hex_lower, lemma_hex_round_trip};

verus! {

/// Binary input as a caller with only a text-safe channel may give it:
/// the bytes themselves, or hex text of them.
#[derive(Debug, PartialEq, Eq)]
pub enum Bytes {
    Array(Vec<u8>),
    Hex(String),
}

/// The bytes that an input stands for; `None` where its hex is malformed.
pub open spec fn resolved(input: Bytes) -> Option<Seq<u8>> {
    match input {
        Bytes::Array(v) => Some(v@),
        Bytes::Hex(s) => hex_decode_spec(s@),
    }
}

impl Bytes {
    /// The bytes this input stands for; malformed hex gives `MalformedHex`.
    pub fn resolve(&self) -> (r: Result<Vec<u8>, CryptoError>)
        ensures
            resolved(*self) is None ==> r == Err::<Vec<u8>, CryptoError>(CryptoError::MalformedHex),
            resolved(*self) matches Some(b) ==> (r matches Ok(v) && v@ == b),
    {
        match self {
            Bytes::Array(v) => Ok(slice_to_vec(v.as_slice())),
            Bytes::Hex(s) => hex_decode(s.as_str()),
        }
    }
}

/// The bytes `p`, given as an array or as their hex text, resolve to `p`.
pub proof fn lemma_resolve_round_trip(p: Seq<u8>, input: Bytes)
    requires
        match input {
            Bytes::Array(v) => v@ == p,
            Bytes::Hex(s) => s@ == hex_lower(p),
        },
    ensures
        resolved(input) == Some(p),
{
    lemma_hex_round_trip(p);
}

} // verus!
