use vstd::prelude::*;
use vstd::slice::slice_to_vec;
use vstd::string::*;

use crate::algorithm::{
    algorithm_of_private_code, algorithm_of_public_code, lemma_codes_round_trip, private_code_spec,
    public_code_spec, Algorithm,
};
use crate::error::CryptoError;
use crate::hexcodec::hex_lower;
use crate::multihash::{
    lemma_multihash_round_trip, multihash_decode, multihash_decode_spec, multihash_header, multihash_encode, multihash_text, varint,
    VARINT_LIMIT,
};
use crate::hexcodec::hex_encode;

verus! {

/// The algorithm that a multicodec code names, among private-key codes or
/// among public-key codes.
pub open spec fn code_algorithm(code: nat, private: bool) -> Option<Algorithm> {
    if private {
        algorithm_of_private_code(code)
    } else {
        algorithm_of_public_code(code)
    }
}

/// What key-decoding from multihash text gives: the algorithm that the code
/// names and the payload, or the error.
pub open spec fn decode_key_spec(s: Seq<char>, private: bool) -> Result<(Algorithm, Seq<u8>), CryptoError> {
    match multihash_decode_spec(s) {
        None => Err(CryptoError::MalformedMultihash),
        Some((code, payload)) => match code_algorithm(code, private) {
            None => Err(CryptoError::UnknownAlgorithm),
            Some(a) => Ok((a, payload)),
        },
    }
}

/// The text that stands for a private key without showing it: the multihash
/// header in lowercase hex, then one `*` for each hex digit of the payload.
pub open spec fn masked_text(code: nat, len: nat) -> Seq<char> {
    hex_lower(varint(code) + varint(len)) + Seq::new(2 * len, |i: int| '*')
}

/// A key written as multihash text decodes back to its algorithm and bytes.
pub proof fn lemma_key_text_round_trip(a: Algorithm, payload: Seq<u8>)
    requires
        payload.len() < VARINT_LIMIT,
    ensures
        decode_key_spec(multihash_text(public_code_spec(a), payload), false) == Ok::<
            (Algorithm, Seq<u8>),
            CryptoError,
        >((a, payload)),
        decode_key_spec(multihash_text(private_code_spec(a), payload), true) == Ok::<
            (Algorithm, Seq<u8>),
            CryptoError,
        >((a, payload)),
{
    lemma_codes_round_trip(a);
    lemma_multihash_round_trip(public_code_spec(a), payload);
    lemma_multihash_round_trip(private_code_spec(a), payload);
}

/// A public key: an algorithm and the key's bytes in that algorithm's layout.
#[derive(Debug, PartialEq, Eq)]
pub struct PublicKey {
    algorithm: Algorithm,
    payload: Vec<u8>,
}

/// A private key: an algorithm and the secret bytes in that algorithm's layout.
#[derive(Debug, PartialEq, Eq)]
pub struct PrivateKey {
    algorithm: Algorithm,
    payload: Vec<u8>,
}

impl View for PublicKey {
    type V = (Algorithm, Seq<u8>);

    closed spec fn view(&self) -> (Algorithm, Seq<u8>) {
        (self.algorithm, self.payload@)
    }
}

impl View for PrivateKey {
    type V = (Algorithm, Seq<u8>);

    closed spec fn view(&self) -> (Algorithm, Seq<u8>) {
        (self.algorithm, self.payload@)
    }
}

impl PublicKey {
    #[verifier::type_invariant]
    spec fn inv(self) -> bool {
        self.payload@.len() < VARINT_LIMIT
    }

    /// A key of `algorithm` over `payload`, once the algorithm's provider has
    /// judged the payload: `accepted` is its verdict on the payload's shape.
    pub fn from_raw(algorithm: Algorithm, payload: &[u8], accepted: bool) -> (r: Result<
        PublicKey,
        CryptoError,
    >)
        requires
            payload@.len() < VARINT_LIMIT,
        ensures
            accepted ==> (r matches Ok(k) && k@ == (algorithm, payload@)),
            !accepted ==> r == Err::<PublicKey, CryptoError>(CryptoError::InvalidKeyPayload),
    {
        if accepted {
            Ok(PublicKey { algorithm, payload: slice_to_vec(payload) })
        } else {
            Err(CryptoError::InvalidKeyPayload)
        }
    }

    /// Reads multihash text into the algorithm its public-key code names and
    /// the payload.
    pub fn decode_multihash(text: &str) -> (r: Result<(Algorithm, Vec<u8>), CryptoError>)
        ensures
            decode_key_spec(text@, false) matches Ok((a, p))
                ==> r matches Ok((ra, rp)) && ra == a && rp@ == p,
            decode_key_spec(text@, false) matches Err(e)
                ==> r == Err::<(Algorithm, Vec<u8>), CryptoError>(e),
    {
        match multihash_decode(text) {
            Err(e) => Err(e),
            Ok((code, payload)) => match Algorithm::from_public_code(code) {
                None => Err(CryptoError::UnknownAlgorithm),
                Some(a) => Ok((a, payload)),
            },
        }
    }

    /// The key as multihash text.
    pub fn to_multihash_hex(&self) -> (r: String)
        ensures
            r@ == multihash_text(public_code_spec(self@.0), self@.1),
    {
        proof { use_type_invariant(self); }
        multihash_encode(self.algorithm.public_code(), self.payload.as_slice())
    }

    /// The key's algorithm.
    pub fn algorithm(&self) -> (r: Algorithm)
        ensures
            r == self@.0,
    {
        self.algorithm
    }

    /// The key's bytes.
    pub fn payload(&self) -> (r: Vec<u8>)
        ensures
            r@ == self@.1,
    {
        slice_to_vec(self.payload.as_slice())
    }

    /// A key equal to this one.
    pub fn duplicate(&self) -> (r: PublicKey)
        ensures
            r@ == self@,
    {
        proof { use_type_invariant(self); }
        PublicKey { algorithm: self.algorithm, payload: slice_to_vec(self.payload.as_slice()) }
    }

    /// Whether two keys have the same algorithm and bytes.
    pub fn same_key(&self, other: &PublicKey) -> (r: bool)
        ensures
            r == (self@ == other@),
    {
        if self.algorithm != other.algorithm {
            return false;
        }
        let n = self.payload.len();
        if n != other.payload.len() {
            return false;
        }
        let mut i: usize = 0;
        while i < n
            invariant
                n == self.payload@.len(),
                n == other.payload@.len(),
                i <= n,
                forall|j: int| 0 <= j < i ==> self.payload@[j] == other.payload@[j],
            decreases n - i,
        {
            if self.payload[i] != other.payload[i] {
                return false;
            }
            i = i + 1;
        }
        assert(self.payload@ =~= other.payload@);
        true
    }
}

impl Clone for PublicKey {
    fn clone(&self) -> Self {
        self.duplicate()
    }
}

impl Clone for PrivateKey {
    fn clone(&self) -> Self {
        self.duplicate()
    }
}

impl PrivateKey {
    #[verifier::type_invariant]
    spec fn inv(self) -> bool {
        self.payload@.len() < VARINT_LIMIT
    }

    /// A key of `algorithm` over `payload`, once the algorithm's provider has
    /// judged the payload: `accepted` is its verdict on the payload's shape.
    pub fn from_raw(algorithm: Algorithm, payload: &[u8], accepted: bool) -> (r: Result<
        PrivateKey,
        CryptoError,
    >)
        requires
            payload@.len() < VARINT_LIMIT,
        ensures
            accepted ==> (r matches Ok(k) && k@ == (algorithm, payload@)),
            !accepted ==> r == Err::<PrivateKey, CryptoError>(CryptoError::InvalidKeyPayload),
    {
        if accepted {
            Ok(PrivateKey { algorithm, payload: slice_to_vec(payload) })
        } else {
            Err(CryptoError::InvalidKeyPayload)
        }
    }

    /// Reads multihash text into the algorithm its private-key code names and
    /// the payload.
    pub fn decode_multihash(text: &str) -> (r: Result<(Algorithm, Vec<u8>), CryptoError>)
        ensures
            decode_key_spec(text@, true) matches Ok((a, p))
                ==> r matches Ok((ra, rp)) && ra == a && rp@ == p,
            decode_key_spec(text@, true) matches Err(e)
                ==> r == Err::<(Algorithm, Vec<u8>), CryptoError>(e),
    {
        match multihash_decode(text) {
            Err(e) => Err(e),
            Ok((code, payload)) => match Algorithm::from_private_code(code) {
                None => Err(CryptoError::UnknownAlgorithm),
                Some(a) => Ok((a, payload)),
            },
        }
    }

    /// The key as multihash text with the secret masked: the header, then a
    /// `*` for each hex digit of the payload.
    pub fn to_multihash_hex(&self) -> (r: String)
        ensures
            r@ == masked_text(private_code_spec(self@.0), self@.1.len()),
    {
        proof { use_type_invariant(self); }
        let code = self.algorithm.private_code();
        let len = self.payload.len();
        let header = multihash_header(code, len as u64);
        let mut text = hex_encode(header.as_slice());
        let mut i: usize = 0;
        let ghost prefix = hex_lower(varint(code as nat) + varint(len as nat));
        while i < len
            invariant
                len == self.payload@.len(),
                i <= len,
                text@ == prefix + Seq::new(2 * i as nat, |j: int| '*'),
            decreases len - i,
        {
            let mask = "**";
            proof { reveal_strlit("**"); }
            assert(mask@ =~= seq!['*', '*']);
            text.append(mask);
            assert(text@ =~= prefix + Seq::new(2 * (i + 1) as nat, |j: int| '*'));
            i = i + 1;
        }
        text
    }

    /// The key as multihash text, secret included: the one way to write a
    /// private key out in full.
    pub fn to_multihash_hex_exposed(&self) -> (r: String)
        ensures
            r@ == multihash_text(private_code_spec(self@.0), self@.1),
    {
        proof { use_type_invariant(self); }
        multihash_encode(self.algorithm.private_code(), self.payload.as_slice())
    }

    /// The key's algorithm.
    pub fn algorithm(&self) -> (r: Algorithm)
        ensures
            r == self@.0,
    {
        self.algorithm
    }

    /// The key's secret bytes.
    pub fn payload(&self) -> (r: Vec<u8>)
        ensures
            r@ == self@.1,
    {
        slice_to_vec(self.payload.as_slice())
    }

    /// A key equal to this one.
    pub fn duplicate(&self) -> (r: PrivateKey)
        ensures
            r@ == self@,
    {
        proof { use_type_invariant(self); }
        PrivateKey { algorithm: self.algorithm, payload: slice_to_vec(self.payload.as_slice()) }
    }
}

} // verus!
