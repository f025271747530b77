use vstd::prelude::*;
use vstd::slice::slice_to_vec;

use crate::error::CryptoError;
use crate::hexcodec::{hex_decode, hex_decode_spec};

verus! {

/// The bytes of a signature. Which algorithm made them is learnt from the
/// public key that it is checked against.
#[derive(Debug, PartialEq, Eq)]
pub struct Signature {
    payload: Vec<u8>,
}

impl View for Signature {
    type V = Seq<u8>;

    closed spec fn view(&self) -> Seq<u8> {
        self.payload@
    }
}

impl Signature {
    /// A signature over exactly these bytes; nothing is checked before
    /// verification.
    pub fn from_raw(payload: &[u8]) -> (r: Signature)
        ensures
            r@ == payload@,
    {
        Signature { payload: slice_to_vec(payload) }
    }

    /// A signature over the bytes that hex text stands for.
    pub fn from_raw_hex(hex: &str) -> (r: Result<Signature, CryptoError>)
        ensures
            hex_decode_spec(hex@) is None ==> r == Err::<Signature, CryptoError>(CryptoError::MalformedHex),
            hex_decode_spec(hex@) matches Some(b) ==> (r matches Ok(s) && s@ == b),
    {
        match hex_decode(hex) {
            Err(e) => Err(e),
            Ok(bytes) => Ok(Signature::from_raw(bytes.as_slice())),
        }
    }

    /// The signature's bytes.
    pub fn payload(&self) -> (r: Vec<u8>)
        ensures
            r@ == self@,
    {
        slice_to_vec(self.payload.as_slice())
    }
}

impl Clone for Signature {
    fn clone(&self) -> Self {
        Signature { payload: slice_to_vec(self.payload.as_slice()) }
    }
}

} // verus!
