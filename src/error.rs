use vstd::prelude::*;
use vstd::string::*;

verus! {

/// Every way an operation of this library can fail.
#[derive(Clone, Copy, Debug, PartialEq, Eq, Structural)]
pub enum CryptoError {
    InvalidAlgorithmName,
    MalformedHex,
    MalformedMultihash,
    UnknownAlgorithm,
    InvalidKeyPayload,
    InvalidSeedLength,
    KeyMismatch,
    VerificationFailed,
    AlgorithmMismatch,
}

/// The human-readable text of each error kind.
pub open spec fn message_of(e: CryptoError) -> Seq<char> {
    match e {
        CryptoError::InvalidAlgorithmName => "unknown algorithm name"@,
        CryptoError::MalformedHex => "malformed hex string"@,
        CryptoError::MalformedMultihash => "malformed multihash"@,
        CryptoError::UnknownAlgorithm => "multihash names no supported algorithm"@,
        CryptoError::InvalidKeyPayload => "key bytes are not valid for the algorithm"@,
        CryptoError::InvalidSeedLength => "seed has the wrong length"@,
        CryptoError::KeyMismatch => "public key does not belong to private key"@,
        CryptoError::VerificationFailed => "signature verification failed"@,
        CryptoError::AlgorithmMismatch => "signature does not fit the key's algorithm"@,
    }
}

impl CryptoError {
    /// A sentence that says what went wrong.
    pub fn message(self) -> (r: String)
        ensures
            r@ == message_of(self),
    {
        let text = match self {
            CryptoError::InvalidAlgorithmName => "unknown algorithm name",
            CryptoError::MalformedHex => "malformed hex string",
            CryptoError::MalformedMultihash => "malformed multihash",
            CryptoError::UnknownAlgorithm => "multihash names no supported algorithm",
            CryptoError::InvalidKeyPayload => "key bytes are not valid for the algorithm",
            CryptoError::InvalidSeedLength => "seed has the wrong length",
            CryptoError::KeyMismatch => "public key does not belong to private key",
            CryptoError::VerificationFailed => "signature verification failed",
            CryptoError::AlgorithmMismatch => "signature does not fit the key's algorithm",
        };
        String::from_str(text)
    }
}

} // verus!
