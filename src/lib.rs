//! Algorithm-polymorphic key, signature and hash values with a verified
//! canonical encoding (hex, multihash, structured byte input).

pub mod error;
pub mod algorithm;
pub mod hexcodec;
pub mod multihash;
pub mod keys;
pub mod keypair;
pub mod signature;
pub mod hash;
pub mod bytes;
