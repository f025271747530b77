use vstd::prelude::*;

use crate::algorithm::Algorithm;
use crate::error::CryptoError;
use crate::keys::{PrivateKey, PublicKey};

verus! {

/// A private key with its public key, both of one algorithm. The wrappers
/// handed out for each half are kept once made.
#[derive(Debug)]
pub struct KeyPair {
    public: PublicKey,
    private: PrivateKey,
    public_cache: Option<PublicKey>,
    private_cache: Option<PrivateKey>,
}

impl View for KeyPair {
    type V = ((Algorithm, Seq<u8>), (Algorithm, Seq<u8>));

    closed spec fn view(&self) -> ((Algorithm, Seq<u8>), (Algorithm, Seq<u8>)) {
        (self.public@, self.private@)
    }
}

impl KeyPair {
    #[verifier::type_invariant]
    spec fn inv(self) -> bool {
        &&& self.public@.0 == self.private@.0
        &&& self.public_cache matches Some(k) ==> k@ == self.public@
        &&& self.private_cache matches Some(k) ==> k@ == self.private@
    }

    /// Whether the public half has been handed out and kept.
    pub closed spec fn public_cached(&self) -> bool {
        self.public_cache is Some
    }

    /// Whether the private half has been handed out and kept.
    pub closed spec fn private_cached(&self) -> bool {
        self.private_cache is Some
    }

    /// A pair of halves that the algorithm's provider generated together (at
    /// random, from a seed); halves of two algorithms give `KeyMismatch`.
    pub fn from_generated(public: PublicKey, private: PrivateKey) -> (r: Result<KeyPair, CryptoError>)
        ensures
            public@.0 == private@.0 ==> (r matches Ok(kp) && kp@ == (public@, private@)
                && !kp.public_cached() && !kp.private_cached()),
            public@.0 != private@.0 ==> r == Err::<KeyPair, CryptoError>(CryptoError::KeyMismatch),
    {
        if public.algorithm() != private.algorithm() {
            return Err(CryptoError::KeyMismatch);
        }
        Ok(KeyPair { public, private, public_cache: None, private_cache: None })
    }

    /// Pairs `public` with `private`, where `derived` is the public key that the
    /// provider derives from `private`. Fails with `KeyMismatch` unless the
    /// algorithms agree and `public` is that key.
    pub fn from_parts(public: &PublicKey, private: &PrivateKey, derived: &PublicKey) -> (r: Result<
        KeyPair,
        CryptoError,
    >)
        ensures
            (public@.0 == private@.0 && public@ == derived@) ==> (r matches Ok(kp) && kp@ == (
            public@, private@) && kp.public_cached() && kp.private_cached()),
            !(public@.0 == private@.0 && public@ == derived@) ==> r == Err::<KeyPair, CryptoError>(
                CryptoError::KeyMismatch,
            ),
    {
        if public.algorithm() != private.algorithm() || !public.same_key(derived) {
            return Err(CryptoError::KeyMismatch);
        }
        Ok(KeyPair {
            public: public.duplicate(),
            private: private.duplicate(),
            public_cache: Some(public.duplicate()),
            private_cache: Some(private.duplicate()),
        })
    }

    /// The pair of `key` and `derived`, the public key that the provider
    /// derives from it; a derived key of another algorithm gives `KeyMismatch`.
    pub fn derive_from_private_key(key: &PrivateKey, derived: PublicKey) -> (r: Result<
        KeyPair,
        CryptoError,
    >)
        ensures
            derived@.0 == key@.0 ==> (r matches Ok(kp) && kp@ == (derived@, key@)
                && !kp.public_cached() && kp.private_cached()),
            derived@.0 != key@.0 ==> r == Err::<KeyPair, CryptoError>(CryptoError::KeyMismatch),
    {
        if derived.algorithm() != key.algorithm() {
            return Err(CryptoError::KeyMismatch);
        }
        Ok(KeyPair {
            public: derived,
            private: key.duplicate(),
            public_cache: None,
            private_cache: Some(key.duplicate()),
        })
    }

    /// The algorithm of both halves.
    pub fn algorithm(&self) -> (r: Algorithm)
        ensures
            r == self@.0.0,
            r == self@.1.0,
    {
        proof { use_type_invariant(self); }
        self.public.algorithm()
    }

    /// The public half, made and kept on the first call.
    pub fn public_key(&mut self) -> (r: PublicKey)
        ensures
            r@ == old(self)@.0,
            final(self)@ == old(self)@,
            final(self).public_cached(),
            final(self).private_cached() == old(self).private_cached(),
    {
        proof { use_type_invariant(&*self); }
        match &self.public_cache {
            Some(k) => k.duplicate(),
            None => {
                let k = self.public.duplicate();
                let r = k.duplicate();
                self.public_cache = Some(k);
                r
            },
        }
    }

    /// The private half, made and kept on the first call.
    pub fn private_key(&mut self) -> (r: PrivateKey)
        ensures
            r@ == old(self)@.1,
            final(self)@ == old(self)@,
            final(self).private_cached(),
            final(self).public_cached() == old(self).public_cached(),
    {
        proof { use_type_invariant(&*self); }
        match &self.private_cache {
            Some(k) => k.duplicate(),
            None => {
                let k = self.private.duplicate();
                let r = k.duplicate();
                self.private_cache = Some(k);
                r
            },
        }
    }

    /// A pair equal to this one, with the same halves kept.
    pub fn duplicate(&self) -> (r: KeyPair)
        ensures
            r@ == self@,
    {
        proof { use_type_invariant(self); }
        let public_cache = match &self.public_cache {
            Some(k) => Some(k.duplicate()),
            None => None,
        };
        let private_cache = match &self.private_cache {
            Some(k) => Some(k.duplicate()),
            None => None,
        };
        KeyPair {
            public: self.public.duplicate(),
            private: self.private.duplicate(),
            public_cache,
            private_cache,
        }
    }
}

impl Clone for KeyPair {
    fn clone(&self) -> Self {
        self.duplicate()
    }
}

} // verus!
