use vstd::prelude::*;

verus! {

/// The length of a hash in bytes.
pub const HASH_LENGTH: usize = 32;

/// A 32-byte content hash.
#[derive(Debug, PartialEq, Eq)]
pub struct Hash {
    bytes: Vec<u8>,
}

impl View for Hash {
    type V = Seq<u8>;

    closed spec fn view(&self) -> Seq<u8> {
        self.bytes@
    }
}

impl Hash {
    #[verifier::type_invariant]
    spec fn inv(self) -> bool {
        self.bytes@.len() == HASH_LENGTH
    }

    /// The all-zero hash, a placeholder that stands for no content.
    pub fn zeroed() -> (r: Hash)
        ensures
            r@ == Seq::new(HASH_LENGTH as nat, |i: int| 0u8),
    {
        let mut bytes: Vec<u8> = Vec::new();
        let mut i: usize = 0;
        while i < HASH_LENGTH
            invariant
                i <= HASH_LENGTH,
                bytes@ == Seq::new(i as nat, |j: int| 0u8),
            decreases HASH_LENGTH - i,
        {
            bytes.push(0);
            i = i + 1;
            assert(bytes@ =~= Seq::new(i as nat, |j: int| 0u8));
        }
        Hash { bytes }
    }

    /// A hash whose digest was computed already.
    pub fn prehashed(digest: [u8; 32]) -> (r: Hash)
        ensures
            r@ == digest@,
    {
        let mut bytes: Vec<u8> = Vec::new();
        let mut i: usize = 0;
        while i < HASH_LENGTH
            invariant
                i <= HASH_LENGTH,
                digest@.len() == HASH_LENGTH,
                bytes@ == digest@.subrange(0, i as int),
            decreases HASH_LENGTH - i,
        {
            bytes.push(digest[i]);
            i = i + 1;
            assert(bytes@ =~= digest@.subrange(0, i as int));
        }
        assert(bytes@ =~= digest@);
        Hash { bytes }
    }

    /// The digest's bytes.
    pub fn payload(&self) -> (r: Vec<u8>)
        ensures
            r@ == self@,
            r@.len() == HASH_LENGTH,
    {
        proof { use_type_invariant(self); }
        vstd::slice::slice_to_vec(self.bytes.as_slice())
    }
}

impl Clone for Hash {
    fn clone(&self) -> Self {
        proof { use_type_invariant(self); }
        Hash { bytes: vstd::slice::slice_to_vec(self.bytes.as_slice()) }
    }
}

} // verus!
