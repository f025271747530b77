use vstd::prelude::*;
use vstd::string::*;

use crate::error::CryptoError;

verus! {

/// The closed set of supported signature algorithms.
#[derive(Clone, Copy, Debug, PartialEq, Eq, Structural)]
pub enum Algorithm {
    Ed25519,
    Secp256k1,
    BlsNormal,
    BlsSmall,
}

/// The canonical lowercase name of an algorithm.
pub open spec fn name_of(a: Algorithm) -> Seq<char> {
    match a {
        Algorithm::Ed25519 => seq!['e', 'd', '2', '5', '5', '1', '9'],
        Algorithm::Secp256k1 => seq!['s', 'e', 'c', 'p', '2', '5', '6', 'k', '1'],
        Algorithm::BlsNormal => seq!['b', 'l', 's', '_', 'n', 'o', 'r', 'm', 'a', 'l'],
        Algorithm::BlsSmall => seq!['b', 'l', 's', '_', 's', 'm', 'a', 'l', 'l'],
    }
}

/// The algorithm whose canonical name is exactly `s`, if any.
pub open spec fn parse_spec(s: Seq<char>) -> Option<Algorithm> {
    if s == name_of(Algorithm::Ed25519) {
        Some(Algorithm::Ed25519)
    } else if s == name_of(Algorithm::Secp256k1) {
        Some(Algorithm::Secp256k1)
    } else if s == name_of(Algorithm::BlsNormal) {
        Some(Algorithm::BlsNormal)
    } else if s == name_of(Algorithm::BlsSmall) {
        Some(Algorithm::BlsSmall)
    } else {
        None
    }
}

/// The algorithm used when the caller names none.
pub fn algorithm_default() -> (r: Algorithm)
    ensures
        r == Algorithm::Ed25519,
{
    Algorithm::Ed25519
}

fn same_chars(s: &str, t: &str) -> (r: bool)
    ensures
        r == (s@ == t@),
{
    let n = s.unicode_len();
    let m = t.unicode_len();
    if n != m {
        return false;
    }
    let mut i: usize = 0;
    while i < n
        invariant
            n == s@.len(),
            m == t@.len(),
            n == m,
            i <= n,
            s@.subrange(0, i as int) == t@.subrange(0, i as int),
        decreases n - i,
    {
        if s.get_char(i) != t.get_char(i) {
            assert(s@[i as int] != t@[i as int]);
            return false;
        }
        assert(s@.subrange(0, i + 1) =~= s@.subrange(0, i as int).push(s@[i as int]));
        assert(t@.subrange(0, i + 1) =~= t@.subrange(0, i as int).push(t@[i as int]));
        i = i + 1;
    }
    assert(s@ =~= s@.subrange(0, n as int));
    assert(t@ =~= t@.subrange(0, n as int));
    true
}

impl Algorithm {
    fn name_str(self) -> (r: &'static str)
        ensures
            r@ == name_of(self),
    {
        match self {
            Algorithm::Ed25519 => {
                proof { reveal_strlit("ed25519"); }
                let r = "ed25519";
                assert(r@ =~= name_of(self));
                r
            },
            Algorithm::Secp256k1 => {
                proof { reveal_strlit("secp256k1"); }
                let r = "secp256k1";
                assert(r@ =~= name_of(self));
                r
            },
            Algorithm::BlsNormal => {
                proof { reveal_strlit("bls_normal"); }
                let r = "bls_normal";
                assert(r@ =~= name_of(self));
                r
            },
            Algorithm::BlsSmall => {
                proof { reveal_strlit("bls_small"); }
                let r = "bls_small";
                assert(r@ =~= name_of(self));
                r
            },
        }
    }

    /// Reads an algorithm from its canonical name; the match is exact and
    /// case-sensitive.
    pub fn parse(name: &str) -> (r: Result<Algorithm, CryptoError>)
        ensures
            parse_spec(name@) is Some ==> r == Ok::<Algorithm, CryptoError>(parse_spec(name@)->0),
            parse_spec(name@) is None ==> r == Err::<Algorithm, CryptoError>(CryptoError::InvalidAlgorithmName),
    {
        if same_chars(name, Algorithm::Ed25519.name_str()) {
            Ok(Algorithm::Ed25519)
        } else if same_chars(name, Algorithm::Secp256k1.name_str()) {
            Ok(Algorithm::Secp256k1)
        } else if same_chars(name, Algorithm::BlsNormal.name_str()) {
            Ok(Algorithm::BlsNormal)
        } else if same_chars(name, Algorithm::BlsSmall.name_str()) {
            Ok(Algorithm::BlsSmall)
        } else {
            Err(CryptoError::InvalidAlgorithmName)
        }
    }

    /// The canonical lowercase name of this algorithm.
    pub fn format(self) -> (r: String)
        ensures
            r@ == name_of(self),
    {
        String::from_str(self.name_str())
    }
}

/// The multicodec code under which a public key of `a` is encoded.
pub open spec fn public_code_spec(a: Algorithm) -> nat {
    match a {
        Algorithm::Ed25519 => 0xed,
        Algorithm::Secp256k1 => 0xe7,
        Algorithm::BlsNormal => 0xea,
        Algorithm::BlsSmall => 0xeb,
    }
}

/// The multicodec code under which a private key of `a` is encoded.
pub open spec fn private_code_spec(a: Algorithm) -> nat {
    match a {
        Algorithm::Ed25519 => 0x1300,
        Algorithm::Secp256k1 => 0x1301,
        Algorithm::BlsNormal => 0x1309,
        Algorithm::BlsSmall => 0x130a,
    }
}

/// The algorithm whose public-key code is `c`, if any.
pub open spec fn algorithm_of_public_code(c: nat) -> Option<Algorithm> {
    if c == 0xed {
        Some(Algorithm::Ed25519)
    } else if c == 0xe7 {
        Some(Algorithm::Secp256k1)
    } else if c == 0xea {
        Some(Algorithm::BlsNormal)
    } else if c == 0xeb {
        Some(Algorithm::BlsSmall)
    } else {
        None
    }
}

/// The algorithm whose private-key code is `c`, if any.
pub open spec fn algorithm_of_private_code(c: nat) -> Option<Algorithm> {
    if c == 0x1300 {
        Some(Algorithm::Ed25519)
    } else if c == 0x1301 {
        Some(Algorithm::Secp256k1)
    } else if c == 0x1309 {
        Some(Algorithm::BlsNormal)
    } else if c == 0x130a {
        Some(Algorithm::BlsSmall)
    } else {
        None
    }
}

impl Algorithm {
    /// The multicodec code of a public key of this algorithm.
    pub fn public_code(self) -> (r: u64)
        ensures
            r as nat == public_code_spec(self),
    {
        match self {
            Algorithm::Ed25519 => 0xed,
            Algorithm::Secp256k1 => 0xe7,
            Algorithm::BlsNormal => 0xea,
            Algorithm::BlsSmall => 0xeb,
        }
    }

    /// The multicodec code of a private key of this algorithm.
    pub fn private_code(self) -> (r: u64)
        ensures
            r as nat == private_code_spec(self),
    {
        match self {
            Algorithm::Ed25519 => 0x1300,
            Algorithm::Secp256k1 => 0x1301,
            Algorithm::BlsNormal => 0x1309,
            Algorithm::BlsSmall => 0x130a,
        }
    }

    /// The algorithm of a public-key code.
    pub fn from_public_code(c: u64) -> (r: Option<Algorithm>)
        ensures
            r == algorithm_of_public_code(c as nat),
    {
        if c == 0xed {
            Some(Algorithm::Ed25519)
        } else if c == 0xe7 {
            Some(Algorithm::Secp256k1)
        } else if c == 0xea {
            Some(Algorithm::BlsNormal)
        } else if c == 0xeb {
            Some(Algorithm::BlsSmall)
        } else {
            None
        }
    }

    /// The algorithm of a private-key code.
    pub fn from_private_code(c: u64) -> (r: Option<Algorithm>)
        ensures
            r == algorithm_of_private_code(c as nat),
    {
        if c == 0x1300 {
            Some(Algorithm::Ed25519)
        } else if c == 0x1301 {
            Some(Algorithm::Secp256k1)
        } else if c == 0x1309 {
            Some(Algorithm::BlsNormal)
        } else if c == 0x130a {
            Some(Algorithm::BlsSmall)
        } else {
            None
        }
    }
}

/// The algorithm a caller asked for by name, or the default where it named
/// none.
pub fn resolve_algorithm(name: Option<&str>) -> (r: Result<Algorithm, CryptoError>)
    ensures
        name is None ==> r == Ok::<Algorithm, CryptoError>(Algorithm::Ed25519),
        name is Some && parse_spec(name->0@) is Some ==> r == Ok::<Algorithm, CryptoError>(
            parse_spec(name->0@)->0,
        ),
        name is Some && parse_spec(name->0@) is None ==> r == Err::<Algorithm, CryptoError>(
            CryptoError::InvalidAlgorithmName,
        ),
{
    match name {
        None => Ok(algorithm_default()),
        Some(s) => Algorithm::parse(s),
    }
}

/// Each algorithm is found again from its public and its private code.
pub proof fn lemma_codes_round_trip(a: Algorithm)
    ensures
        algorithm_of_public_code(public_code_spec(a)) == Some(a),
        algorithm_of_private_code(private_code_spec(a)) == Some(a),
{
}

/// Formatting an algorithm and parsing the name gives the algorithm back.
pub proof fn lemma_parse_format(a: Algorithm)
    ensures
        parse_spec(name_of(a)) == Some(a),
{
    let e = name_of(Algorithm::Ed25519);
    let s = name_of(Algorithm::Secp256k1);
    let n = name_of(Algorithm::BlsNormal);
    let m = name_of(Algorithm::BlsSmall);
    assert(e.len() != s.len() && e.len() != n.len() && e.len() != m.len());
    assert(s.len() != n.len());
    assert(s[0] != m[0]);
    assert(n.len() != m.len());
}

} // verus!
