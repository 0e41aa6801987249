//! The bearer-token codec: plaintext generation, format validation, and the
//! hashed form under which a token is stored and looked up.

use vstd::prelude::*;
use rand::Rng;
use sha2::Digest;

verus! {

use vstd::string::StrSliceExecFns;
use vstd::string::StringSliceAdditionalSpecFns;

/// Length of the random suffix of a plaintext token.
pub const TOKEN_LENGTH: usize = 32;

/// What sha2's SHA-256 returns for a byte sequence.
pub uninterp spec fn sha256_of(data: Seq<u8>) -> Seq<u8>;

/// `bytes` repeated `n` times, back to back.
pub open spec fn spec_repeat(bytes: Seq<u8>, n: nat) -> Seq<u8>
    decreases n,
{
    if n == 0 {
        Seq::empty()
    } else {
        spec_repeat(bytes, (n - 1) as nat) + bytes
    }
}

/// The stored form of a token: the digest of its UTF-8 bytes fed to the
/// hash function `TOKEN_LENGTH` times over.
pub open spec fn spec_token_hash(plaintext: Seq<char>) -> Seq<u8> {
    sha256_of(spec_repeat(vstd::utf8::encode_utf8(plaintext), TOKEN_LENGTH as nat))
}

/// Whether the token text carries the fixed issuance prefix.
pub open spec fn spec_has_token_prefix(s: Seq<char>) -> bool {
    s.len() >= 5 && s.subrange(0, 5) == "dbots"@
}

/// Relies on sha2::Sha256::digest: one complete SHA-256 digest of the input.
/// The result is a function of the bytes alone and is 32 bytes long.
#[verifier::external_body]
fn sha256_digest(data: &[u8]) -> (r: Vec<u8>)
    ensures
        r@ == sha256_of(data@),
        r@.len() == 32,
{
    sha2::Sha256::digest(data).to_vec()
}

/// Relies on rand::Rng::gen_range over rand::rngs::OsRng: a value drawn
/// below `n`. Nothing is assumed beyond the bound; the draw is random.
#[verifier::external_body]
fn os_random_below(n: usize) -> (r: usize)
    requires
        n > 0,
    ensures
        r < n,
{
    rand::rngs::OsRng.gen_range(0..n)
}

/// Relies on String::push: appends exactly the one character.
#[verifier::external_body]
fn push_char(s: &mut String, c: char)
    ensures
        final(s)@ == old(s)@.push(c),
{
    s.push(c);
}

/// An error indicating that a token does not carry the expected prefix.
#[derive(Clone, Copy, Debug)]
pub struct InvalidTokenError;

impl InvalidTokenError {
    /// The fixed description of this error.
    pub fn message(&self) -> (r: &'static str)
        ensures
            r@ == "invalid token format"@,
    {
        "invalid token format"
    }
}

/// The storage-safe form of a bearer token: a hash, never the plaintext.
/// Deliberately without `Debug`: the hash bytes never reach a log line.
pub struct HashedToken {
    bytes: Vec<u8>,
}

impl View for HashedToken {
    type V = Seq<u8>;

    closed spec fn view(&self) -> Seq<u8> {
        self.bytes@
    }
}

/// Whether the first five characters of `s` read `dbots`.
fn starts_with_token_prefix(s: &str) -> (r: bool)
    ensures
        r == spec_has_token_prefix(s@),
{
    proof {
        reveal_strlit("dbots");
    }
    let n = s.unicode_len();
    if n < 5 {
        return false;
    }
    let r = s.get_char(0) == 'd' && s.get_char(1) == 'b' && s.get_char(2) == 'o' && s.get_char(3)
        == 't' && s.get_char(4) == 's';
    proof {
        assert(s@.subrange(0, 5)[0] == s@[0]);
        assert(s@.subrange(0, 5)[1] == s@[1]);
        assert(s@.subrange(0, 5)[2] == s@[2]);
        assert(s@.subrange(0, 5)[3] == s@[3]);
        assert(s@.subrange(0, 5)[4] == s@[4]);
        if r {
            assert(s@.subrange(0, 5) =~= "dbots"@);
        }
    }
    r
}

impl HashedToken {
    /// The hash bytes under which the token is stored and looked up.
    pub fn as_bytes(&self) -> (r: &Vec<u8>)
        ensures
            r@ == self@,
    {
        &self.bytes
    }

    /// Validates the prefix of a plaintext token and hashes it. Tokens
    /// without the fixed prefix are a historical class that is permanently
    /// rejected.
    pub fn parse(plaintext: &str) -> (r: Result<HashedToken, InvalidTokenError>)
        ensures
            match r {
                Ok(h) => spec_has_token_prefix(plaintext@) && h@ == spec_token_hash(plaintext@),
                Err(_) => !spec_has_token_prefix(plaintext@),
            },
    {
        if !starts_with_token_prefix(plaintext) {
            return Err(InvalidTokenError);
        }
        Ok(HashedToken { bytes: Self::hash(plaintext) })
    }

    /// Digests the plaintext, feeding its bytes to the hash function
    /// `TOKEN_LENGTH` times over.
    pub fn hash(plaintext: &str) -> (r: Vec<u8>)
        ensures
            r@ == spec_token_hash(plaintext@),
            r@.len() == 32,
    {
        let bytes: &[u8] = plaintext.as_bytes();
        let mut input: Vec<u8> = Vec::new();
        let mut i: usize = 0;
        while i < TOKEN_LENGTH
            invariant
                i <= TOKEN_LENGTH,
                bytes@ == plaintext.spec_bytes(),
                input@ == spec_repeat(bytes@, i as nat),
            decreases TOKEN_LENGTH - i,
        {
            input.extend_from_slice(bytes);
            i = i + 1;
        }
        sha256_digest(input.as_slice())
    }
}

/// Whether `c` may appear in the random suffix of a token.
pub open spec fn is_token_char(c: char) -> bool {
    ('a' <= c && c <= 'z') || ('A' <= c && c <= 'Z') || ('0' <= c && c <= '9')
}

/// The alphanumeric character that a random draw below 62 selects: the
/// lower-case letters first, then the upper-case letters, then the
/// digits, so that distinct draws select distinct characters.
fn token_char(idx: usize) -> (c: char)
    requires
        idx < 62,
    ensures
        is_token_char(c),
        idx < 26 ==> c as int == 97 + idx,
        26 <= idx < 52 ==> c as int == 65 + (idx - 26),
        52 <= idx < 62 ==> c as int == 48 + (idx - 52),
{
    if idx < 26 {
        (97u8 + idx as u8) as char
    } else if idx < 52 {
        (65u8 + (idx - 26) as u8) as char
    } else {
        (48u8 + (idx - 52) as u8) as char
    }
}

/// A freshly issued plaintext token. It is handed out exactly once, at
/// issuance; everything stored afterwards is the hash. Deliberately
/// without `Debug`: the secret never reaches a log line.
pub struct PlainToken {
    plain: String,
}

impl View for PlainToken {
    type V = Seq<char>;

    closed spec fn view(&self) -> Seq<char> {
        self.plain@
    }
}

impl PlainToken {
    /// The plaintext itself. Callers show this to the user once.
    pub fn expose_secret(&self) -> (r: &str)
        ensures
            r@ == self@,
    {
        self.plain.as_str()
    }

    /// Draws a fresh token: the fixed prefix followed by `TOKEN_LENGTH`
    /// random alphanumeric characters.
    pub fn generate() -> (r: PlainToken)
        ensures
            spec_has_token_prefix(r@),
            r@.len() == 5 + TOKEN_LENGTH,
            forall|i: int| 5 <= i < r@.len() ==> is_token_char(#[trigger] r@[i]),
    {
        proof {
            reveal_strlit("dbots");
        }
        let mut s: String = "dbots".to_owned();
        let mut i: usize = 0;
        while i < TOKEN_LENGTH
            invariant
                i <= TOKEN_LENGTH,
                s@.len() == 5 + i,
                s@.subrange(0, 5) == "dbots"@,
                forall|j: int| 5 <= j < s@.len() ==> is_token_char(#[trigger] s@[j]),
            decreases TOKEN_LENGTH - i,
        {
            let idx = os_random_below(62);
            let c = token_char(idx);
            push_char(&mut s, c);
            proof {
                assert(s@.subrange(0, 5) =~= "dbots"@);
            }
            i = i + 1;
        }
        PlainToken { plain: s }
    }

    /// The stored form of this token.
    pub fn hashed(&self) -> (r: HashedToken)
        ensures
            r@ == spec_token_hash(self@),
    {
        HashedToken { bytes: HashedToken::hash(self.plain.as_str()) }
    }
}

} // verus!
