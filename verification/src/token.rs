use base64::engine::general_purpose::URL_SAFE_NO_PAD;
use base64::Engine;
use sha2::{Digest, Sha256};
use subtle::ConstantTimeEq;
use vstd::prelude::*;

verus! {

/// Length in bytes of every secret token.
pub const TOKEN_BYTES: usize = 32;

#[verifier::external_type_specification]
#[verifier::external_body]
pub struct ExEntropyError(getrandom::Error);

/// The unpadded URL-safe Base64 text of `bytes`.
pub uninterp spec fn base64_url_encoding(bytes: Seq<u8>) -> Seq<char>;

/// The bytes that unpadded URL-safe Base64 text `text` stands for, or `None`
/// when it is not such text.
pub uninterp spec fn base64_url_decoding(text: Seq<char>) -> Option<Seq<u8>>;

/// The SHA-256 digest of `bytes`.
pub uninterp spec fn sha256_digest(bytes: Seq<u8>) -> Seq<u8>;

/// Fills `bytes` from the operating system's secure random source.
///
/// Trusted: calls `getrandom::fill`. The bytes it writes are random, so
/// nothing is stated of them.
#[verifier::external_body]
fn fill_random(bytes: &mut [u8; 32]) -> (r: Result<(), getrandom::Error>) {
    getrandom::fill(bytes)
}

/// Encodes 32 bytes as unpadded URL-safe Base64.
///
/// Trusted: calls `URL_SAFE_NO_PAD.encode` of the `base64` crate. Decoding
/// its output with the same engine gives the input back.
#[verifier::external_body]
fn encode_url_safe(bytes: &[u8; 32]) -> (r: String)
    ensures
        r@ == base64_url_encoding(bytes@),
        base64_url_decoding(r@) == Some(bytes@),
{
    URL_SAFE_NO_PAD.encode(bytes)
}

/// Decodes unpadded URL-safe Base64.
///
/// Trusted: calls `URL_SAFE_NO_PAD.decode` of the `base64` crate; its error
/// becomes `None`.
#[verifier::external_body]
fn decode_url_safe(text: &str) -> (r: Option<Vec<u8>>)
    ensures
        match r {
            Some(bytes) => base64_url_decoding(text@) == Some(bytes@),
            None => base64_url_decoding(text@) is None,
        },
{
    URL_SAFE_NO_PAD.decode(text).ok()
}

/// Hashes 32 bytes with SHA-256.
///
/// Trusted: calls `Sha256::digest` of the `sha2` crate.
#[verifier::external_body]
fn sha256(bytes: &[u8; 32]) -> (r: [u8; 32])
    ensures
        r@ == sha256_digest(bytes@),
{
    Sha256::digest(bytes).into()
}

/// Compares two 32-byte values in constant time.
///
/// Trusted: calls `ConstantTimeEq::ct_eq` of the `subtle` crate on the two
/// slices, which yields 1 exactly when they have the same length and the
/// same bytes.
#[verifier::external_body]
fn constant_time_equal(a: &[u8; 32], b: &[u8; 32]) -> (r: bool)
    ensures
        r == (a@ == b@),
{
    bool::from(a.as_slice().ct_eq(b.as_slice()))
}

/// The error returned for text that is not 32 bytes of unpadded URL-safe
/// Base64.
#[derive(Clone, Copy, Debug, PartialEq, Eq, Structural)]
pub struct TokenError;

impl TokenError {
    /// Returns a text description of the error.
    pub fn message(&self) -> (r: &'static str)
        ensures
            r@ == "token must be 32 bytes of unpadded URL-safe Base64"@,
    {
        "token must be 32 bytes of unpadded URL-safe Base64"
    }
}

/// The bytes a token parses to: those `text` decodes to, when they are
/// exactly 32.
pub open spec fn token_bytes_in(text: Seq<char>) -> Option<Seq<u8>> {
    match base64_url_decoding(text) {
        Some(b) => if b.len() == TOKEN_BYTES {
            Some(b)
        } else {
            None
        },
        None => None,
    }
}

/// A 32-byte secret: a session token, a CSRF token, an OIDC state or a
/// browser binding. It has no `Debug`, so it cannot be logged by accident.
#[derive(Clone)]
pub struct SecretToken {
    bytes: [u8; 32],
}

impl View for SecretToken {
    type V = Seq<u8>;

    closed spec fn view(&self) -> Seq<u8> {
        self.bytes@
    }
}

/// Copies exactly 32 bytes into an array.
fn to_array(bytes: &Vec<u8>) -> (r: [u8; 32])
    requires
        bytes@.len() == 32,
    ensures
        r@ == bytes@,
{
    let mut r = [0u8; 32];
    let mut i: usize = 0;
    while i < 32
        invariant
            i <= 32,
            bytes@.len() == 32,
            r@.len() == 32,
            forall|j: int| 0 <= j < i ==> r@[j] == bytes@[j],
        decreases 32 - i,
    {
        r[i] = bytes[i];
        i = i + 1;
    }
    assert(r@ =~= bytes@);
    r
}

impl SecretToken {
    /// Draws a fresh token from the secure random source.
    pub fn generate() -> (r: Result<Self, getrandom::Error>)
        ensures
            r matches Ok(t) ==> t@.len() == TOKEN_BYTES,
    {
        let mut bytes = [0u8; 32];
        match fill_random(&mut bytes) {
            Ok(()) => Ok(SecretToken { bytes }),
            Err(e) => Err(e),
        }
    }

    /// Wraps 32 bytes.
    pub fn from_bytes(bytes: [u8; 32]) -> (r: Self)
        ensures
            r@ == bytes@,
    {
        SecretToken { bytes }
    }

    /// Reads a token from its unpadded URL-safe Base64 text.
    pub fn parse(value: &str) -> (r: Result<Self, TokenError>)
        ensures
            r is Ok <==> token_bytes_in(value@) is Some,
            r matches Ok(t) ==> token_bytes_in(value@) == Some(t@),
    {
        match decode_url_safe(value) {
            Some(bytes) => {
                if bytes.len() == 32 {
                    Ok(SecretToken { bytes: to_array(&bytes) })
                } else {
                    Err(TokenError)
                }
            },
            None => Err(TokenError),
        }
    }

    /// Writes the token as unpadded URL-safe Base64.
    pub fn encode(&self) -> (r: String)
        ensures
            r@ == base64_url_encoding(self@),
            base64_url_decoding(r@) == Some(self@),
    {
        encode_url_safe(&self.bytes)
    }

    /// The SHA-256 digest under which the token is stored.
    pub fn hash(&self) -> (r: [u8; 32])
        ensures
            r@ == sha256_digest(self@),
    {
        sha256(&self.bytes)
    }

    /// Returns the token's bytes.
    pub fn bytes(&self) -> (r: &[u8; 32])
        ensures
            r@ == self@,
    {
        &self.bytes
    }

    /// Reads a token from stored bytes, which must be exactly 32.
    pub fn from_stored(bytes: Vec<u8>) -> (r: Result<Self, TokenError>)
        ensures
            r is Ok <==> bytes@.len() == TOKEN_BYTES,
            r matches Ok(t) ==> t@ == bytes@,
    {
        if bytes.len() == 32 {
            Ok(SecretToken { bytes: to_array(&bytes) })
        } else {
            Err(TokenError)
        }
    }

    /// Compares with `expected` in constant time.
    pub fn matches(&self, expected: &SecretToken) -> (r: bool)
        ensures
            r == (self@ == expected@),
    {
        constant_time_equal(&self.bytes, &expected.bytes)
    }

    /// Compares the token's digest with `expected` in constant time.
    pub fn matches_hash(&self, expected: &[u8; 32]) -> (r: bool)
        ensures
            r == (sha256_digest(self@) == expected@),
    {
        let digest = self.hash();
        constant_time_equal(&digest, expected)
    }
}

/// A token survives being written out and read back: parsing the encoding
/// of a token gives the same bytes.
pub proof fn lemma_token_round_trip(bytes: Seq<u8>, text: Seq<char>)
    requires
        bytes.len() == TOKEN_BYTES,
        base64_url_decoding(text) == Some(bytes),
    ensures
        token_bytes_in(text) == Some(bytes),
{
}

} // verus!
