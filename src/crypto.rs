//! The closed set of algorithms with which webhook bodies are decoded and
//! their source verified.

use vstd::prelude::*;

use hmac::Mac;

verus! {

/// HMAC-SHA-256 of `message` under `key`.
pub uninterp spec fn hmac_sha256_of(key: Seq<u8>, message: Seq<u8>) -> Seq<u8>;

/// Relies on hmac's `Hmac<Sha256>`: `new_from_slice` accepts a key of any
/// length, and the tag is the 32 bytes of HMAC-SHA-256 of the message.
#[verifier::external_body]
fn hmac_sha256(key: &[u8], message: &[u8]) -> (r: Vec<u8>)
    ensures
        r@ == hmac_sha256_of(key@, message@),
        r@.len() == 32,
{
    match hmac::Hmac::<sha2::Sha256>::new_from_slice(key) {
        Ok(mut mac) => {
            mac.update(message);
            mac.finalize().into_bytes().to_vec()
        },
        Err(_) => Vec::new(),
    }
}

/// A failed decoding or verification.
#[derive(Clone, Copy, Debug, PartialEq, Eq, Structural)]
pub enum CryptoError {
    DecodingFailed,
    SignatureVerificationFailed,
}

/// How a webhook body is decoded before it is read.
#[derive(Clone, Copy, Debug, PartialEq, Eq, Structural)]
pub enum DecodeAlgorithm {
    /// The body is sent in the clear.
    NoAlgorithm,
}

/// How the source of a webhook is authenticated.
#[derive(Clone, Copy, Debug, PartialEq, Eq, Structural)]
pub enum VerifyAlgorithm {
    /// Every webhook is taken as authentic.
    NoAlgorithm,
    /// The signature is the HMAC-SHA-256 tag of the message under the secret.
    HmacSha256,
}

/// A copy of the bytes of `s`.
pub fn copy_bytes(s: &[u8]) -> (r: Vec<u8>)
    ensures
        r@ == s@,
{
    let mut r: Vec<u8> = Vec::new();
    let mut i: usize = 0;
    while i < s.len()
        invariant
            i <= s@.len(),
            r@ == s@.subrange(0, i as int),
        decreases s@.len() - i,
    {
        r.push(s[i]);
        i = i + 1;
    }
    assert(r@ =~= s@);
    r
}

/// Whether two byte strings are equal, compared in full.
pub fn signature_matches(expected: &[u8], signature: &[u8]) -> (r: bool)
    ensures
        r == (expected@ == signature@),
{
    if expected.len() != signature.len() {
        return false;
    }
    let mut same = true;
    let mut i: usize = 0;
    while i < expected.len()
        invariant
            expected@.len() == signature@.len(),
            i <= expected@.len(),
            same == (expected@.subrange(0, i as int) =~= signature@.subrange(0, i as int)),
        decreases expected@.len() - i,
    {
        assert(expected@.subrange(0, i + 1) =~= expected@.subrange(0, i as int).push(expected@[i as int]));
        assert(signature@.subrange(0, i + 1) =~= signature@.subrange(0, i as int).push(signature@[i as int]));
        if expected[i] != signature[i] {
            assert(expected@.subrange(0, i + 1)[i as int] != signature@.subrange(0, i + 1)[i as int]);
        }
        same = same && expected[i] == signature[i];
        i = i + 1;
    }
    assert(expected@.subrange(0, expected@.len() as int) =~= expected@);
    assert(signature@.subrange(0, signature@.len() as int) =~= signature@);
    same
}

/// The message that `algorithm` decodes from `message`.
pub open spec fn decoded_by(algorithm: DecodeAlgorithm, secret: Seq<u8>, message: Seq<u8>) -> Result<Seq<u8>, CryptoError> {
    match algorithm {
        DecodeAlgorithm::NoAlgorithm => Ok(message),
    }
}

/// The verdict of `algorithm` on `signature` over `message`.
pub open spec fn verdict_of(
    algorithm: VerifyAlgorithm,
    secret: Seq<u8>,
    signature: Seq<u8>,
    message: Seq<u8>,
) -> Result<bool, CryptoError> {
    match algorithm {
        VerifyAlgorithm::NoAlgorithm => Ok(true),
        VerifyAlgorithm::HmacSha256 => Ok(hmac_sha256_of(secret, message) == signature),
    }
}

impl DecodeAlgorithm {
    /// `message` decoded with `secret`.
    pub fn decode_message(&self, secret: &[u8], message: &[u8]) -> (r: Result<Vec<u8>, CryptoError>)
        ensures
            match decoded_by(*self, secret@, message@) {
                Ok(m) => r is Ok && r->Ok_0@ == m,
                Err(e) => r == Err::<Vec<u8>, CryptoError>(e),
            },
    {
        match self {
            DecodeAlgorithm::NoAlgorithm => Ok(copy_bytes(message)),
        }
    }
}

impl VerifyAlgorithm {
    /// Whether `signature` authenticates `message` under `secret`.
    pub fn verify_signature(&self, secret: &[u8], signature: &[u8], message: &[u8]) -> (r: Result<bool, CryptoError>)
        ensures
            r == verdict_of(*self, secret@, signature@, message@),
    {
        match self {
            VerifyAlgorithm::NoAlgorithm => Ok(true),
            VerifyAlgorithm::HmacSha256 => {
                let expected = hmac_sha256(secret, message);
                Ok(signature_matches(expected.as_slice(), signature))
            },
        }
    }
}

} // verus!
