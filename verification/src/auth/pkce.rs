//! PKCE verifier/challenge generation (RFC 7636): a random verifier and its
//! SHA-256 challenge, both URL-safe-base64 encoded without padding.

use base64::Engine;
use rand::RngCore;
use sha2::Digest;
use vstd::prelude::*;

verus! {

/// The URL-safe, unpadded base64 text the `base64` crate produces for a byte
/// sequence. Fixed by the bytes alone.
pub uninterp spec fn b64url_of(bytes: Seq<u8>) -> Seq<char>;

/// The SHA-256 digest the `sha2` crate produces for a byte sequence. Fixed by
/// the bytes alone.
pub uninterp spec fn sha256_of(bytes: Seq<u8>) -> Seq<u8>;

/// Length of the unpadded base64 encoding of `n` bytes.
pub open spec fn b64url_len(n: nat) -> nat {
    4 * (n / 3) + if n % 3 == 0 {
        0nat
    } else if n % 3 == 1 {
        2nat
    } else {
        3nat
    }
}

/// True for characters of the URL-safe base64 alphabet.
pub open spec fn is_b64url_char(c: char) -> bool {
    ('A' <= c && c <= 'Z') || ('a' <= c && c <= 'z') || ('0' <= c && c <= '9') || c == '-' || c
        == '_'
}

/// Relies on `base64`'s `URL_SAFE_NO_PAD` engine: the text is fixed by the
/// bytes, four characters for each three bytes (no padding), all from the
/// URL-safe alphabet.
#[verifier::external_body]
fn b64url_encode(bytes: &Vec<u8>) -> (r: String)
    ensures
        r@ == b64url_of(bytes@),
        r@.len() == b64url_len(bytes@.len()),
        forall|i: int| 0 <= i < r@.len() ==> is_b64url_char(#[trigger] r@[i]),
{
    base64::engine::general_purpose::URL_SAFE_NO_PAD.encode(bytes)
}

/// Relies on `sha2`'s `Sha256::digest`: a 32-byte digest fixed by the input
/// bytes alone.
#[verifier::external_body]
fn sha256_digest(bytes: &[u8]) -> (r: Vec<u8>)
    ensures
        r@ == sha256_of(bytes@),
        r@.len() == 32,
{
    sha2::Sha256::digest(bytes).to_vec()
}

/// Relies on `rand`'s `thread_rng` and `RngCore::fill_bytes`: 32 bytes;
/// nothing is promised of their values.
#[verifier::external_body]
fn random_bytes_32() -> (r: Vec<u8>)
    ensures
        r@.len() == 32,
{
    let mut bytes = [0u8; 32];
    rand::thread_rng().fill_bytes(&mut bytes);
    bytes.to_vec()
}

/// PKCE code verifier and challenge pair.
#[derive(Debug, Clone)]
pub struct PkcePair {
    verifier: String,
    challenge: String,
}

impl PkcePair {
    /// The verifier's characters, for specifications.
    pub closed spec fn verifier_view(&self) -> Seq<char> {
        self.verifier@
    }

    /// The challenge's characters, for specifications.
    pub closed spec fn challenge_view(&self) -> Seq<char> {
        self.challenge@
    }

    /// A generated pair: the verifier encodes 32 random bytes, and the
    /// challenge encodes the SHA-256 digest of the verifier's bytes.
    pub open spec fn wf(&self) -> bool {
        &&& (exists|b: Seq<u8>| b.len() == 32 && self.verifier_view() == b64url_of(b))
        &&& self.verifier_view().len() == 43
        &&& 43 <= self.verifier_view().len() <= 128
        &&& self.challenge_view() == b64url_of(
            sha256_of(vstd::utf8::encode_utf8(self.verifier_view())),
        )
        &&& self.challenge_view().len() == 43
    }

    /// Create a new random verifier/challenge pair following RFC 7636: the
    /// verifier is 43 to 128 characters long and the challenge is the
    /// URL-safe base64 of the SHA-256 of the verifier.
    pub fn generate() -> (r: PkcePair)
        ensures
            r.wf(),
    {
        let bytes = random_bytes_32();
        let verifier = b64url_encode(&bytes);
        let digest = sha256_digest(verifier.as_str().as_bytes());
        let challenge = b64url_encode(&digest);
        let r = PkcePair { verifier, challenge };
        proof {
            assert(r.verifier_view() == b64url_of(bytes@));
        }
        r
    }

    /// The verifier to send with the token exchange.
    pub fn code_verifier(&self) -> (r: &str)
        ensures
            r@ == self.verifier_view(),
    {
        self.verifier.as_str()
    }

    /// The challenge to embed in the authorization URL.
    pub fn challenge(&self) -> (r: &str)
        ensures
            r@ == self.challenge_view(),
    {
        self.challenge.as_str()
    }
}

} // verus!
