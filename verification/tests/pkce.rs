use base64::Engine;
use linear_core::auth::pkce::PkcePair;
use sha2::Digest;

#[test]
fn verifier_meets_length_requirement() {
    let pair = PkcePair::generate();
    assert!(pair.code_verifier().len() >= 43);
    assert!(pair.code_verifier().len() <= 128);
    assert!(!pair.challenge().is_empty());
}

#[test]
fn challenge_is_base64url_sha256_of_verifier() {
    let pair = PkcePair::generate();
    let digest = sha2::Sha256::digest(pair.code_verifier().as_bytes());
    let expected = base64::engine::general_purpose::URL_SAFE_NO_PAD.encode(digest);
    assert_eq!(pair.challenge(), expected);
}

#[test]
fn verifier_uses_url_safe_alphabet() {
    let pair = PkcePair::generate();
    assert!(pair
        .code_verifier()
        .chars()
        .all(|c| c.is_ascii_alphanumeric() || c == '-' || c == '_'));
}

#[test]
fn fresh_pairs_differ() {
    let a = PkcePair::generate();
    let b = PkcePair::generate();
    assert_ne!(a.code_verifier(), b.code_verifier());
}
