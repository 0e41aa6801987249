use izumo::token::{HashedToken, PlainToken, TOKEN_LENGTH};
use sha2::Digest;

#[test]
fn generated_tokens_have_prefix_length_and_charset() {
    let token = PlainToken::generate();
    let text = token.expose_secret();
    assert_eq!(text.len(), 5 + TOKEN_LENGTH);
    assert!(text.starts_with("dbots"));
    assert!(text[5..].chars().all(|c| c.is_ascii_alphanumeric()));
}

#[test]
fn two_generated_tokens_differ() {
    let a = PlainToken::generate();
    let b = PlainToken::generate();
    assert_ne!(a.expose_secret(), b.expose_secret());
}

#[test]
fn parse_accepts_the_prefix_and_rejects_everything_else() {
    assert!(HashedToken::parse("dbotsXYZ").is_ok());
    assert!(HashedToken::parse("dbots").is_ok());
    assert!(HashedToken::parse("dbot").is_err());
    assert!(HashedToken::parse("").is_err());
    assert!(HashedToken::parse("Bearer dbotsXYZ").is_err());
    assert!(HashedToken::parse("DBOTSXYZ").is_err());
}

#[test]
fn parse_error_message_is_fixed() {
    let err = match HashedToken::parse("nope") {
        Err(err) => err,
        Ok(_) => panic!("a token without the prefix must not parse"),
    };
    assert_eq!(err.message(), "invalid token format");
}

#[test]
fn hash_is_32_bytes_and_deterministic() {
    let a = HashedToken::hash("dbotsabcdef");
    let b = HashedToken::hash("dbotsabcdef");
    let c = HashedToken::hash("dbotsabcdeg");
    assert_eq!(a.len(), 32);
    assert_eq!(a, b);
    assert_ne!(a, c);
}

#[test]
fn hash_matches_sha256_of_repeated_input() {
    // The codec feeds the plaintext to the digest TOKEN_LENGTH times over.
    let plaintext = "dbots0123456789";
    let mut repeated = Vec::new();
    for _ in 0..TOKEN_LENGTH {
        repeated.extend_from_slice(plaintext.as_bytes());
    }
    let expected = sha2::Sha256::digest(&repeated).to_vec();
    assert_eq!(HashedToken::hash(plaintext), expected);
}

#[test]
fn parse_and_hashed_agree_on_a_generated_token() {
    let token = PlainToken::generate();
    let parsed = HashedToken::parse(token.expose_secret()).expect("generated tokens parse");
    assert_eq!(parsed.as_bytes(), token.hashed().as_bytes());
}
