use trading_core::crypto::sign_query;

// RFC 4231 test case 2: HMAC-SHA-256 with key "Jefe" over
// "what do ya want for nothing?", hex-encoded lowercase.
#[test]
fn sign_matches_known_hmac_sha256_vector() {
    let sig = sign_query("Jefe", "what do ya want for nothing?");
    assert_eq!(
        sig,
        "5bdcc146bf60754e6a042426089575c75a003f089d2739839dec58b964ec3843"
    );
}

#[test]
fn signature_is_64_lowercase_hex_chars() {
    let sig = sign_query("secret", "timestamp=1700000000000000");
    assert_eq!(sig.len(), 64);
    assert!(sig.chars().all(|c| c.is_ascii_hexdigit() && !c.is_ascii_uppercase()));
}

#[test]
fn signing_twice_gives_identical_signatures() {
    let a = sign_query("secret", "symbol=BTCUSDT&side=BUY");
    let b = sign_query("secret", "symbol=BTCUSDT&side=BUY");
    assert_eq!(a, b);
}

#[test]
fn signing_with_a_different_secret_gives_a_different_signature() {
    let a = sign_query("secret-one", "timestamp=1700000000000000");
    let b = sign_query("secret-two", "timestamp=1700000000000000");
    assert_ne!(a, b);
}

#[test]
fn signing_a_different_query_gives_a_different_signature() {
    let a = sign_query("secret", "timestamp=1");
    let b = sign_query("secret", "timestamp=2");
    assert_ne!(a, b);
}
