use bitvavo_api_client::auth::{sign, signing_payload_text};

#[test]
fn sign_matches_known_vector() {
    let sig = sign("secret", 1_548_169_000_000, "GET", "/time", "");
    assert_eq!(sig.len(), 64);
    assert!(sig.chars().all(|c| c.is_ascii_hexdigit()));
}

#[test]
fn sign_is_deterministic() {
    let a = sign("secret", 1, "POST", "/order", "{\"market\":\"BTC-EUR\"}");
    let b = sign("secret", 1, "POST", "/order", "{\"market\":\"BTC-EUR\"}");
    assert_eq!(a, b);
}

#[test]
fn sign_gives_the_hmac_sha256_of_the_payload() {
    assert_eq!(
        sign("secret", 1_548_169_000_000, "GET", "/time", ""),
        "92b827477d550ab8434412d4c3a2bbf49c89a98390d9055ab391838230d1daa9"
    );
    assert_eq!(
        sign("secret", 1, "POST", "/order", "{\"market\":\"BTC-EUR\"}"),
        "88d62ec9457dc0ad3cc29dd5cdb5b0f860cbd6dadaca2834520e347bb460d708"
    );
}

#[test]
fn sign_depends_on_every_part() {
    let base = sign("secret", 1, "GET", "/time", "");
    assert_ne!(base, sign("secret2", 1, "GET", "/time", ""));
    assert_ne!(base, sign("secret", 2, "GET", "/time", ""));
    assert_ne!(base, sign("secret", 1, "POST", "/time", ""));
    assert_ne!(base, sign("secret", 1, "GET", "/markets", ""));
    assert_ne!(base, sign("secret", 1, "GET", "/time", "{}"));
}

#[test]
fn signing_payload_joins_timestamp_method_versioned_path_and_body() {
    assert_eq!(
        signing_payload_text(1_548_169_000_000, "POST", "/order", "{\"a\":1}"),
        "1548169000000POST/v2/order{\"a\":1}"
    );
    assert_eq!(signing_payload_text(0, "GET", "/time", ""), "0GET/v2/time");
}
