use binance_async_api::sign::{signature_bytes, signature_hex};

const FIXTURE_MSG: &[u8] = b"symbol=BTCUSDT&timestamp=1700000000000";
const FIXTURE_DIGEST: &[u8] = b"2ab6765436359ed0d99bde3f15fe5295bc908c56fc0ae55fd1e986354d5de793";

#[test]
fn signature_matches_reference_digest() {
    let sig = signature_bytes(b"abc", FIXTURE_MSG);
    assert_eq!(sig, FIXTURE_DIGEST.to_vec());
}

#[test]
fn signature_hex_string_form() {
    let sig = signature_hex(b"abc", FIXTURE_MSG);
    assert_eq!(
        sig,
        "2ab6765436359ed0d99bde3f15fe5295bc908c56fc0ae55fd1e986354d5de793".to_string()
    );
}

#[test]
fn signature_of_empty_message() {
    let sig = signature_bytes(b"abc", b"");
    assert_eq!(
        sig,
        b"e2636077506729a8f61aff2441332e40e844a8ad44489efd80210ea6d1f51088".to_vec()
    );
}

#[test]
fn signature_is_stable() {
    let a = signature_bytes(b"abc", FIXTURE_MSG);
    let b = signature_bytes(b"abc", FIXTURE_MSG);
    assert_eq!(a, b);
}

#[test]
fn signature_depends_on_secret_and_message() {
    let base = signature_bytes(b"abc", FIXTURE_MSG);
    assert_ne!(signature_bytes(b"abd", FIXTURE_MSG), base);
    assert_ne!(signature_bytes(b"abc", b"symbol=ETHUSDT"), base);
}
