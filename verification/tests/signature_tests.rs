use hmac::{Hmac, Mac};
use hookd::headers::Header;
use hookd::signature::{ct_eq, signature_header_value, validate_request};
use sha2::Sha256;

fn hdr(name: &str, value: &[u8]) -> Header {
    Header { name: name.to_string(), value: value.to_vec() }
}

const QUICK_FOX: &[u8] = b"The quick brown fox jumps over the lazy dog";
const QUICK_FOX_MAC_HEX: &str = "f7bc83f430538424b13298e6aa6fb143ef4d59a14946175997479dbc2d1a3cd8";

#[test]
fn known_vector_validates() {
    let secret = "key".to_string();
    let value = format!("sha256={}", QUICK_FOX_MAC_HEX);
    let headers = vec![hdr("x-hub-signature-256", value.as_bytes())];
    assert!(validate_request(&secret, &headers, QUICK_FOX));
}

#[test]
fn known_vector_upper_case_hex_validates() {
    let secret = "key".to_string();
    let value = format!("sha256={}", QUICK_FOX_MAC_HEX.to_uppercase());
    let headers = vec![hdr("x-hub-signature-256", value.as_bytes())];
    assert!(validate_request(&secret, &headers, QUICK_FOX));
}

#[test]
fn signature_header_value_matches_known_vector() {
    let secret = "key".to_string();
    let value = signature_header_value(&secret, QUICK_FOX);
    let expected = format!("sha256={}", QUICK_FOX_MAC_HEX);
    assert_eq!(value, expected.as_bytes().to_vec());
}

#[test]
fn signature_header_value_agrees_with_hmac_crate() {
    let secret = "another secret".to_string();
    let body = b"{\"action\":\"opened\"}";
    let value = signature_header_value(&secret, body);

    let mut mac = <Hmac<Sha256> as Mac>::new_from_slice(secret.as_bytes()).unwrap();
    mac.update(body);
    let tag = mac.finalize().into_bytes();
    let mut expected = b"sha256=".to_vec();
    for b in tag.iter() {
        expected.extend_from_slice(format!("{:02x}", b).as_bytes());
    }
    assert_eq!(value, expected);
}

#[test]
fn sign_then_verify_accepts() {
    let secret = "mysecret".to_string();
    let body = b"{}";
    let value = signature_header_value(&secret, body);
    let headers = vec![hdr("x-hub-signature-256", &value)];
    assert!(validate_request(&secret, &headers, body));
}

#[test]
fn tampered_body_is_rejected() {
    let secret = "mysecret".to_string();
    let body = b"{}";
    let value = signature_header_value(&secret, body);
    let headers = vec![hdr("x-hub-signature-256", &value)];
    assert!(!validate_request(&secret, &headers, b"{ }"));
}

#[test]
fn wrong_secret_is_rejected() {
    let body = b"{}";
    let value = signature_header_value(&"mysecret".to_string(), body);
    let headers = vec![hdr("x-hub-signature-256", &value)];
    assert!(!validate_request(&"othersecret".to_string(), &headers, body));
}

#[test]
fn missing_header_is_rejected() {
    let secret = "mysecret".to_string();
    let headers = vec![hdr("x-github-event", b"ping")];
    assert!(!validate_request(&secret, &headers, b"{}"));
}

#[test]
fn odd_length_hex_is_rejected() {
    let secret = "mysecret".to_string();
    let headers = vec![hdr("x-hub-signature-256", b"sha256=abc")];
    assert!(!validate_request(&secret, &headers, b"{}"));
}

#[test]
fn non_hex_signature_is_rejected() {
    let secret = "mysecret".to_string();
    let headers = vec![hdr("x-hub-signature-256", b"sha256=zz")];
    assert!(!validate_request(&secret, &headers, b"{}"));
}

#[test]
fn wrong_prefix_is_rejected() {
    let secret = "mysecret".to_string();
    let headers = vec![hdr("x-hub-signature-256", b"sha1=f7bc83f430538424")];
    assert!(!validate_request(&secret, &headers, b"{}"));
}

#[test]
fn non_text_header_value_is_rejected() {
    let secret = "mysecret".to_string();
    let headers = vec![hdr("x-hub-signature-256", &[0x01, 0x02, 0x03])];
    assert!(!validate_request(&secret, &headers, b"{}"));
}

#[test]
fn empty_secret_and_body_round_trip() {
    let secret = "".to_string();
    let body = b"";
    let value = signature_header_value(&secret, body);
    let headers = vec![hdr("x-hub-signature-256", &value)];
    assert!(validate_request(&secret, &headers, body));
}

#[test]
fn ct_eq_behaves_like_equality() {
    assert!(ct_eq(b"", b""));
    assert!(ct_eq(b"abc", b"abc"));
    assert!(!ct_eq(b"abc", b"abd"));
    assert!(!ct_eq(b"abc", b"ab"));
    assert!(!ct_eq(b"", b"x"));
}

#[test]
fn first_matching_header_wins() {
    let secret = "mysecret".to_string();
    let body = b"{}";
    let good = signature_header_value(&secret, body);
    let headers = vec![
        hdr("x-hub-signature-256", &good),
        hdr("x-hub-signature-256", b"sha256=00"),
    ];
    assert!(validate_request(&secret, &headers, body));

    let headers = vec![
        hdr("x-hub-signature-256", b"sha256=00"),
        hdr("x-hub-signature-256", &good),
    ];
    assert!(!validate_request(&secret, &headers, body));
}
