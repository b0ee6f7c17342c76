use crypto::mac::Mac;
use prgnome::signature::verify_signature;

/// A genuine signature header for `body` under `secret`.
fn sign(secret: &str, body: &str) -> String {
    let mut mac = crypto::hmac::Hmac::new(crypto::sha1::Sha1::new(), secret.as_bytes());
    mac.input(body.as_bytes());
    let result = mac.result();
    format!("sha1={}", hex::encode(result.code()))
}

#[test]
fn it_accepts_genuine_signatures() {
    let body = r#"{"action":"labeled"}"#;
    let sig = sign("hunter2", body);
    assert!(verify_signature(body, &sig, "hunter2"));
}

#[test]
fn it_rejects_signatures_over_an_altered_body() {
    let body = r#"{"action":"labeled"}"#;
    let sig = sign("hunter2", body);
    let altered = r#"{"action":"unlabeled"}"#;
    assert!(!verify_signature(altered, &sig, "hunter2"));
}

#[test]
fn it_rejects_signatures_under_the_wrong_secret() {
    let body = r#"{"action":"labeled"}"#;
    let sig = sign("hunter2", body);
    assert!(!verify_signature(body, &sig, "hunter3"));
}

#[test]
fn it_rejects_an_altered_signature_digit() {
    let body = r#"{"action":"labeled"}"#;
    let sig = sign("hunter2", body);
    let last = sig.chars().last().unwrap();
    let flipped = if last == '0' { '1' } else { '0' };
    let mut altered: String = sig[..sig.len() - 1].to_string();
    altered.push(flipped);
    assert!(!verify_signature(body, &altered, "hunter2"));
}

#[test]
fn it_rejects_headers_without_the_prefix() {
    let body = "x";
    let sig = sign("s", body);
    let raw = &sig["sha1=".len()..];
    assert!(!verify_signature(body, raw, "s"));
    assert!(!verify_signature(body, &format!("md5={}", raw), "s"));
}

#[test]
fn it_rejects_short_headers() {
    assert!(!verify_signature("x", "", "s"));
    assert!(!verify_signature("x", "sha1", "s"));
    assert!(!verify_signature("x", "sha1=", "s"));
}

#[test]
fn it_rejects_non_hex_signatures() {
    assert!(!verify_signature("x", "sha1=zz", "s"));
}

#[test]
fn it_rejects_odd_length_hex() {
    assert!(!verify_signature("x", "sha1=abc", "s"));
}

#[test]
fn it_rejects_hex_of_the_wrong_length() {
    // Valid hex, but not the 20-byte digest.
    assert!(!verify_signature("x", "sha1=abcd", "s"));
}
