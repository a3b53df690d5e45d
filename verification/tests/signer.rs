use hmac::Mac;
use sha2::Digest;
use volcengine_rs::crypto::{get_signature_key, sign};
use volcengine_rs::time::{current_instant, format_datestamp, format_timestamp, UtcInstant};
use volcengine_rs::volce::signature_v4;

fn fixed_instant() -> UtcInstant {
    UtcInstant::new(2020, 1, 1, 12, 30, 45).unwrap()
}

fn reference_hmac(key: &[u8], msg: &[u8]) -> Vec<u8> {
    let mut mac = <hmac::Hmac<sha2::Sha256> as hmac::KeyInit>::new_from_slice(key).unwrap();
    mac.update(msg);
    mac.finalize().into_bytes().to_vec()
}

#[test]
fn test_format_timestamp_fixed() {
    let t = fixed_instant();
    assert_eq!(format_timestamp(&t), "20200101T123045Z");
    assert_eq!(format_datestamp(&t), "20200101");
}

#[test]
fn test_format_timestamp_padding() {
    let t = UtcInstant::new(987, 2, 3, 4, 5, 6).unwrap();
    assert_eq!(format_timestamp(&t), "09870203T040506Z");
    assert_eq!(format_datestamp(&t), "09870203");
}

#[test]
fn test_instant_rejects_bad_fields() {
    assert!(UtcInstant::new(2020, 0, 1, 0, 0, 0).is_none());
    assert!(UtcInstant::new(2020, 13, 1, 0, 0, 0).is_none());
    assert!(UtcInstant::new(2020, 1, 32, 0, 0, 0).is_none());
    assert!(UtcInstant::new(2020, 1, 1, 24, 0, 0).is_none());
    assert!(UtcInstant::new(2020, 1, 1, 0, 60, 0).is_none());
    assert!(UtcInstant::new(2020, 1, 1, 0, 0, 60).is_none());
    assert!(UtcInstant::new(10000, 1, 1, 0, 0, 0).is_none());
}

#[test]
fn test_current_instant_in_range() {
    let t = current_instant().unwrap();
    assert!((1..=12).contains(&t.month));
    assert!((1..=31).contains(&t.day));
    assert!(t.hour <= 23);
    assert!(t.minute <= 59);
    assert!(t.second <= 59);
}

#[test]
fn test_sign_matches_reference_hmac() {
    let tag = sign(b"key-bytes", "some message");
    assert_eq!(tag, reference_hmac(b"key-bytes", b"some message"));
    assert_eq!(tag.len(), 32);
}

#[test]
fn test_sign_empty_key_and_message() {
    let tag = sign(b"", "");
    assert_eq!(tag, reference_hmac(b"", b""));
}

#[test]
fn test_derived_key_reference_chain() {
    // The primary correctness oracle: the four-stage chain recomputed
    // with the HMAC library directly.
    let k_date = reference_hmac(b"test-secret", b"20200101");
    let k_region = reference_hmac(&k_date, b"cn-north-1");
    let k_service = reference_hmac(&k_region, b"cv");
    let expected = reference_hmac(&k_service, b"request");
    let derived = get_signature_key("test-secret", "20200101", "cn-north-1", "cv");
    assert_eq!(derived, expected);
}

#[test]
fn test_determinism_same_instant() {
    let t = fixed_instant();
    let (h1, d1) = signature_v4(
        "ak", "sk", "visual.volcengineapi.com", "cn-north-1", "cv", "POST",
        "Action=OCRNormal&Version=2020-08-26", "{\"a\":1}", &t,
    );
    let (h2, d2) = signature_v4(
        "ak", "sk", "visual.volcengineapi.com", "cn-north-1", "cv", "POST",
        "Action=OCRNormal&Version=2020-08-26", "{\"a\":1}", &t,
    );
    assert_eq!(h1, h2);
    assert_eq!(d1, d2);
}

#[test]
fn test_time_sensitivity() {
    let t1 = fixed_instant();
    let t2 = UtcInstant::new(2020, 1, 1, 12, 30, 46).unwrap();
    let (h1, _) = signature_v4("ak", "sk", "h.example.com", "r", "s", "POST", "", "body", &t1);
    let (h2, _) = signature_v4("ak", "sk", "h.example.com", "r", "s", "POST", "", "body", &t2);
    assert_ne!(h1, h2);
}

#[test]
fn test_tamper_evidence_single_byte() {
    let t = fixed_instant();
    let (h1, _) = signature_v4("ak", "sk", "h.example.com", "r", "s", "POST", "", "bodyA", &t);
    let (h2, _) = signature_v4("ak", "sk", "h.example.com", "r", "s", "POST", "", "bodyB", &t);
    assert_ne!(h1, h2);
}

#[test]
fn test_query_sensitivity() {
    let t = fixed_instant();
    let (h1, _) = signature_v4("ak", "sk", "h.example.com", "r", "s", "POST", "a=1", "b", &t);
    let (h2, _) = signature_v4("ak", "sk", "h.example.com", "r", "s", "POST", "a=2", "b", &t);
    assert_ne!(h1, h2);
}

#[test]
fn test_signature_v4_matches_reference() {
    // The whole signing algorithm recomputed step by step with the hash
    // libraries directly, at a fixed instant.
    let t = fixed_instant();
    let access_key = "AKID";
    let secret_key = "test-secret";
    let host = "visual.volcengineapi.com";
    let region = "cn-north-1";
    let service = "cv";
    let method = "POST";
    let query = "Action=OCRNormal&Version=2020-08-26";
    let body = "image_url=http%3A%2F%2Fexample.com%2Fa.png";

    let current_date = "20200101T123045Z";
    let datestamp = "20200101";
    let payload_hash = hex::encode(sha2::Sha256::digest(body.as_bytes()));
    let canonical_headers = format!(
        "content-type:application/json\nhost:{}\nx-content-sha256:{}\nx-date:{}\n",
        host, payload_hash, current_date
    );
    let signed_headers = "content-type;host;x-content-sha256;x-date";
    let canonical_request = format!(
        "{}\n/\n{}\n{}\n{}\n{}",
        method, query, canonical_headers, signed_headers, payload_hash
    );
    let credential_scope = format!("{}/{}/{}/request", datestamp, region, service);
    let string_to_sign = format!(
        "HMAC-SHA256\n{}\n{}\n{}",
        current_date,
        credential_scope,
        hex::encode(sha2::Sha256::digest(canonical_request.as_bytes()))
    );
    let k_date = reference_hmac(secret_key.as_bytes(), datestamp.as_bytes());
    let k_region = reference_hmac(&k_date, region.as_bytes());
    let k_service = reference_hmac(&k_region, service.as_bytes());
    let signing_key = reference_hmac(&k_service, b"request");
    let signature = hex::encode(reference_hmac(&signing_key, string_to_sign.as_bytes()));
    let expected_header = format!(
        "HMAC-SHA256 Credential={}/{}, SignedHeaders={}, Signature={}",
        access_key, credential_scope, signed_headers, signature
    );

    let (header, date) = signature_v4(
        access_key, secret_key, host, region, service, method, query, body, &t,
    );
    assert_eq!(date, current_date);
    assert_eq!(header, expected_header);
}
