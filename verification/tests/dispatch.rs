use volcengine_rs::errors::VolceError;
use volcengine_rs::query::{format_query, QueryParams};
use volcengine_rs::time::UtcInstant;
use volcengine_rs::visual::{
    decode_ocr_response, decode_text_to_image_response, OcrNormalRequest, VisualClient,
};
use volcengine_rs::volce::{get_host, prepare_request, signature_v4};

use sha2::Digest;

fn fixed_instant() -> UtcInstant {
    UtcInstant::new(2020, 1, 1, 12, 30, 45).unwrap()
}

#[test]
fn test_query_canonical_order() {
    let mut params = QueryParams::new();
    params.insert("Version", "2020-08-26");
    params.insert("Action", "OCRNormal");
    assert_eq!(format_query(&params), "Action=OCRNormal&Version=2020-08-26");
}

#[test]
fn test_query_insert_order_irrelevant() {
    let mut a = QueryParams::new();
    a.insert("b", "2");
    a.insert("a", "1");
    a.insert("c", "3");
    let mut b = QueryParams::new();
    b.insert("c", "3");
    b.insert("a", "1");
    b.insert("b", "2");
    assert_eq!(format_query(&a), "a=1&b=2&c=3");
    assert_eq!(format_query(&a), format_query(&b));
}

#[test]
fn test_query_replaces_existing_key() {
    let mut params = QueryParams::new();
    params.insert("Action", "First");
    params.insert("Action", "Second");
    assert_eq!(params.len(), 1);
    assert_eq!(format_query(&params), "Action=Second");
}

#[test]
fn test_query_empty() {
    let params = QueryParams::new();
    assert_eq!(format_query(&params), "");
}

#[test]
fn test_query_empty_key_sorts_first() {
    let mut params = QueryParams::new();
    params.insert("a", "b");
    params.insert("", "v");
    assert_eq!(format_query(&params), "=v&a=b");
}

#[test]
fn test_decode_ocr_data_absent() {
    let body = "{\"code\":10000,\"message\":\"m\",\"request_id\":\"r\",\"time_elapsed\":\"t\"}";
    let resp = decode_ocr_response(body).unwrap();
    assert!(resp.data.is_none());
}

#[test]
fn test_get_host() {
    assert_eq!(
        get_host("https://visual.volcengineapi.com").unwrap(),
        "visual.volcengineapi.com"
    );
}

#[test]
fn test_get_host_invalid() {
    let err = get_host("not a url").unwrap_err();
    assert!(matches!(err, VolceError::Configuration(_)));
    assert!(err.message().starts_with("configuration error: "));
    let err2 = get_host("data:text/plain,hello").unwrap_err();
    assert!(matches!(err2, VolceError::Configuration(_)));
}

#[test]
fn test_prepare_request_fields() {
    let t = fixed_instant();
    let mut params = QueryParams::new();
    params.insert("Version", "2020-08-26");
    params.insert("Action", "OCRNormal");
    let body = "{\"k\":\"v\"}";
    let p = prepare_request(
        "ak",
        "sk",
        "https://visual.volcengineapi.com",
        "cn-north-1",
        "cv",
        "POST",
        "application/json",
        &params,
        body,
        &t,
    )
    .unwrap();
    assert_eq!(p.method, "POST");
    assert_eq!(
        p.url,
        "https://visual.volcengineapi.com?Action=OCRNormal&Version=2020-08-26"
    );
    assert_eq!(p.x_date, "20200101T123045Z");
    assert_eq!(p.content_type, "application/json");
    assert_eq!(p.body, body);
    assert_eq!(
        p.x_content_sha256,
        hex::encode(sha2::Sha256::digest(body.as_bytes()))
    );
    let (expected_auth, _) = signature_v4(
        "ak",
        "sk",
        "visual.volcengineapi.com",
        "cn-north-1",
        "cv",
        "POST",
        "Action=OCRNormal&Version=2020-08-26",
        body,
        &t,
    );
    assert_eq!(p.authorization, expected_auth);
}

#[test]
fn test_prepare_request_bad_endpoint() {
    let t = fixed_instant();
    let params = QueryParams::new();
    let err = prepare_request(
        "ak", "sk", "::::", "r", "s", "POST", "application/json", &params, "", &t,
    )
    .unwrap_err();
    assert!(matches!(err, VolceError::Configuration(_)));
}

#[test]
fn test_ocr_normal_prepared() {
    let t = fixed_instant();
    let client = VisualClient::new("ak", "sk", "cn-north-1");
    let body = "image_url=http%3A%2F%2Fexample.com%2Fa.png";
    let p = client.ocr_normal(body, &t).unwrap();
    assert_eq!(p.method, "POST");
    assert_eq!(p.content_type, "application/x-www-form-urlencoded");
    assert_eq!(
        p.url,
        "https://visual.volcengineapi.com?Action=OCRNormal&Version=2020-08-26"
    );
    assert_eq!(p.body, body);
    let (expected_auth, _) = signature_v4(
        "ak",
        "sk",
        "visual.volcengineapi.com",
        "cn-north-1",
        "cv",
        "POST",
        "Action=OCRNormal&Version=2020-08-26",
        body,
        &t,
    );
    assert_eq!(p.authorization, expected_auth);
}

#[test]
fn test_text_to_image_prepared() {
    let t = fixed_instant();
    let client = VisualClient::new("ak", "sk", "cn-north-1");
    let body = "{\"req_key\":\"k\",\"prompt\":\"a cat\"}";
    let p = client.text_to_image(body, &t).unwrap();
    assert_eq!(p.method, "POST");
    assert_eq!(p.content_type, "application/json");
    assert_eq!(
        p.url,
        "https://visual.volcengineapi.com?Action=CVProcess&Version=2022-08-31"
    );
    assert_eq!(p.body, body);
    let (expected_auth, _) = signature_v4(
        "ak",
        "sk",
        "visual.volcengineapi.com",
        "cn-north-1",
        "cv",
        "POST",
        "Action=CVProcess&Version=2022-08-31",
        body,
        &t,
    );
    assert_eq!(p.authorization, expected_auth);
}

#[test]
fn test_default_ocr_request_is_empty() {
    let req = OcrNormalRequest::default();
    assert!(req.image_base64.is_none());
    assert!(req.image_url.is_none());
    assert!(req.approximate_pixel.is_none());
    assert!(req.mode.is_none());
    assert!(req.filter_thresh.is_none());
    assert!(req.half_to_full.is_none());
}

#[test]
fn test_decode_ocr_success() {
    let body =
        "{\"code\":10000,\"message\":\"Success\",\"data\":null,\"request_id\":\"r1\",\"time_elapsed\":\"10ms\"}";
    let resp = decode_ocr_response(body).unwrap();
    assert_eq!(resp.code, 10000);
    assert_eq!(resp.message, "Success");
    assert_eq!(resp.request_id, "r1");
    assert_eq!(resp.time_elapsed, "10ms");
    assert!(resp.data.is_none());
}

#[test]
fn test_decode_ocr_not_json() {
    let err = decode_ocr_response("not json").unwrap_err();
    assert!(matches!(err, VolceError::Decode(_)));
    assert!(err.message().starts_with("decode error: "));
}

#[test]
fn test_decode_ocr_missing_field() {
    let err = decode_ocr_response("{\"code\":10000,\"message\":\"Success\"}").unwrap_err();
    assert!(matches!(err, VolceError::Decode(_)));
}

#[test]
fn test_decode_ocr_wrong_type() {
    let err = decode_ocr_response(
        "{\"code\":\"ten\",\"message\":\"m\",\"request_id\":\"r\",\"time_elapsed\":\"t\"}",
    )
    .unwrap_err();
    assert!(matches!(err, VolceError::Decode(_)));
}

#[test]
fn test_decode_ocr_data_passthrough() {
    let body =
        "{\"code\":10000,\"message\":\"Success\",\"data\":{\"a\":1},\"request_id\":\"r1\",\"time_elapsed\":\"1ms\"}";
    let resp = decode_ocr_response(body).unwrap();
    assert_eq!(resp.data.unwrap(), "{\"a\":1}");
}

#[test]
fn test_decode_text_to_image_success() {
    let body = "{\"code\":10000,\"message\":\"Success\",\"data\":{\"image_urls\":[\"http://a\",\"http://b\"]}}";
    let resp = decode_text_to_image_response(body).unwrap();
    assert_eq!(resp.code, 10000);
    assert_eq!(resp.message, "Success");
    let data = resp.data.unwrap();
    assert_eq!(data.image_urls, vec!["http://a".to_string(), "http://b".to_string()]);
}

#[test]
fn test_decode_text_to_image_null_data() {
    let body = "{\"code\":50000,\"message\":\"Internal Error\",\"data\":null}";
    let resp = decode_text_to_image_response(body).unwrap();
    assert_eq!(resp.code, 50000);
    assert!(resp.data.is_none());
}

#[test]
fn test_decode_text_to_image_bad_urls() {
    let body = "{\"code\":1,\"message\":\"m\",\"data\":{\"image_urls\":[1,2]}}";
    let err = decode_text_to_image_response(body).unwrap_err();
    assert!(matches!(err, VolceError::Decode(_)));
    let body2 = "{\"code\":1,\"message\":\"m\",\"data\":{}}";
    let err2 = decode_text_to_image_response(body2).unwrap_err();
    assert!(matches!(err2, VolceError::Decode(_)));
}

#[test]
fn test_decode_text_to_image_not_json() {
    let err = decode_text_to_image_response("not json").unwrap_err();
    assert!(matches!(err, VolceError::Decode(_)));
}

#[test]
fn test_error_messages() {
    assert_eq!(
        VolceError::Transport("timed out".to_string()).message(),
        "transport error: timed out"
    );
    assert_eq!(
        VolceError::Decode("bad body".to_string()).message(),
        "decode error: bad body"
    );
    assert_eq!(
        VolceError::Configuration("bad url".to_string()).message(),
        "configuration error: bad url"
    );
}
