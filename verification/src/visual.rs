//! The Visual (CV) service client: it prepares the signed requests for
//! the two endpoints and decodes their response envelopes.
//!
//! A request body reaches the client already serialized to its wire form
//! (URL-encoded form text or JSON text); a response body arrives as the
//! raw text the transport received. JSON is read through `serde_json`
//! behind trusted wrappers; the envelope fields the client interprets
//! are extracted here, and the OCR payload under `data` is handed back
//! as raw JSON text for the caller to decode further.

use crate::errors::VolceError;
use crate::query::{lex_lt, spec_format_query, QueryParams};
use crate::time::{spec_timestamp, UtcInstant};
use crate::volce::{host_of, prepare_request, spec_authorization, PreparedRequest};
use vstd::prelude::*;

verus! {

/// Whether a text parses as JSON.
pub uninterp spec fn json_ok(s: Seq<char>) -> bool;

/// The integer field `key` of the JSON object a text parses to: `Some`
/// exactly when the text parses as an object that has the field and the
/// field is a number representable as `i64`.
pub uninterp spec fn json_i64_field_of(s: Seq<char>, key: Seq<char>) -> Option<i64>;

/// The string field `key` of the JSON object a text parses to: `Some`
/// exactly when the text parses as an object that has the field and the
/// field is a JSON string.
pub uninterp spec fn json_str_field_of(s: Seq<char>, key: Seq<char>) -> Option<Seq<char>>;

/// The field `key` of the JSON object a text parses to, rendered back
/// to compact JSON text: `Some` exactly when the text parses as an
/// object that has the field and the field is not `null`.
pub uninterp spec fn json_field_rendered_of(s: Seq<char>, key: Seq<char>) -> Option<Seq<char>>;

/// The strings under `data.image_urls` of the JSON object a text parses
/// to: `Some` exactly when the text parses, its `data` field has an
/// `image_urls` field, and that field is an array of strings.
pub uninterp spec fn json_image_urls_of(s: Seq<char>) -> Option<Seq<Seq<char>>>;

/// Relies on `serde_json::from_str::<serde_json::Value>`: whether a text
/// parses as JSON is a function of the text alone.
#[verifier::external_body]
fn json_parse_ok(body: &str) -> (r: bool)
    ensures
        r == json_ok(body@),
{
    serde_json::from_str::<serde_json::Value>(body).is_ok()
}

/// Relies on `serde_json::from_str::<serde_json::Value>`, `Value::get`
/// and `Value::as_i64`: each is a pure function of its argument, so the
/// composite is a function of the text and key alone.
#[verifier::external_body]
fn json_i64_field(body: &str, key: &str) -> (r: Option<i64>)
    ensures
        r == json_i64_field_of(body@, key@),
{
    match serde_json::from_str::<serde_json::Value>(body) {
        Ok(v) => v.get(key).and_then(|f| f.as_i64()),
        Err(_) => None,
    }
}

/// Relies on `serde_json::from_str::<serde_json::Value>`, `Value::get`
/// and `Value::as_str`: each is a pure function of its argument, so the
/// composite is a function of the text and key alone.
#[verifier::external_body]
fn json_str_field(body: &str, key: &str) -> (r: Option<String>)
    ensures
        r matches Some(s) ==> json_str_field_of(body@, key@) == Some(s@),
        r is None <==> json_str_field_of(body@, key@) is None,
{
    match serde_json::from_str::<serde_json::Value>(body) {
        Ok(v) => v.get(key).and_then(|f| f.as_str()).map(String::from),
        Err(_) => None,
    }
}

/// Relies on `serde_json::from_str::<serde_json::Value>`, `Value::get`,
/// `Value::is_null` and `Value`'s `Display` (compact JSON): each is a
/// pure function of its argument, so the composite is a function of the
/// text and key alone.
#[verifier::external_body]
fn json_field_rendered(body: &str, key: &str) -> (r: Option<String>)
    ensures
        r matches Some(s) ==> json_field_rendered_of(body@, key@) == Some(s@),
        r is None <==> json_field_rendered_of(body@, key@) is None,
{
    match serde_json::from_str::<serde_json::Value>(body) {
        Ok(v) => match v.get(key) {
            Some(d) => if d.is_null() { None } else { Some(d.to_string()) },
            None => None,
        },
        Err(_) => None,
    }
}

/// Relies on `serde_json::from_str::<serde_json::Value>`, `Value::get`,
/// `Value::as_array` and `Value::as_str`: each is a pure function of its
/// argument, so the composite is a function of the text alone.
#[verifier::external_body]
fn json_image_urls(body: &str) -> (r: Option<Vec<String>>)
    ensures
        r matches Some(urls) ==> json_image_urls_of(body@) == Some(urls.deep_view()),
        r is None <==> json_image_urls_of(body@) is None,
{
    match serde_json::from_str::<serde_json::Value>(body) {
        Ok(v) => match v.get("data").and_then(|d| d.get("image_urls")).and_then(|u| u.as_array()) {
            Some(a) => a.iter().map(|e| e.as_str().map(String::from)).collect(),
            None => None,
        },
        Err(_) => None,
    }
}

/// A request to the general OCR endpoint, each field optional; the
/// caller serializes it to URL-encoded form text before dispatch.
#[derive(Debug)]
pub struct OcrNormalRequest {
    pub image_base64: Option<String>,
    pub image_url: Option<String>,
    pub approximate_pixel: Option<String>,
    pub mode: Option<String>,
    pub filter_thresh: Option<String>,
    pub half_to_full: Option<String>,
}

impl Default for OcrNormalRequest {
    /// All fields absent.
    fn default() -> (r: OcrNormalRequest)
        ensures
            r.image_base64 is None,
            r.image_url is None,
            r.approximate_pixel is None,
            r.mode is None,
            r.filter_thresh is None,
            r.half_to_full is None,
    {
        OcrNormalRequest {
            image_base64: None,
            image_url: None,
            approximate_pixel: None,
            mode: None,
            filter_thresh: None,
            half_to_full: None,
        }
    }
}

/// The OCR response envelope. The payload under `data` is kept as raw
/// JSON text (absent when the response carried no data or `null`); the
/// caller decodes it into its endpoint-specific shape.
#[derive(Debug)]
pub struct OcrNormalResponse {
    pub code: i64,
    pub data: Option<String>,
    pub message: String,
    pub request_id: String,
    pub time_elapsed: String,
}

/// The text-to-image response envelope.
#[derive(Debug)]
pub struct TextToImageResponse {
    pub code: i64,
    pub message: String,
    pub data: Option<TextToImageData>,
}

/// The text-to-image payload: the generated image URLs.
#[derive(Debug)]
pub struct TextToImageData {
    pub image_urls: Vec<String>,
}

fn decode_error() -> (r: VolceError)
    ensures
        r is Decode,
{
    VolceError::Decode(String::from_str("response body does not match the expected shape"))
}

/// Decodes the OCR response envelope: `code`, `message`, `request_id`
/// and `time_elapsed` are required, `data` may be absent or `null`.
/// A body that is not JSON, or whose fields do not fit, is a decode
/// error; the raw `data` payload is passed through as JSON text.
pub fn decode_ocr_response(body: &str) -> (r: Result<OcrNormalResponse, VolceError>)
    ensures
        r is Ok <==> json_ok(body@) && json_i64_field_of(body@, "code"@) is Some
            && json_str_field_of(body@, "message"@) is Some && json_str_field_of(
            body@,
            "request_id"@,
        ) is Some && json_str_field_of(body@, "time_elapsed"@) is Some,
        r matches Ok(resp) ==> {
            &&& json_i64_field_of(body@, "code"@) == Some(resp.code)
            &&& json_str_field_of(body@, "message"@) == Some(resp.message@)
            &&& json_str_field_of(body@, "request_id"@) == Some(resp.request_id@)
            &&& json_str_field_of(body@, "time_elapsed"@) == Some(resp.time_elapsed@)
            &&& (resp.data is None <==> json_field_rendered_of(body@, "data"@) is None)
            &&& (resp.data matches Some(d) ==> json_field_rendered_of(body@, "data"@) == Some(d@))
        },
        r matches Err(e) ==> e is Decode,
{
    if !json_parse_ok(body) {
        return Err(decode_error());
    }
    let code = match json_i64_field(body, "code") {
        Some(n) => n,
        None => {
            return Err(decode_error());
        },
    };
    let message = match json_str_field(body, "message") {
        Some(s) => s,
        None => {
            return Err(decode_error());
        },
    };
    let request_id = match json_str_field(body, "request_id") {
        Some(s) => s,
        None => {
            return Err(decode_error());
        },
    };
    let time_elapsed = match json_str_field(body, "time_elapsed") {
        Some(s) => s,
        None => {
            return Err(decode_error());
        },
    };
    let data = json_field_rendered(body, "data");
    Ok(OcrNormalResponse { code, data, message, request_id, time_elapsed })
}

/// Decodes the text-to-image response envelope: `code` and `message` are
/// required; `data`, when present and not `null`, must be an object with
/// an `image_urls` array of strings.
pub fn decode_text_to_image_response(body: &str) -> (r: Result<TextToImageResponse, VolceError>)
    ensures
        r is Ok <==> json_ok(body@) && json_i64_field_of(body@, "code"@) is Some
            && json_str_field_of(body@, "message"@) is Some && (json_field_rendered_of(
            body@,
            "data"@,
        ) is Some ==> json_image_urls_of(body@) is Some),
        r matches Ok(resp) ==> {
            &&& json_i64_field_of(body@, "code"@) == Some(resp.code)
            &&& json_str_field_of(body@, "message"@) == Some(resp.message@)
            &&& (resp.data is None <==> json_field_rendered_of(body@, "data"@) is None)
            &&& (resp.data matches Some(d) ==> json_image_urls_of(body@) == Some(
                d.image_urls.deep_view(),
            ))
        },
        r matches Err(e) ==> e is Decode,
{
    if !json_parse_ok(body) {
        return Err(decode_error());
    }
    let code = match json_i64_field(body, "code") {
        Some(n) => n,
        None => {
            return Err(decode_error());
        },
    };
    let message = match json_str_field(body, "message") {
        Some(s) => s,
        None => {
            return Err(decode_error());
        },
    };
    let data = match json_field_rendered(body, "data") {
        Some(_) => match json_image_urls(body) {
            Some(urls) => Some(TextToImageData { image_urls: urls }),
            None => {
                return Err(decode_error());
            },
        },
        None => None,
    };
    Ok(TextToImageResponse { code, message, data })
}

/// The fixed endpoint both Visual APIs are served from.
pub open spec fn spec_visual_endpoint() -> Seq<char> {
    "https://visual.volcengineapi.com"@
}

/// The fixed query set of the general OCR call, in canonical order.
pub open spec fn ocr_query() -> Seq<(Seq<char>, Seq<char>)> {
    seq![("Action"@, "OCRNormal"@), ("Version"@, "2020-08-26"@)]
}

/// The fixed query set of the text-to-image call, in canonical order.
pub open spec fn text_to_image_query() -> Seq<(Seq<char>, Seq<char>)> {
    seq![("Action"@, "CVProcess"@), ("Version"@, "2022-08-31"@)]
}

/// A client for the Visual (CV) service, holding the credentials and the
/// region every call is signed for.
pub struct VisualClient<'a> {
    access_key: &'a str,
    secret_key: &'a str,
    region: &'a str,
}

impl<'a> VisualClient<'a> {
    pub closed spec fn spec_access_key(&self) -> Seq<char> {
        self.access_key@
    }

    pub closed spec fn spec_secret_key(&self) -> Seq<char> {
        self.secret_key@
    }

    pub closed spec fn spec_region(&self) -> Seq<char> {
        self.region@
    }

    /// Creates a new VisualClient.
    pub fn new(access_key: &'a str, secret_key: &'a str, region: &'a str) -> (r: Self)
        ensures
            r.spec_access_key() == access_key@,
            r.spec_secret_key() == secret_key@,
            r.spec_region() == region@,
    {
        VisualClient { access_key, secret_key, region }
    }

    /// Prepares the signed general-OCR request for an already serialized
    /// URL-encoded form body. Fails exactly when the fixed endpoint
    /// yields no host.
    pub fn ocr_normal(&self, body: &str, t: &UtcInstant) -> (r: Result<
        PreparedRequest,
        VolceError,
    >)
        requires
            t.wf(),
        ensures
            r is Err <==> host_of(spec_visual_endpoint()) is None,
            r matches Err(e) ==> e is Configuration,
            r matches Ok(p) ==> {
                &&& p.method@ == "POST"@
                &&& p.content_type@ == "application/x-www-form-urlencoded"@
                &&& p.body@ == body@
                &&& p.x_date@ == spec_timestamp(*t)
                &&& p.url@ == spec_visual_endpoint() + "?"@ + spec_format_query(ocr_query())
                &&& host_of(spec_visual_endpoint()) matches Some(h) && p.authorization@
                    == spec_authorization(
                    self.spec_access_key(),
                    self.spec_secret_key(),
                    h,
                    self.spec_region(),
                    "cv"@,
                    "POST"@,
                    spec_format_query(ocr_query()),
                    body@,
                    *t,
                )
            },
    {
        let mut query_params = QueryParams::new();
        query_params.insert("Action", "OCRNormal");
        proof {
            lemma_action_before_version();
            assert(query_params@ =~= seq![("Action"@, "OCRNormal"@)]);
        }
        query_params.insert("Version", "2020-08-26");
        proof {
            assert(query_params@ =~= ocr_query());
        }
        prepare_request(
            self.access_key,
            self.secret_key,
            "https://visual.volcengineapi.com",
            self.region,
            "cv",
            "POST",
            "application/x-www-form-urlencoded",
            &query_params,
            body,
            t,
        )
    }

    /// Prepares the signed text-to-image request for an already
    /// serialized JSON body. Fails exactly when the fixed endpoint
    /// yields no host.
    pub fn text_to_image(&self, body: &str, t: &UtcInstant) -> (r: Result<
        PreparedRequest,
        VolceError,
    >)
        requires
            t.wf(),
        ensures
            r is Err <==> host_of(spec_visual_endpoint()) is None,
            r matches Err(e) ==> e is Configuration,
            r matches Ok(p) ==> {
                &&& p.method@ == "POST"@
                &&& p.content_type@ == "application/json"@
                &&& p.body@ == body@
                &&& p.x_date@ == spec_timestamp(*t)
                &&& p.url@ == spec_visual_endpoint() + "?"@ + spec_format_query(
                    text_to_image_query(),
                )
                &&& host_of(spec_visual_endpoint()) matches Some(h) && p.authorization@
                    == spec_authorization(
                    self.spec_access_key(),
                    self.spec_secret_key(),
                    h,
                    self.spec_region(),
                    "cv"@,
                    "POST"@,
                    spec_format_query(text_to_image_query()),
                    body@,
                    *t,
                )
            },
    {
        let mut query_params = QueryParams::new();
        query_params.insert("Action", "CVProcess");
        proof {
            lemma_action_before_version();
            assert(query_params@ =~= seq![("Action"@, "CVProcess"@)]);
        }
        query_params.insert("Version", "2022-08-31");
        proof {
            assert(query_params@ =~= text_to_image_query());
        }
        prepare_request(
            self.access_key,
            self.secret_key,
            "https://visual.volcengineapi.com",
            self.region,
            "cv",
            "POST",
            "application/json",
            &query_params,
            body,
            t,
        )
    }
}

proof fn lemma_action_before_version()
    ensures
        lex_lt("Action"@, "Version"@),
{
    reveal_strlit("Action");
    reveal_strlit("Version");
    assert(('A' as int) < ('V' as int));
    assert(lex_lt("Action"@, "Version"@));
}

} // verus!
