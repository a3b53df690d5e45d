//! The request-authentication core: canonical request construction, the
//! derived-key HMAC signature, and assembly of a fully prepared HTTP
//! request. The signer is a pure function of its inputs and the instant
//! it is handed; transmitting the prepared request is the caller's
//! affair.

use crate::crypto::{
    get_signature_key, hex_encode, hex_of, hmac_sha256_of, sha256, sha256_of, sign,
    spec_signature_key,
};
use crate::errors::VolceError;
use crate::query::{format_query, spec_format_query, QueryParams};
use crate::time::{format_datestamp, format_timestamp, spec_datestamp, spec_timestamp, UtcInstant};
use vstd::prelude::*;

verus! {

/// The host component of a URL, if the text parses as a URL that has
/// one: a pure function of the URL text.
pub uninterp spec fn host_of(url: Seq<char>) -> Option<Seq<char>>;

/// Relies on `url::Url::parse` and `url::Url::host_str`: the host
/// component of the endpoint text, `None` when the text does not parse
/// as a URL or the URL has no host; a function of the text alone.
#[verifier::external_body]
fn url_host(endpoint: &str) -> (r: Option<String>)
    ensures
        r matches Some(h) ==> host_of(endpoint@) == Some(h@),
        r is None <==> host_of(endpoint@) is None,
{
    match url::Url::parse(endpoint) {
        Ok(u) => u.host_str().map(|h| h.to_string()),
        Err(_) => None,
    }
}

/// Extracts the bare host from the endpoint URL; a malformed or hostless
/// endpoint is a configuration error.
pub fn get_host(endpoint: &str) -> (r: Result<String, VolceError>)
    ensures
        r matches Ok(h) ==> host_of(endpoint@) == Some(h@),
        r is Err <==> host_of(endpoint@) is None,
        r matches Err(e) ==> e is Configuration,
{
    match url_host(endpoint) {
        Some(h) => Ok(h),
        None => Err(VolceError::Configuration(String::from_str("invalid endpoint"))),
    }
}

/// The hex-encoded SHA-256 of the request body.
pub open spec fn spec_payload_hash(body: Seq<char>) -> Seq<char> {
    hex_of(sha256_of(body))
}

/// The fixed, semicolon-joined list of signed header names.
pub open spec fn spec_signed_headers() -> Seq<char> {
    "content-type;host;x-content-sha256;x-date"@
}

/// The canonical header block, one newline-terminated line per signed
/// header, in the fixed order. The content type signed is always
/// `application/json`, whatever the dispatcher transmits.
pub open spec fn spec_canonical_headers(
    host: Seq<char>,
    payload_hash: Seq<char>,
    timestamp: Seq<char>,
) -> Seq<char> {
    "content-type:application/json\nhost:"@ + host + "\nx-content-sha256:"@ + payload_hash
        + "\nx-date:"@ + timestamp + "\n"@
}

/// The canonical request, with the payload hash given explicitly: method,
/// the fixed root path, the canonical query, the canonical headers, the
/// signed-header list, and the payload hash, newline-separated.
pub open spec fn spec_canonical_request_with(
    method: Seq<char>,
    query: Seq<char>,
    host: Seq<char>,
    timestamp: Seq<char>,
    payload_hash: Seq<char>,
) -> Seq<char> {
    method + "\n/\n"@ + query + "\n"@ + spec_canonical_headers(host, payload_hash, timestamp)
        + "\n"@ + spec_signed_headers() + "\n"@ + payload_hash
}

/// The canonical request of a body, at an instant.
pub open spec fn spec_canonical_request(
    method: Seq<char>,
    query: Seq<char>,
    host: Seq<char>,
    body: Seq<char>,
    t: UtcInstant,
) -> Seq<char> {
    spec_canonical_request_with(method, query, host, spec_timestamp(t), spec_payload_hash(body))
}

/// The credential scope `date/region/service/request` that bounds a
/// derived key's validity.
pub open spec fn spec_credential_scope(
    date: Seq<char>,
    region: Seq<char>,
    service: Seq<char>,
) -> Seq<char> {
    date + "/"@ + region + "/"@ + service + "/request"@
}

/// The string to sign, with the canonical request's hash given explicitly.
pub open spec fn spec_string_to_sign_with(
    timestamp: Seq<char>,
    scope: Seq<char>,
    request_hash_hex: Seq<char>,
) -> Seq<char> {
    "HMAC-SHA256\n"@ + timestamp + "\n"@ + scope + "\n"@ + request_hash_hex
}

/// The string to sign for given inputs at an instant.
pub open spec fn spec_string_to_sign(
    method: Seq<char>,
    query: Seq<char>,
    host: Seq<char>,
    body: Seq<char>,
    region: Seq<char>,
    service: Seq<char>,
    t: UtcInstant,
) -> Seq<char> {
    spec_string_to_sign_with(
        spec_timestamp(t),
        spec_credential_scope(spec_datestamp(t), region, service),
        hex_of(sha256_of(spec_canonical_request(method, query, host, body, t))),
    )
}

/// The hex-encoded final signature: the string to sign under the derived
/// key.
pub open spec fn spec_signature_hex(
    secret: Seq<char>,
    host: Seq<char>,
    region: Seq<char>,
    service: Seq<char>,
    method: Seq<char>,
    query: Seq<char>,
    body: Seq<char>,
    t: UtcInstant,
) -> Seq<char> {
    hex_of(
        hmac_sha256_of(
            spec_signature_key(secret, spec_datestamp(t), region, service),
            spec_string_to_sign(method, query, host, body, region, service, t),
        ),
    )
}

/// The assembled Authorization header, from scope and signature.
pub open spec fn spec_authorization_header(
    access: Seq<char>,
    scope: Seq<char>,
    signature_hex: Seq<char>,
) -> Seq<char> {
    "HMAC-SHA256 Credential="@ + access + "/"@ + scope + ", SignedHeaders="@ + spec_signed_headers()
        + ", Signature="@ + signature_hex
}

/// The Authorization header produced for given inputs at an instant.
pub open spec fn spec_authorization(
    access: Seq<char>,
    secret: Seq<char>,
    host: Seq<char>,
    region: Seq<char>,
    service: Seq<char>,
    method: Seq<char>,
    query: Seq<char>,
    body: Seq<char>,
    t: UtcInstant,
) -> Seq<char> {
    spec_authorization_header(
        access,
        spec_credential_scope(spec_datestamp(t), region, service),
        spec_signature_hex(secret, host, region, service, method, query, body, t),
    )
}

/// Computes the Authorization header and the signed timestamp for a
/// request: the canonical request is hashed into the string to sign,
/// which is signed under the four-stage derived key. The caller must
/// send the returned timestamp, byte for byte, as the `X-Date` header.
pub fn signature_v4(
    access_key: &str,
    secret_key: &str,
    host: &str,
    region: &str,
    service: &str,
    method: &str,
    req_query: &str,
    req_body: &str,
    t: &UtcInstant,
) -> (r: (String, String))
    requires
        t.wf(),
    ensures
        r.0@ == spec_authorization(
            access_key@,
            secret_key@,
            host@,
            region@,
            service@,
            method@,
            req_query@,
            req_body@,
            *t,
        ),
        r.1@ == spec_timestamp(*t),
{
    let current_date = format_timestamp(t);
    let datestamp = format_datestamp(t);

    let payload_digest = sha256(req_body);
    let payload_hash = hex_encode(payload_digest.as_slice());

    let mut canonical_headers = String::from_str("content-type:application/json\nhost:");
    canonical_headers.append(host);
    canonical_headers.append("\nx-content-sha256:");
    canonical_headers.append(payload_hash.as_str());
    canonical_headers.append("\nx-date:");
    canonical_headers.append(current_date.as_str());
    canonical_headers.append("\n");
    proof {
        assert(canonical_headers@ =~= spec_canonical_headers(
            host@,
            spec_payload_hash(req_body@),
            spec_timestamp(*t),
        ));
    }

    let mut canonical_request = String::from_str(method);
    canonical_request.append("\n/\n");
    canonical_request.append(req_query);
    canonical_request.append("\n");
    canonical_request.append(canonical_headers.as_str());
    canonical_request.append("\n");
    canonical_request.append("content-type;host;x-content-sha256;x-date");
    canonical_request.append("\n");
    canonical_request.append(payload_hash.as_str());
    proof {
        assert(canonical_request@ =~= spec_canonical_request(
            method@,
            req_query@,
            host@,
            req_body@,
            *t,
        ));
    }

    let mut credential_scope = String::new();
    credential_scope.append(datestamp.as_str());
    credential_scope.append("/");
    credential_scope.append(region);
    credential_scope.append("/");
    credential_scope.append(service);
    credential_scope.append("/request");
    proof {
        assert(credential_scope@ =~= spec_credential_scope(
            spec_datestamp(*t),
            region@,
            service@,
        ));
    }

    let request_digest = sha256(canonical_request.as_str());
    let request_hash = hex_encode(request_digest.as_slice());

    let mut string_to_sign = String::from_str("HMAC-SHA256\n");
    string_to_sign.append(current_date.as_str());
    string_to_sign.append("\n");
    string_to_sign.append(credential_scope.as_str());
    string_to_sign.append("\n");
    string_to_sign.append(request_hash.as_str());
    proof {
        assert(string_to_sign@ =~= spec_string_to_sign(
            method@,
            req_query@,
            host@,
            req_body@,
            region@,
            service@,
            *t,
        ));
    }

    let signing_key = get_signature_key(secret_key, datestamp.as_str(), region, service);
    let tag = sign(signing_key.as_slice(), string_to_sign.as_str());
    let signature = hex_encode(tag.as_slice());

    let mut authorization_header = String::from_str("HMAC-SHA256 Credential=");
    authorization_header.append(access_key);
    authorization_header.append("/");
    authorization_header.append(credential_scope.as_str());
    authorization_header.append(", SignedHeaders=");
    authorization_header.append("content-type;host;x-content-sha256;x-date");
    authorization_header.append(", Signature=");
    authorization_header.append(signature.as_str());
    proof {
        assert(authorization_header@ =~= spec_authorization(
            access_key@,
            secret_key@,
            host@,
            region@,
            service@,
            method@,
            req_query@,
            req_body@,
            *t,
        ));
    }

    (authorization_header, current_date)
}

/// A fully formed HTTP request, ready for a transport to send: the
/// method, the URL with the canonical query appended, the four signed
/// headers' values, and the body.
#[derive(Debug)]
pub struct PreparedRequest {
    pub method: String,
    pub url: String,
    pub x_date: String,
    pub authorization: String,
    pub x_content_sha256: String,
    pub content_type: String,
    pub body: String,
}

/// Builds the fully signed request for the given parameters at an
/// instant: the query set is rendered in canonical order, the host is
/// taken from the endpoint, the Authorization header is computed, and
/// the payload hash is recomputed for the `X-Content-Sha256` header.
/// Fails exactly when the endpoint has no host.
pub fn prepare_request(
    access_key: &str,
    secret_key: &str,
    endpoint: &str,
    region: &str,
    service: &str,
    method: &str,
    content_type: &str,
    query_params: &QueryParams,
    body: &str,
    t: &UtcInstant,
) -> (r: Result<PreparedRequest, VolceError>)
    requires
        t.wf(),
    ensures
        r is Err <==> host_of(endpoint@) is None,
        r matches Err(e) ==> e is Configuration,
        r matches Ok(p) ==> {
            &&& host_of(endpoint@) matches Some(h) && p.authorization@ == spec_authorization(
                access_key@,
                secret_key@,
                h,
                region@,
                service@,
                method@,
                spec_format_query(query_params@),
                body@,
                *t,
            )
            &&& p.method@ == method@
            &&& p.url@ == endpoint@ + "?"@ + spec_format_query(query_params@)
            &&& p.x_date@ == spec_timestamp(*t)
            &&& p.x_content_sha256@ == spec_payload_hash(body@)
            &&& p.content_type@ == content_type@
            &&& p.body@ == body@
        },
{
    let formatted_query = format_query(query_params);
    let host = match get_host(endpoint) {
        Ok(h) => h,
        Err(e) => {
            return Err(e);
        },
    };
    let (authorization_header, current_date) = signature_v4(
        access_key,
        secret_key,
        host.as_str(),
        region,
        service,
        method,
        formatted_query.as_str(),
        body,
        t,
    );
    let digest = sha256(body);
    let payload_hash = hex_encode(digest.as_slice());
    let mut request_url = String::from_str(endpoint);
    request_url.append("?");
    request_url.append(formatted_query.as_str());
    proof {
        assert(request_url@ =~= endpoint@ + "?"@ + spec_format_query(query_params@));
    }
    Ok(
        PreparedRequest {
            method: String::from_str(method),
            url: request_url,
            x_date: current_date,
            authorization: authorization_header,
            x_content_sha256: payload_hash,
            content_type: String::from_str(content_type),
            body: String::from_str(body),
        },
    )
}

} // verus!
