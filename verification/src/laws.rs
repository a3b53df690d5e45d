//! The signature scheme's stated properties, proved over the signing
//! specification: determinism, time-sensitivity, and tamper-evidence.
//!
//! The hash primitives are uninterpreted names, so nothing here can rule
//! out a SHA-256 or HMAC collision; where a property rests on collision
//! resistance, the lemma takes the relevant no-collision fact as a
//! premise and proves the rest.

use crate::crypto::{hex_of, hmac_sha256_of, lemma_hex_of_injective, sha256_of, spec_signature_key};
use crate::time::{
    lemma_datestamp_len, lemma_timestamp_injective, lemma_timestamp_len, spec_datestamp,
    spec_timestamp, UtcInstant,
};
use crate::volce::{
    spec_authorization, spec_canonical_headers, spec_canonical_request, spec_credential_scope,
    spec_payload_hash, spec_signed_headers, spec_string_to_sign,
};
use vstd::prelude::*;

verus! {

proof fn lemma_concat_cancel(p1: Seq<char>, s1: Seq<char>, p2: Seq<char>, s2: Seq<char>)
    requires
        p1.len() == p2.len(),
        p1 + s1 == p2 + s2,
    ensures
        p1 == p2,
        s1 == s2,
{
    assert((p1 + s1).len() == p1.len() + s1.len());
    assert((p2 + s2).len() == p2.len() + s2.len());
    assert(s1.len() == s2.len());
    assert(p1 =~= p2) by {
        assert forall|i: int| 0 <= i < p1.len() implies p1[i] == p2[i] by {
            assert((p1 + s1)[i] == p1[i]);
            assert((p2 + s2)[i] == p2[i]);
        }
    }
    assert(s1 =~= s2) by {
        assert forall|i: int| 0 <= i < s1.len() implies s1[i] == s2[i] by {
            let k = p1.len() + i;
            assert(0 <= k < (p1 + s1).len());
            assert((p1 + s1)[k] == s1[i]);
            assert((p2 + s2)[k] == s2[i]);
        }
    }
}

/// Determinism within an instant: for fixed credentials, host, region,
/// service, method, canonical query, body and instant, the Authorization
/// header is one fixed value; two invocations over equal inputs agree.
pub proof fn lemma_signing_deterministic(
    access1: Seq<char>,
    secret1: Seq<char>,
    host1: Seq<char>,
    region1: Seq<char>,
    service1: Seq<char>,
    method1: Seq<char>,
    query1: Seq<char>,
    body1: Seq<char>,
    t1: UtcInstant,
    access2: Seq<char>,
    secret2: Seq<char>,
    host2: Seq<char>,
    region2: Seq<char>,
    service2: Seq<char>,
    method2: Seq<char>,
    query2: Seq<char>,
    body2: Seq<char>,
    t2: UtcInstant,
)
    requires
        access1 == access2,
        secret1 == secret2,
        host1 == host2,
        region1 == region2,
        service1 == service2,
        method1 == method2,
        query1 == query2,
        body1 == body2,
        t1 == t2,
    ensures
        spec_authorization(
            access1,
            secret1,
            host1,
            region1,
            service1,
            method1,
            query1,
            body1,
            t1,
        ) == spec_authorization(
            access2,
            secret2,
            host2,
            region2,
            service2,
            method2,
            query2,
            body2,
            t2,
        ),
{
}

/// Time-sensitivity: signing the same inputs at two different instants
/// always yields two different strings to sign, and — provided HMAC maps
/// the two distinct strings to distinct tags, the collision-resistance
/// premise — two different Authorization headers.
pub proof fn lemma_time_sensitivity(
    access: Seq<char>,
    secret: Seq<char>,
    host: Seq<char>,
    region: Seq<char>,
    service: Seq<char>,
    method: Seq<char>,
    query: Seq<char>,
    body: Seq<char>,
    t1: UtcInstant,
    t2: UtcInstant,
)
    requires
        t1.wf(),
        t2.wf(),
        t1 != t2,
        hmac_sha256_of(
            spec_signature_key(secret, spec_datestamp(t1), region, service),
            spec_string_to_sign(method, query, host, body, region, service, t1),
        ) != hmac_sha256_of(
            spec_signature_key(secret, spec_datestamp(t2), region, service),
            spec_string_to_sign(method, query, host, body, region, service, t2),
        ),
    ensures
        spec_string_to_sign(method, query, host, body, region, service, t1)
            != spec_string_to_sign(method, query, host, body, region, service, t2),
        spec_authorization(access, secret, host, region, service, method, query, body, t1)
            != spec_authorization(access, secret, host, region, service, method, query, body, t2),
{
    lemma_timestamp_len(t1);
    lemma_timestamp_len(t2);
    lemma_datestamp_len(t1);
    lemma_datestamp_len(t2);
    let ts1 = spec_timestamp(t1);
    let ts2 = spec_timestamp(t2);
    let scope1 = spec_credential_scope(spec_datestamp(t1), region, service);
    let scope2 = spec_credential_scope(spec_datestamp(t2), region, service);
    let hash1 = hex_of(sha256_of(spec_canonical_request(method, query, host, body, t1)));
    let hash2 = hex_of(sha256_of(spec_canonical_request(method, query, host, body, t2)));
    let sts1 = spec_string_to_sign(method, query, host, body, region, service, t1);
    let sts2 = spec_string_to_sign(method, query, host, body, region, service, t2);
    if sts1 == sts2 {
        let x1 = "HMAC-SHA256\n"@ + ts1 + "\n"@ + scope1 + "\n"@;
        let x2 = "HMAC-SHA256\n"@ + ts2 + "\n"@ + scope2 + "\n"@;
        assert(sts1 == x1 + hash1);
        assert(sts2 == x2 + hash2);
        lemma_concat_cancel(x1, hash1, x2, hash2);
        lemma_concat_cancel(
            "HMAC-SHA256\n"@ + ts1 + "\n"@ + scope1,
            "\n"@,
            "HMAC-SHA256\n"@ + ts2 + "\n"@ + scope2,
            "\n"@,
        );
        lemma_concat_cancel("HMAC-SHA256\n"@ + ts1 + "\n"@, scope1, "HMAC-SHA256\n"@ + ts2 + "\n"@, scope2);
        lemma_concat_cancel("HMAC-SHA256\n"@ + ts1, "\n"@, "HMAC-SHA256\n"@ + ts2, "\n"@);
        lemma_concat_cancel("HMAC-SHA256\n"@, ts1, "HMAC-SHA256\n"@, ts2);
        lemma_timestamp_injective(t1, t2);
        assert(false);
    }
    let sig1 = hex_of(
        hmac_sha256_of(spec_signature_key(secret, spec_datestamp(t1), region, service), sts1),
    );
    let sig2 = hex_of(
        hmac_sha256_of(spec_signature_key(secret, spec_datestamp(t2), region, service), sts2),
    );
    let auth1 = spec_authorization(access, secret, host, region, service, method, query, body, t1);
    let auth2 = spec_authorization(access, secret, host, region, service, method, query, body, t2);
    if auth1 == auth2 {
        let y1 = "HMAC-SHA256 Credential="@ + access + "/"@ + scope1 + ", SignedHeaders="@
            + spec_signed_headers() + ", Signature="@;
        let y2 = "HMAC-SHA256 Credential="@ + access + "/"@ + scope2 + ", SignedHeaders="@
            + spec_signed_headers() + ", Signature="@;
        assert(auth1 == y1 + sig1);
        assert(auth2 == y2 + sig2);
        lemma_concat_cancel(y1, sig1, y2, sig2);
        lemma_hex_of_injective(
            hmac_sha256_of(spec_signature_key(secret, spec_datestamp(t1), region, service), sts1),
            hmac_sha256_of(spec_signature_key(secret, spec_datestamp(t2), region, service), sts2),
        );
        assert(false);
    }
}

/// Tamper-evidence: for fixed other inputs, two bodies whose SHA-256
/// digests differ have different payload hashes and different canonical
/// requests; provided SHA-256 also separates the two canonical requests
/// and HMAC separates the two strings to sign — the collision-resistance
/// premises — the strings to sign and the Authorization headers differ
/// too.
pub proof fn lemma_tamper_evidence(
    access: Seq<char>,
    secret: Seq<char>,
    host: Seq<char>,
    region: Seq<char>,
    service: Seq<char>,
    method: Seq<char>,
    query: Seq<char>,
    body1: Seq<char>,
    body2: Seq<char>,
    t: UtcInstant,
)
    requires
        sha256_of(body1) != sha256_of(body2),
        sha256_of(spec_canonical_request(method, query, host, body1, t)) != sha256_of(
            spec_canonical_request(method, query, host, body2, t),
        ),
        hmac_sha256_of(
            spec_signature_key(secret, spec_datestamp(t), region, service),
            spec_string_to_sign(method, query, host, body1, region, service, t),
        ) != hmac_sha256_of(
            spec_signature_key(secret, spec_datestamp(t), region, service),
            spec_string_to_sign(method, query, host, body2, region, service, t),
        ),
    ensures
        spec_payload_hash(body1) != spec_payload_hash(body2),
        spec_canonical_request(method, query, host, body1, t) != spec_canonical_request(
            method,
            query,
            host,
            body2,
            t,
        ),
        spec_string_to_sign(method, query, host, body1, region, service, t)
            != spec_string_to_sign(method, query, host, body2, region, service, t),
        spec_authorization(access, secret, host, region, service, method, query, body1, t)
            != spec_authorization(access, secret, host, region, service, method, query, body2, t),
{
    let ts = spec_timestamp(t);
    let scope = spec_credential_scope(spec_datestamp(t), region, service);
    let ph1 = spec_payload_hash(body1);
    let ph2 = spec_payload_hash(body2);
    if ph1 == ph2 {
        lemma_hex_of_injective(sha256_of(body1), sha256_of(body2));
        assert(false);
    }
    let cr1 = spec_canonical_request(method, query, host, body1, t);
    let cr2 = spec_canonical_request(method, query, host, body2, t);
    if cr1 == cr2 {
        let p1 = method + "\n/\n"@ + query + "\n"@ + spec_canonical_headers(host, ph1, ts) + "\n"@
            + spec_signed_headers() + "\n"@;
        let p2 = method + "\n/\n"@ + query + "\n"@ + spec_canonical_headers(host, ph2, ts) + "\n"@
            + spec_signed_headers() + "\n"@;
        assert(cr1 == p1 + ph1);
        assert(cr2 == p2 + ph2);
        assert(cr1.len() == cr2.len());
        assert(ph1.len() == ph2.len());
        lemma_concat_cancel(p1, ph1, p2, ph2);
        assert(false);
    }
    let crhex1 = hex_of(sha256_of(cr1));
    let crhex2 = hex_of(sha256_of(cr2));
    let sts1 = spec_string_to_sign(method, query, host, body1, region, service, t);
    let sts2 = spec_string_to_sign(method, query, host, body2, region, service, t);
    if sts1 == sts2 {
        let x = "HMAC-SHA256\n"@ + ts + "\n"@ + scope + "\n"@;
        assert(sts1 == x + crhex1);
        assert(sts2 == x + crhex2);
        lemma_concat_cancel(x, crhex1, x, crhex2);
        lemma_hex_of_injective(sha256_of(cr1), sha256_of(cr2));
        assert(false);
    }
    let key = spec_signature_key(secret, spec_datestamp(t), region, service);
    let auth1 = spec_authorization(access, secret, host, region, service, method, query, body1, t);
    let auth2 = spec_authorization(access, secret, host, region, service, method, query, body2, t);
    if auth1 == auth2 {
        let y = "HMAC-SHA256 Credential="@ + access + "/"@ + scope + ", SignedHeaders="@
            + spec_signed_headers() + ", Signature="@;
        assert(auth1 == y + hex_of(hmac_sha256_of(key, sts1)));
        assert(auth2 == y + hex_of(hmac_sha256_of(key, sts2)));
        lemma_concat_cancel(y, hex_of(hmac_sha256_of(key, sts1)), y, hex_of(hmac_sha256_of(key, sts2)));
        lemma_hex_of_injective(hmac_sha256_of(key, sts1), hmac_sha256_of(key, sts2));
        assert(false);
    }
}

} // verus!
