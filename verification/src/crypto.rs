//! The hash primitives the signature scheme rests on: SHA-256 and
//! HMAC-SHA256, called through the `sha2` and `hmac` crates, and lowercase
//! hex encoding, called through the `hex` crate.
//!
//! A digest cannot be written out as a specification, so the value each
//! primitive returns is given a name: an uninterpreted function of the
//! input text alone. Hex encoding, by contrast, is small enough to state
//! exactly, and its contract is the full statement.

use vstd::prelude::*;

verus! {

/// The SHA-256 digest of a text's UTF-8 bytes: a pure function of the text.
pub uninterp spec fn sha256_of(text: Seq<char>) -> Seq<u8>;

/// The HMAC-SHA256 tag over a message's UTF-8 bytes under a byte key: a
/// pure function of key and message.
pub uninterp spec fn hmac_sha256_of(key: Seq<u8>, msg: Seq<char>) -> Seq<u8>;

/// One lowercase hex digit.
pub open spec fn hex_digit(d: u8) -> char
    recommends
        d < 16,
{
    match d {
        0 => '0',
        1 => '1',
        2 => '2',
        3 => '3',
        4 => '4',
        5 => '5',
        6 => '6',
        7 => '7',
        8 => '8',
        9 => '9',
        10 => 'a',
        11 => 'b',
        12 => 'c',
        13 => 'd',
        14 => 'e',
        _ => 'f',
    }
}

/// Lowercase hex encoding of a byte sequence: two digits per byte, high
/// nibble first, in input order.
pub open spec fn hex_of(bs: Seq<u8>) -> Seq<char>
    decreases bs.len(),
{
    if bs.len() == 0 {
        Seq::empty()
    } else {
        seq![hex_digit(bs[0] / 16), hex_digit(bs[0] % 16)] + hex_of(bs.drop_first())
    }
}

pub proof fn lemma_hex_of_len(bs: Seq<u8>)
    ensures
        hex_of(bs).len() == 2 * bs.len(),
    decreases bs.len(),
{
    if bs.len() > 0 {
        lemma_hex_of_len(bs.drop_first());
    }
}

proof fn lemma_hex_digit_injective(d1: u8, d2: u8)
    requires
        d1 < 16,
        d2 < 16,
        hex_digit(d1) == hex_digit(d2),
    ensures
        d1 == d2,
{
}

/// Hex encoding never maps two different byte sequences to the same text.
pub proof fn lemma_hex_of_injective(a: Seq<u8>, b: Seq<u8>)
    requires
        hex_of(a) == hex_of(b),
    ensures
        a == b,
    decreases a.len(),
{
    lemma_hex_of_len(a);
    lemma_hex_of_len(b);
    if a.len() == 0 {
        assert(a =~= b);
    } else {
        let ha = seq![hex_digit(a[0] / 16), hex_digit(a[0] % 16)];
        let hb = seq![hex_digit(b[0] / 16), hex_digit(b[0] % 16)];
        assert(hex_of(a)[0] == ha[0] && hex_of(a)[1] == ha[1]);
        assert(hex_of(b)[0] == hb[0] && hex_of(b)[1] == hb[1]);
        lemma_hex_digit_injective(a[0] / 16, b[0] / 16);
        lemma_hex_digit_injective(a[0] % 16, b[0] % 16);
        assert(a[0] == b[0]);
        assert(hex_of(a.drop_first()) =~= hex_of(b.drop_first())) by {
            assert forall|i: int| 0 <= i < hex_of(a.drop_first()).len() implies hex_of(
                a.drop_first(),
            )[i] == hex_of(b.drop_first())[i] by {
                assert(hex_of(a)[i + 2] == hex_of(a.drop_first())[i]);
                assert(hex_of(b)[i + 2] == hex_of(b.drop_first())[i]);
            }
        }
        lemma_hex_of_injective(a.drop_first(), b.drop_first());
        assert(a =~= b) by {
            assert forall|i: int| 0 <= i < a.len() implies a[i] == b[i] by {
                if i > 0 {
                    assert(a[i] == a.drop_first()[i - 1]);
                    assert(b[i] == b.drop_first()[i - 1]);
                }
            }
        }
    }
}

/// Relies on `sha2::Sha256::digest`: the SHA-256 digest of the text's
/// bytes, 32 bytes long, a function of the text alone.
#[verifier::external_body]
pub(crate) fn sha256(text: &str) -> (r: Vec<u8>)
    ensures
        r@ == sha256_of(text@),
        r@.len() == 32,
{
    <sha2::Sha256 as sha2::Digest>::digest(text.as_bytes()).to_vec()
}

/// Relies on `hex::encode`: lowercase hex, two digits per byte, high
/// nibble first, in input order.
#[verifier::external_body]
pub(crate) fn hex_encode(bytes: &[u8]) -> (r: String)
    ensures
        r@ == hex_of(bytes@),
{
    hex::encode(bytes)
}

/// Relies on `hmac::Hmac<sha2::Sha256>`: the HMAC-SHA256 tag of the
/// message's bytes under the key, 32 bytes long, a function of key and
/// message alone. HMAC accepts a key of any length, so the constructor
/// cannot fail.
#[verifier::external_body]
pub fn sign(key: &[u8], msg: &str) -> (r: Vec<u8>)
    ensures
        r@ == hmac_sha256_of(key@, msg@),
        r@.len() == 32,
{
    let mut mac = <hmac::Hmac<sha2::Sha256> as hmac::KeyInit>::new_from_slice(key).expect(
        "HMAC accepts keys of any length",
    );
    hmac::Mac::update(&mut mac, msg.as_bytes());
    hmac::Mac::finalize(mac).into_bytes().to_vec()
}

/// The derived signing key: the long-lived secret seeds a four-stage
/// HMAC chain over the day stamp, the region, the service, and the
/// literal scope terminator.
pub open spec fn spec_signature_key(
    secret: Seq<char>,
    date_stamp: Seq<char>,
    region: Seq<char>,
    service: Seq<char>,
) -> Seq<u8> {
    hmac_sha256_of(
        hmac_sha256_of(
            hmac_sha256_of(hmac_sha256_of(vstd::utf8::encode_utf8(secret), date_stamp), region),
            service,
        ),
        "request"@,
    )
}

/// Derives the date-, region- and service-scoped signing key from the raw
/// secret, so the long-lived secret never signs request data directly.
pub fn get_signature_key(secret_key: &str, date_stamp: &str, region: &str, service: &str) -> (r:
    Vec<u8>)
    ensures
        r@ == spec_signature_key(secret_key@, date_stamp@, region@, service@),
        r@.len() == 32,
{
    let k_date = sign(secret_key.as_bytes(), date_stamp);
    let k_region = sign(k_date.as_slice(), region);
    let k_service = sign(k_region.as_slice(), service);
    sign(k_service.as_slice(), "request")
}

} // verus!
