//! Webhook signature verification.
//!
//! A signed request carries a header of the form `sha256=<hex>` where the hex
//! text encodes a keyed SHA-256 digest of the body, computed with a shared
//! secret. Verification extracts that header, rejects it cheaply if it is
//! missing or malformed, and otherwise compares the decoded bytes against a
//! freshly computed digest without short-circuiting on the first mismatch.

use vstd::prelude::*;
use vstd::string::*;
use vstd::utf8::encode_utf8;

use hmac::Mac;

use crate::headers::{chars_of_bytes, header_lookup, header_text, spec_lookup, str_strip_prefix,
    visible_ascii, Header};
use crate::hex::{all_hex_digits, decode_hex, encode_hex_ascii, lemma_encode_hex_bytes_chars,
    lemma_encode_hex_wf, lemma_hex_round_trip, spec_decode_hex, spec_encode_hex,
    spec_encode_hex_bytes};

verus! {

/// The keyed SHA-256 digest of a message: a function of key and message alone.
pub uninterp spec fn hmac_sha256_of(key: Seq<u8>, msg: Seq<u8>) -> Seq<u8>;

/// Relies on hmac's `Hmac<Sha256>`: the tag depends on the key and message
/// bytes alone and is 32 bytes long; `new_from_slice` accepts a key of any
/// length, so it cannot fail here.
#[verifier::external_body]
fn hmac_sha256(key: &[u8], msg: &[u8]) -> (r: Vec<u8>)
    ensures
        r@ == hmac_sha256_of(key@, msg@),
        r@.len() == 32,
{
    let mut mac = <hmac::Hmac<sha2::Sha256> as Mac>::new_from_slice(key).unwrap();
    mac.update(msg);
    mac.finalize().into_bytes().to_vec()
}

/// Byte-string equality computed without short-circuiting: every byte pair is
/// examined, so the running time does not depend on the length of a matching
/// prefix.
pub fn ct_eq(a: &[u8], b: &[u8]) -> (r: bool)
    ensures
        r == (a@ == b@),
{
    if a.len() != b.len() {
        return false;
    }
    let n = a.len();
    let mut diff: u8 = 0;
    let mut i: usize = 0;
    while i < n
        invariant
            n == a@.len(),
            n == b@.len(),
            i <= n,
            (diff == 0) <==> (forall|j: int| 0 <= j < i ==> a@[j] == b@[j]),
        decreases n - i,
    {
        let x = a[i];
        let y = b[i];
        let d = x ^ y;
        proof {
            assert((x ^ y == 0) == (x == y)) by (bit_vector);
            let old_diff = diff;
            assert(((old_diff | d) == 0) == (old_diff == 0 && d == 0)) by (bit_vector);
        }
        diff = diff | d;
        i += 1;
    }
    if diff == 0 {
        proof {
            assert(a@ =~= b@);
        }
        true
    } else {
        false
    }
}

/// Whether the header set carries a valid signature for the body under the
/// given secret: the signature header is present, its value is text of the
/// form `sha256=<hex>` with well-formed hex, and the hex decodes to the keyed
/// digest of the body.
pub open spec fn spec_validate(secret: Seq<char>, headers: Seq<Header>, body: Seq<u8>) -> bool {
    match spec_lookup(headers, "x-hub-signature-256"@) {
        None => false,
        Some(v) => visible_ascii(v) && {
            let cs = chars_of_bytes(v);
            let p = "sha256="@;
            cs.len() >= p.len() && cs.take(p.len() as int) == p && {
                let hexpart = cs.skip(p.len() as int);
                hexpart.len() % 2 == 0 && all_hex_digits(hexpart)
                    && spec_decode_hex(hexpart) == hmac_sha256_of(encode_utf8(secret), body)
            }
        },
    }
}

/// Validates the signature attached to a request.
///
/// Returns false if the signature header is missing, is not header text, does
/// not start with `sha256=`, carries malformed or odd-length hex, or decodes
/// to anything but the keyed digest of the body under the secret. The digest
/// is only computed after the cheap syntactic checks pass.
pub fn validate_request(secret: &String, headers: &Vec<Header>, body: &[u8]) -> (r: bool)
    ensures
        r == spec_validate(secret@, headers@, body@),
{
    let v = match header_lookup(headers, "x-hub-signature-256") {
        Some(v) => v,
        None => {
            return false;
        },
    };
    let text = match header_text(v) {
        Some(t) => t,
        None => {
            return false;
        },
    };
    let hex_str = match str_strip_prefix(text.as_str(), "sha256=") {
        Some(h) => h,
        None => {
            return false;
        },
    };
    let sig = match decode_hex(hex_str) {
        Ok(s) => s,
        Err(_) => {
            return false;
        },
    };
    let mac = hmac_sha256(secret.as_str().as_bytes(), body);
    ct_eq(sig.as_slice(), mac.as_slice())
}

/// The signature header text a sender produces for a body under a key:
/// `sha256=` followed by the lower-case hex of the keyed digest.
pub open spec fn spec_signature_chars(key: Seq<u8>, body: Seq<u8>) -> Seq<char> {
    "sha256="@ + spec_encode_hex(hmac_sha256_of(key, body))
}

/// The same signature header as raw value bytes: the ASCII codes of
/// `sha256=` followed by the digit codes of the digest's hex.
pub open spec fn spec_signature_value(key: Seq<u8>, body: Seq<u8>) -> Seq<u8> {
    seq![115u8, 104u8, 97u8, 50u8, 53u8, 54u8, 61u8]
        + spec_encode_hex_bytes(hmac_sha256_of(key, body))
}

/// Computes the signature header value a sender would attach for this body.
pub fn signature_header_value(secret: &String, body: &[u8]) -> (r: Vec<u8>)
    ensures
        r@ == spec_signature_value(encode_utf8(secret@), body@),
{
    let mac = hmac_sha256(secret.as_str().as_bytes(), body);
    let hexpart = encode_hex_ascii(mac.as_slice());
    let mut out: Vec<u8> = Vec::new();
    out.push(115);
    out.push(104);
    out.push(97);
    out.push(50);
    out.push(53);
    out.push(54);
    out.push(61);
    let n = hexpart.len();
    let mut i: usize = 0;
    while i < n
        invariant
            n == hexpart@.len(),
            i <= n,
            out@.len() == 7 + i,
            forall|j: int| 0 <= j < i ==> out@[7 + j] == hexpart@[j],
            out@[0] == 115u8 && out@[1] == 104u8 && out@[2] == 97u8 && out@[3] == 50u8
                && out@[4] == 53u8 && out@[5] == 54u8 && out@[6] == 61u8,
        decreases n - i,
    {
        out.push(hexpart[i]);
        i += 1;
    }
    proof {
        let key = encode_utf8(secret@);
        assert(out@ =~= spec_signature_value(key, body@));
    }
    out
}

/// The signature value a sender computes is header text whose characters are
/// exactly the signature header text: `sha256=` followed by the digest's hex.
proof fn lemma_signature_value_shape(key: Seq<u8>, body: Seq<u8>)
    ensures
        visible_ascii(spec_signature_value(key, body)),
        chars_of_bytes(spec_signature_value(key, body)) == spec_signature_chars(key, body),
        spec_signature_chars(key, body).len() >= 7,
        spec_signature_chars(key, body).take(7) == "sha256="@,
        spec_signature_chars(key, body).skip(7) == spec_encode_hex(hmac_sha256_of(key, body)),
{
    let mac = hmac_sha256_of(key, body);
    let chars = spec_signature_chars(key, body);
    let v = spec_signature_value(key, body);
    reveal_strlit("sha256=");
    lemma_encode_hex_bytes_chars(mac);
    assert(v.len() == chars.len());
    assert forall|i: int| 0 <= i < v.len() implies ((32 <= #[trigger] v[i] && v[i] < 127)
        || v[i] == 9) && chars_of_bytes(v)[i] == chars[i] by {
        if i < 7 {
            assert(chars[i] == "sha256="@[i]);
            assert(v[i] == seq![115u8, 104u8, 97u8, 50u8, 53u8, 54u8, 61u8][i]);
        } else {
            assert(v[i] == spec_encode_hex_bytes(mac)[i - 7]);
            assert(chars[i] == spec_encode_hex(mac)[i - 7]);
            assert(spec_encode_hex(mac)[i - 7] == spec_encode_hex_bytes(mac)[i - 7] as char);
            let u = spec_encode_hex_bytes(mac)[i - 7];
            let c = u as char;
            assert(c as u32 == u);
        }
        assert(chars_of_bytes(v)[i] == v[i] as char);
    }
    assert(visible_ascii(v));
    assert(chars_of_bytes(v) =~= chars);
    assert(chars.take(7) =~= "sha256="@);
    assert(chars.skip(7) =~= spec_encode_hex(mac));
}

/// Law: a request carrying the signature header a sender computed for this
/// body under this secret validates against the same body.
pub proof fn lemma_sign_then_verify(secret: Seq<char>, headers: Seq<Header>, body: Seq<u8>)
    requires
        spec_lookup(headers, "x-hub-signature-256"@)
            == Some(spec_signature_value(encode_utf8(secret), body)),
    ensures
        spec_validate(secret, headers, body),
{
    let key = encode_utf8(secret);
    let mac = hmac_sha256_of(key, body);
    reveal_strlit("sha256=");
    lemma_signature_value_shape(key, body);
    lemma_encode_hex_wf(mac);
    lemma_hex_round_trip(mac);
}

/// Law: a request carrying the signature a sender computed for one body does
/// not validate against another body whose keyed digest differs.
pub proof fn lemma_verify_rejects_other_body(
    secret: Seq<char>,
    headers: Seq<Header>,
    body: Seq<u8>,
    other: Seq<u8>,
)
    requires
        spec_lookup(headers, "x-hub-signature-256"@)
            == Some(spec_signature_value(encode_utf8(secret), body)),
        hmac_sha256_of(encode_utf8(secret), other)
            != hmac_sha256_of(encode_utf8(secret), body),
    ensures
        !spec_validate(secret, headers, other),
{
    let key = encode_utf8(secret);
    let mac = hmac_sha256_of(key, body);
    reveal_strlit("sha256=");
    lemma_signature_value_shape(key, body);
    lemma_hex_round_trip(mac);
    if spec_validate(secret, headers, other) {
        let cs = chars_of_bytes(spec_signature_value(key, body));
        assert(cs.skip(7) == spec_encode_hex(mac));
        assert(spec_decode_hex(cs.skip(7)) == mac);
        assert(false);
    }
}

/// Law: a request without the signature header does not validate, under any
/// secret and against any body.
pub proof fn lemma_missing_signature_rejected(
    secret: Seq<char>,
    headers: Seq<Header>,
    body: Seq<u8>,
)
    requires
        spec_lookup(headers, "x-hub-signature-256"@) is None,
    ensures
        !spec_validate(secret, headers, body),
{
}

/// Law: a signature header that is not text, lacks the `sha256=` prefix, or
/// carries odd-length or non-hex digits does not validate, under any secret
/// and against any body.
pub proof fn lemma_malformed_signature_rejected(
    secret: Seq<char>,
    headers: Seq<Header>,
    body: Seq<u8>,
    v: Seq<u8>,
)
    requires
        spec_lookup(headers, "x-hub-signature-256"@) == Some(v),
        !visible_ascii(v) || !(chars_of_bytes(v).len() >= 7 && chars_of_bytes(v).take(7)
            == "sha256="@) || chars_of_bytes(v).skip(7).len() % 2 != 0 || !all_hex_digits(
            chars_of_bytes(v).skip(7),
        ),
    ensures
        !spec_validate(secret, headers, body),
{
    reveal_strlit("sha256=");
}

} // verus!
