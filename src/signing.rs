//! The ACS signed content: a PS256 JWT, with the certificate in `x5c`, that
//! binds the ACS ephemeral public key to the transaction.
use crate::codec::{quote, base64url_text, json_quoted, uuid_text, uuid_to_text};
use crate::crypto::{AcsEphemPubKey, EphemeralKeyPair};
use crate::text::{has_prefix, starts_with};
use vstd::prelude::*;
use vstd::utf8::encode_utf8;

verus! {

#[verifier::external_type_specification]
#[verifier::external_body]
pub struct ExEncodingKey(jsonwebtoken::EncodingKey);

/// Why the signed content could not be made.
#[derive(Debug, Clone, Copy, PartialEq, Eq, Structural)]
pub enum SigningError {
    /// The key is neither an RSA nor an EC private key in PEM.
    InvalidKey,
    /// Signing failed (for instance an EC key cannot sign PS256).
    SigningFailed,
}

/// Relies on `jsonwebtoken::EncodingKey::from_rsa_pem`.
#[verifier::external_body]
fn rsa_key_from_pem(pem: &[u8]) -> (r: Option<jsonwebtoken::EncodingKey>) {
    jsonwebtoken::EncodingKey::from_rsa_pem(pem).ok()
}

/// Relies on `jsonwebtoken::EncodingKey::from_ec_pem`.
#[verifier::external_body]
fn ec_key_from_pem(pem: &[u8]) -> (r: Option<jsonwebtoken::EncodingKey>) {
    jsonwebtoken::EncodingKey::from_ec_pem(pem).ok()
}

/// Reads the signing key from PEM: an RSA key (PKCS#8 or PKCS#1), else an
/// EC key.
pub fn load_private_key(key_pem: &[u8]) -> (r: Result<jsonwebtoken::EncodingKey, SigningError>) {
    match rsa_key_from_pem(key_pem) {
        Some(k) => Ok(k),
        None => match ec_key_from_pem(key_pem) {
            Some(k) => Ok(k),
            None => Err(SigningError::InvalidKey),
        },
    }
}

/// What serde_json writes back for a JSON text read into a `Value`.
pub uninterp spec fn json_value_text(json: Seq<char>) -> Seq<char>;

/// The JWT header that jsonwebtoken serialises for an algorithm, a `typ` and
/// one `x5c` certificate: fields in declaration order, absent ones skipped.
pub open spec fn jwt_header_json(alg: Seq<char>, typ: Seq<char>, cert_base64: Seq<char>) -> Seq<char> {
    "{\"typ\":"@ + json_quoted(typ) + ",\"alg\":"@ + json_quoted(alg) + ",\"x5c\":["@ + json_quoted(
        cert_base64,
    ) + "]}"@
}

/// A compact JWS over a header and claims: their base64url texts and a
/// signature, joined by `.`.
pub open spec fn is_jws_of(t: Seq<char>, header_json: Seq<char>, claims: Seq<char>) -> bool {
    exists|sig: Seq<char>|
        t == base64url_text(encode_utf8(header_json)) + "."@ + base64url_text(
            encode_utf8(json_value_text(claims)),
        ) + "."@ + sig
}

/// Relies on `jsonwebtoken::encode`, with a `Header` for the algorithm named
/// (read by `Algorithm::from_str`, whose names are the variants' serialised
/// names), the given `typ`, and the certificate as its one `x5c` entry; the
/// claims are JSON text, read by `serde_json::from_str`. `encode` joins the
/// base64url of the header's and the claims' JSON and a signature with `.`;
/// PSS signatures are randomised, so nothing more is stated of the token.
#[verifier::external_body]
fn sign_jwt(alg: &str, typ: &str, cert_base64: &str, claims_json: &str, key: &jsonwebtoken::EncodingKey) -> (r: Option<String>)
    ensures
        r matches Some(t) ==> exists|sig: Seq<char>|
            t@ == base64url_text(encode_utf8(jwt_header_json(alg@, typ@, cert_base64@))) + "."@
                + base64url_text(encode_utf8(json_value_text(claims_json@))) + "."@ + sig,
{
    let algorithm = alg.parse::<jsonwebtoken::Algorithm>().ok()?;
    let claims: serde_json::Value = serde_json::from_str(claims_json).ok()?;
    let mut header = jsonwebtoken::Header::new(algorithm);
    header.typ = Some(typ.to_string());
    header.x5c = Some(vec![cert_base64.to_string()]);
    jsonwebtoken::encode(&header, &claims, key).ok()
}

/// The public key as a JWK object.
pub open spec fn jwk_json(k: AcsEphemPubKey) -> Seq<char> {
    "{\"kty\":"@ + json_quoted(k.kty@) + ",\"crv\":"@ + json_quoted(k.crv@) + ",\"x\":"@ + json_quoted(
        k.x@,
    ) + ",\"y\":"@ + json_quoted(k.y@) + "}"@
}

/// The claims of the signed content.
pub open spec fn claims_json(acs_trans_id: u128, acs_ref_number: Seq<char>, acs_url: Seq<char>, k: AcsEphemPubKey) -> Seq<char> {
    "{\"acsTransID\":"@ + json_quoted(uuid_text(acs_trans_id)) + ",\"acsRefNumber\":"@ + json_quoted(
        acs_ref_number,
    ) + ",\"acsURL\":"@ + json_quoted(acs_url) + ",\"acsEphemPubKey\":"@ + jwk_json(k) + "}"@
}

/// Builds the claims: ACS transaction id, reference number, ACS URL and the
/// ephemeral public key.
pub fn signed_content_claims(acs_trans_id: u128, acs_ref_number: &str, acs_url: &str, keys: &EphemeralKeyPair) -> (r: String)
    ensures
        r@ == claims_json(acs_trans_id, acs_ref_number@, acs_url@, keys.public_key),
{
    let k = &keys.public_key;
    let mut j = "{\"acsTransID\":".to_string();
    j.append(quote(uuid_to_text(acs_trans_id).as_str()).as_str());
    j.append(",\"acsRefNumber\":");
    j.append(quote(acs_ref_number).as_str());
    j.append(",\"acsURL\":");
    j.append(quote(acs_url).as_str());
    j.append(",\"acsEphemPubKey\":");
    j.append("{\"kty\":");
    j.append(quote(k.kty.as_str()).as_str());
    j.append(",\"crv\":");
    j.append(quote(k.crv.as_str()).as_str());
    j.append(",\"x\":");
    j.append(quote(k.x.as_str()).as_str());
    j.append(",\"y\":");
    j.append(quote(k.y.as_str()).as_str());
    j.append("}");
    j.append("}");
    j
}

/// Signs the claims for a mobile challenge with PS256, the certificate
/// (base64 DER) in the header's `x5c`.
pub fn create_acs_signed_content(
    acs_trans_id: u128,
    acs_ref_number: &str,
    acs_url: &str,
    ephemeral_keys: &EphemeralKeyPair,
    cert_base64: &str,
    signing_key: &jsonwebtoken::EncodingKey,
) -> (r: Result<String, SigningError>)
    ensures
        r is Ok || r == Err::<String, SigningError>(SigningError::SigningFailed),
        r matches Ok(t) ==> is_jws_of(
            t@,
            jwt_header_json("PS256"@, "JWT"@, cert_base64@),
            claims_json(acs_trans_id, acs_ref_number@, acs_url@, ephemeral_keys.public_key),
        ),
{
    let claims = signed_content_claims(acs_trans_id, acs_ref_number, acs_url, ephemeral_keys);
    match sign_jwt("PS256", "JWT", cert_base64, claims.as_str(), signing_key) {
        Some(jwt) => Ok(jwt),
        None => Err(SigningError::SigningFailed),
    }
}

/// Where the first line of a text ends: the index of its first `\n`, or
/// the text's length.
pub open spec fn line_end(t: Seq<char>) -> int
    decreases t.len(),
{
    if t.len() == 0 || t[0] == '\n' {
        0
    } else {
        1 + line_end(t.drop_first())
    }
}

/// The first line of a text as `str::lines` gives it: a `\r` before the
/// `\n` is dropped.
pub open spec fn first_line(t: Seq<char>) -> Seq<char> {
    let e = line_end(t);
    let line = t.subrange(0, e);
    if e < t.len() && line.len() > 0 && line.last() == '\r' {
        line.drop_last()
    } else {
        line
    }
}

/// The base64 body of a PEM text: its lines, except the `-----` armour
/// lines, joined.
pub open spec fn pem_body_of(t: Seq<char>) -> Seq<char>
    decreases t.len(),
{
    let e = line_end(t);
    let line = first_line(t);
    let kept = if has_prefix(line, "-----"@) {
        Seq::empty()
    } else {
        line
    };
    if 0 <= e < t.len() {
        kept + pem_body_of(t.subrange(e + 1, t.len() as int))
    } else {
        kept
    }
}

/// `line_end` is the first `\n`, or the length.
proof fn lemma_line_end(t: Seq<char>, k: int)
    requires
        0 <= k <= t.len(),
        forall|j: int| 0 <= j < k ==> t[j] != '\n',
        k == t.len() || t[k] == '\n',
    ensures
        line_end(t) == k,
    decreases k,
{
    if k > 0 {
        lemma_line_end(t.drop_first(), k - 1);
    }
}

/// Strips the armour lines of a PEM certificate, leaving its base64 body
/// for the `x5c` header.
pub fn pem_body(pem: &str) -> (r: String)
    ensures
        r@ == pem_body_of(pem@),
{
    let n = pem.unicode_len();
    let mut out = String::new();
    let mut start: usize = 0;
    assert(pem@.subrange(0, n as int) =~= pem@);
    while start < n
        invariant
            n == pem@.len(),
            start <= n,
            out@ + pem_body_of(pem@.subrange(start as int, n as int)) == pem_body_of(pem@),
        decreases n - start,
    {
        let ghost rest = pem@.subrange(start as int, n as int);
        let mut end: usize = start;
        while end < n && pem.get_char(end) != '\n'
            invariant
                start <= end <= n,
                n == pem@.len(),
                rest == pem@.subrange(start as int, n as int),
                forall|j: int| start <= j < end ==> pem@[j] != '\n',
            decreases n - end,
        {
            end = end + 1;
        }
        proof {
            lemma_line_end(rest, end - start);
        }
        let mut line_stop = end;
        if end < n && end > start && pem.get_char(end - 1) == '\r' {
            line_stop = end - 1;
        }
        let line = pem.substring_char(start, line_stop);
        proof {
            assert(rest.subrange(0, end - start) =~= pem@.subrange(start as int, end as int));
            if end < n && end > start && pem@[end - 1] == '\r' {
                assert(rest.subrange(0, end - start).drop_last() =~= pem@.subrange(start as int, end - 1));
            }
            assert(line@ == first_line(rest));
        }
        if !starts_with(line, "-----") {
            out.append(line);
        }
        if end < n {
            proof {
                assert(rest.subrange(end - start + 1, rest.len() as int) =~= pem@.subrange(end + 1, n as int));
                assert(pem_body_of(rest) == (if has_prefix(first_line(rest), "-----"@) {
                    Seq::<char>::empty()
                } else {
                    first_line(rest)
                }) + pem_body_of(pem@.subrange(end + 1, n as int)));
            }
            start = end + 1;
        } else {
            proof {
                assert(pem_body_of(rest) == (if has_prefix(first_line(rest), "-----"@) {
                    Seq::<char>::empty()
                } else {
                    first_line(rest)
                }));
                assert(pem@.subrange(n as int, n as int) =~= Seq::<char>::empty());
                assert(pem_body_of(Seq::<char>::empty()) =~= Seq::<char>::empty());
            }
            start = n;
        }
    }
    proof {
        assert(pem@.subrange(n as int, n as int) =~= Seq::<char>::empty());
        assert(line_end(Seq::<char>::empty()) == 0);
        assert(first_line(Seq::<char>::empty()) =~= Seq::<char>::empty());
        reveal_strlit("-----");
        assert(pem_body_of(Seq::<char>::empty()) =~= Seq::<char>::empty());
    }
    out
}

} // verus!
