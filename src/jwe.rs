//! The challenge JWEs in their two dialects: `A128CBC-HS256` (Android) and
//! `A128GCM` (iOS), with direct key agreement (`alg` = `dir`).
//!
//! Both dialects slice the same 32-byte derived key. CBC-HS256 takes its MAC
//! key from bytes [0, 16) and its AES key from [16, 32) both ways. GCM
//! encrypts with bytes [16, 32) but decrypts with [0, 16), as the peer SDK
//! does; so a GCM token opens under the key that sealed it only when the two
//! halves agree.
use crate::codec::{
    base64url_bytes, base64url_decode, base64url_encode, base64url_text, is_base64url_char,
    json_lookup, json_member, json_quoted,
};
use crate::compact::{compact_parts, join5, join_compact, lemma_compact_parts_join, no_dot, split_compact};
use crate::crypto::{append_be32, append_bytes, be64, bytes_result, copy_range, platform_of_tag, CryptoError, Platform};
use crate::primitives::{
    aes128_cbc_decrypt, aes128_cbc_encrypt, aes128_gcm_open, aes128_gcm_seal, cbc_decrypted,
    cbc_encrypted, gcm_keystream, gcm_max_len, gcm_tag, hmac_sha256, hmac_sha256_mac,
    random_bytes,
};
use vstd::prelude::*;
use vstd::utf8::encode_utf8;

verus! {

/// The `enc` value of a dialect.
pub open spec fn enc_name(p: Platform) -> Seq<char> {
    match p {
        Platform::Android => "A128CBC-HS256"@,
        Platform::Ios => "A128GCM"@,
    }
}

/// The dialect an `enc` value names.
pub open spec fn platform_of_enc(enc: Seq<char>) -> Option<Platform> {
    if enc == "A128CBC-HS256"@ {
        Some(Platform::Android)
    } else if enc == "A128GCM"@ {
        Some(Platform::Ios)
    } else {
        None
    }
}

/// The protected header, as serde_json writes it (keys in order).
pub open spec fn header_text(p: Platform, kid: Seq<char>) -> Seq<char> {
    "{\"alg\":\"dir\",\"enc\":\""@ + enc_name(p) + "\",\"kid\":"@ + json_quoted(kid) + "}"@
}

/// The first part of a token: the base64url of the protected header.
pub open spec fn header_part(p: Platform, kid: Seq<char>) -> Seq<char> {
    base64url_text(encode_utf8(header_text(p, kid)))
}

/// Length of the initialisation vector each dialect draws.
pub open spec fn iv_len(p: Platform) -> nat {
    match p {
        Platform::Android => 16,
        Platform::Ios => 12,
    }
}

/// Whether the bit length of the associated data fits in 64 bits.
pub open spec fn aad_len_fits(aad: Seq<u8>) -> bool {
    aad.len() < 0x2000_0000_0000_0000
}

/// The CBC-HS256 tag: the first 16 bytes of HMAC-SHA-256, keyed by bytes
/// [0, 16) of the derived key, over `AAD || IV || ciphertext || AL`, where AL
/// is the bit length of AAD as a 64-bit big-endian number.
pub open spec fn hs256_tag(key: Seq<u8>, aad: Seq<u8>, iv: Seq<u8>, ct: Seq<u8>) -> Seq<u8> {
    hmac_sha256_mac(key.subrange(0, 16), aad + iv + ct + be64((aad.len() * 8) as u64)).subrange(0, 16)
}

/// The token that sealing gives for a plaintext, `kid`, derived key, dialect
/// and initialisation vector.
pub open spec fn sealed(pt: Seq<u8>, kid: Seq<char>, key: Seq<u8>, p: Platform, iv: Seq<u8>) -> Result<Seq<char>, CryptoError> {
    let h = header_part(p, kid);
    let aad = encode_utf8(h);
    match p {
        Platform::Android => {
            if key.len() != 32 {
                Err(CryptoError::InvalidDerivedKeyLength)
            } else if !aad_len_fits(aad) {
                Err(CryptoError::PayloadTooLarge)
            } else {
                let ct = cbc_encrypted(key.subrange(16, 32), iv, pt);
                let tag = hs256_tag(key, aad, iv, ct);
                Ok(join5((h, Seq::empty(), base64url_text(iv), base64url_text(ct), base64url_text(tag))))
            }
        },
        Platform::Ios => {
            if key.len() < 32 {
                Err(CryptoError::InvalidDerivedKeyLength)
            } else if !(pt.len() <= gcm_max_len() && aad.len() <= gcm_max_len()) {
                Err(CryptoError::PayloadTooLarge)
            } else {
                let k = key.subrange(16, 32);
                let ct = gcm_keystream(k, iv, pt);
                let tag = gcm_tag(k, iv, aad, ct);
                Ok(join5((h, Seq::empty(), base64url_text(iv), base64url_text(ct), base64url_text(tag))))
            }
        },
    }
}

/// Opening decoded parts under a dialect.
pub open spec fn opened_parts(p: Platform, aad: Seq<u8>, iv: Seq<u8>, ct: Seq<u8>, tag: Seq<u8>, key: Seq<u8>) -> Result<Seq<u8>, CryptoError> {
    match p {
        Platform::Android => {
            if key.len() != 32 {
                Err(CryptoError::InvalidDerivedKeyLength)
            } else if !aad_len_fits(aad) {
                Err(CryptoError::PayloadTooLarge)
            } else if tag != hs256_tag(key, aad, iv, ct) {
                Err(CryptoError::TagMismatch)
            } else if iv.len() != 16 {
                Err(CryptoError::InvalidIv)
            } else {
                match cbc_decrypted(key.subrange(16, 32), iv, ct) {
                    Some(m) => Ok(m),
                    None => Err(CryptoError::DecryptionFailed),
                }
            }
        },
        Platform::Ios => {
            if key.len() < 16 {
                Err(CryptoError::InvalidDerivedKeyLength)
            } else if iv.len() < 12 {
                Err(CryptoError::InvalidIv)
            } else if tag.len() != 16 {
                Err(CryptoError::TagMismatch)
            } else {
                let k = key.subrange(0, 16);
                let n = iv.subrange(0, 12);
                if ct.len() <= gcm_max_len() + 16 && aad.len() <= gcm_max_len() && tag == gcm_tag(
                    k,
                    n,
                    aad,
                    ct,
                ) {
                    Ok(gcm_keystream(k, n, ct))
                } else {
                    Err(CryptoError::TagMismatch)
                }
            }
        },
    }
}

/// Opening a token under a known dialect.
pub open spec fn opened_as(t: Seq<char>, p: Platform, key: Seq<u8>) -> Result<Seq<u8>, CryptoError> {
    match compact_parts(t) {
        None => Err(CryptoError::InvalidJweStructure),
        Some(q) => match (base64url_bytes(q.2), base64url_bytes(q.3), base64url_bytes(q.4)) {
            (Some(iv), Some(ct), Some(tag)) => opened_parts(p, encode_utf8(q.0), iv, ct, tag, key),
            _ => Err(CryptoError::InvalidEncoding),
        },
    }
}

/// The dialect a token's protected header names.
pub open spec fn jwe_platform_of(t: Seq<char>) -> Result<Platform, CryptoError> {
    match compact_parts(t) {
        None => Err(CryptoError::InvalidJweStructure),
        Some(q) => match base64url_bytes(q.0) {
            None => Err(CryptoError::InvalidEncoding),
            Some(hb) => match json_member(hb, "enc"@) {
                None => Err(CryptoError::InvalidHeader),
                Some(Some(Some(e))) => match platform_of_enc(e) {
                    Some(p) => Ok(p),
                    None => Err(CryptoError::UnsupportedAlgorithm),
                },
                _ => Err(CryptoError::UnsupportedAlgorithm),
            },
        },
    }
}

/// Decrypting a token: its header picks the dialect.
pub open spec fn decrypted(t: Seq<char>, key: Seq<u8>) -> Result<Seq<u8>, CryptoError> {
    match jwe_platform_of(t) {
        Ok(p) => opened_as(t, p, key),
        Err(e) => Err(e),
    }
}

/// A result carrying a text, seen as a sequence.
pub open spec fn text_result(r: Result<String, CryptoError>) -> Result<Seq<char>, CryptoError> {
    match r {
        Ok(s) => Ok(s@),
        Err(e) => Err(e),
    }
}

/// Whether a token opens under the key that sealed it: always for
/// CBC-HS256; for GCM only when both halves of the key agree.
pub open spec fn opens_under_sealing_key(p: Platform, key: Seq<u8>) -> bool {
    p == Platform::Android || key.subrange(0, 16) == key.subrange(16, 32)
}

/// When sealing is owed: a `kid` under a million characters, a 32-byte key,
/// and for GCM a plaintext the cipher takes.
pub open spec fn sealing_owed(pt: Seq<u8>, kid: Seq<char>, key: Seq<u8>, p: Platform) -> bool {
    &&& kid.len() < 0x10_0000
    &&& key.len() == 32
    &&& (p == Platform::Ios ==> pt.len() <= gcm_max_len())
}

/// UTF-8 takes at most four bytes a character.
pub proof fn lemma_utf8_len(s: Seq<char>)
    ensures
        encode_utf8(s).len() <= 4 * s.len(),
    decreases s.len(),
{
    if s.len() > 0 {
        lemma_utf8_len(s.drop_first());
    }
}

/// Whether sealing succeeds does not depend on the initialisation vector.
pub proof fn lemma_sealing_fails_alike(pt: Seq<u8>, kid: Seq<char>, key: Seq<u8>, p: Platform, iv1: Seq<u8>, iv2: Seq<u8>)
    ensures
        sealed(pt, kid, key, p, iv1) is Err <==> sealed(pt, kid, key, p, iv2) is Err,
{
}

/// Compares two byte strings in time that depends on their length only.
pub fn constant_time_eq(a: &[u8], b: &[u8]) -> (r: bool)
    ensures
        r == (a@ == b@),
{
    if a.len() != b.len() {
        return false;
    }
    let mut acc: u8 = 0;
    let mut i: usize = 0;
    assert(a@.subrange(0, 0) =~= b@.subrange(0, 0));
    while i < a.len()
        invariant
            i <= a@.len(),
            a@.len() == b@.len(),
            (acc == 0) == (a@.subrange(0, i as int) == b@.subrange(0, i as int)),
        decreases a@.len() - i,
    {
        let x: u8 = a[i] ^ b[i];
        let y: u8 = a[i];
        let z: u8 = b[i];
        assert((x == 0) == (y == z)) by (bit_vector)
            requires
                x == y ^ z,
        ;
        assert(((acc | x) == 0) == (acc == 0 && x == 0)) by (bit_vector);
        proof {
            let sa = a@.subrange(0, i + 1);
            let sb = b@.subrange(0, i + 1);
            assert(sa.drop_last() =~= a@.subrange(0, i as int));
            assert(sb.drop_last() =~= b@.subrange(0, i as int));
            if sa == sb {
                assert(sa.drop_last() == sb.drop_last());
                assert(sa.last() == sb.last());
            }
            if a@.subrange(0, i as int) == b@.subrange(0, i as int) && y == z {
                assert(sa =~= sb);
            }
        }
        acc = acc | x;
        i = i + 1;
    }
    assert(a@.subrange(0, a@.len() as int) =~= a@);
    assert(b@.subrange(0, b@.len() as int) =~= b@);
    acc == 0
}

/// The protected header for a dialect and `kid`.
pub fn jwe_header_text(p: Platform, kid: &str) -> (r: String)
    ensures
        r@ == header_text(p, kid@),
        r@.len() <= 6 * kid@.len() + 44,
{
    let quoted = crate::codec::quote(kid);
    proof {
        reveal_strlit("{\"alg\":\"dir\",\"enc\":\"");
        reveal_strlit("A128CBC-HS256");
        reveal_strlit("A128GCM");
        reveal_strlit("\",\"kid\":");
        reveal_strlit("}");
    }
    let mut h = "{\"alg\":\"dir\",\"enc\":\"".to_string();
    match p {
        Platform::Android => h.append("A128CBC-HS256"),
        Platform::Ios => h.append("A128GCM"),
    }
    h.append("\",\"kid\":");
    h.append(quoted.as_str());
    h.append("}");
    h
}

/// The CBC-HS256 tag over the associated data, IV and ciphertext.
pub fn hs256_tag_bytes(key: &[u8], aad: &[u8], iv: &[u8], ct: &[u8]) -> (r: Vec<u8>)
    requires
        key@.len() == 32,
        aad_len_fits(aad@),
    ensures
        r@ == hs256_tag(key@, aad@, iv@, ct@),
{
    let mut input: Vec<u8> = Vec::new();
    append_bytes(&mut input, aad);
    append_bytes(&mut input, iv);
    append_bytes(&mut input, ct);
    let bits: u64 = aad.len() as u64 * 8;
    append_be32(&mut input, (bits / 0x1_0000_0000) as u32);
    append_be32(&mut input, (bits % 0x1_0000_0000) as u32);
    assert(input@ =~= aad@ + iv@ + ct@ + be64((aad@.len() * 8) as u64));
    let mac_key = copy_range(key, 0, 16);
    let mac = match hmac_sha256(mac_key.as_slice(), input.as_slice()) {
        Some(m) => m,
        None => {
            proof {
                assert(false);
            }
            Vec::new()
        },
    };
    copy_range(mac.as_slice(), 0, 16)
}

/// Text of the empty string literal.
proof fn lemma_empty_literal()
    ensures
        ""@ == Seq::<char>::empty(),
{
    reveal_strlit("");
}

/// Base64url text never holds `.`.
proof fn lemma_base64url_no_dot(s: Seq<char>)
    requires
        forall|i: int| 0 <= i < s.len() ==> is_base64url_char(#[trigger] s[i]),
    ensures
        no_dot(s),
{
    assert forall|i: int| 0 <= i < s.len() implies s[i] != '.' by {
        assert(is_base64url_char(s[i]));
    }
}

/// Seals a plaintext into a compact JWE under the given dialect and
/// initialisation vector. A token opens back to its plaintext under the same
/// key (for GCM when the key halves agree), carries `kid` in its header, and
/// fails to open once its tag is changed.
pub fn seal_jwe(plaintext: &[u8], kid: &str, key: &[u8], platform: Platform, iv: &[u8]) -> (r: Result<String, CryptoError>)
    requires
        iv@.len() == iv_len(platform),
    ensures
        text_result(r) == sealed(plaintext@, kid@, key@, platform, iv@),
        r matches Ok(t) ==> compact_parts(t@) matches Some(q) && q.0 == header_part(platform, kid@),
        r matches Ok(t) ==> (opens_under_sealing_key(platform, key@) ==> opened_as(t@, platform, key@)
            == Ok::<Seq<u8>, CryptoError>(plaintext@)),
        r matches Ok(t) ==> opens_under_sealing_key(platform, key@) ==> forall|t2: Seq<char>|
            #![trigger compact_parts(t2)]
            compact_parts(t2) matches Some(q2) && compact_parts(t@) matches Some(q) && q2.0 == q.0
                && q2.2 == q.2 && q2.3 == q.3 && base64url_bytes(q2.4) != base64url_bytes(q.4)
                ==> opened_as(t2, platform, key@) is Err,
        sealing_owed(plaintext@, kid@, key@, platform) ==> r is Ok,
{
    let header = jwe_header_text(platform, kid);
    let h = base64url_encode(header.as_str().as_bytes());
    let aad = h.as_str().as_bytes();
    let iv_text = base64url_encode(iv);
    proof {
        lemma_empty_literal();
        lemma_base64url_no_dot(h@);
        lemma_base64url_no_dot(iv_text@);
        lemma_utf8_len(header@);
        lemma_utf8_len(h@);
        if kid@.len() < 0x10_0000 {
            assert(aad@.len() < 0x1_0000_0000);
        }
    }
    match platform {
        Platform::Android => {
            if key.len() != 32 {
                return Err(CryptoError::InvalidDerivedKeyLength);
            }
            if aad.len() as u64 >= 0x2000_0000_0000_0000u64 {
                return Err(CryptoError::PayloadTooLarge);
            }
            let aes_key = copy_range(key, 16, 32);
            let ct = match aes128_cbc_encrypt(aes_key.as_slice(), iv, plaintext) {
                Some(c) => c,
                None => {
                    proof {
                        assert(false);
                    }
                    Vec::new()
                },
            };
            let tag = hs256_tag_bytes(key, aad, iv, ct.as_slice());
            let ct_text = base64url_encode(ct.as_slice());
            let tag_text = base64url_encode(tag.as_slice());
            let t = join_compact(h.as_str(), "", iv_text.as_str(), ct_text.as_str(), tag_text.as_str());
            proof {
                lemma_base64url_no_dot(ct_text@);
                lemma_base64url_no_dot(tag_text@);
                let q = (h@, Seq::<char>::empty(), iv_text@, ct_text@, tag_text@);
                lemma_compact_parts_join(q);
                assert(t@ == join5(q));
                assert(compact_parts(t@) == Some(q));
                assert(encode_utf8(q.0) == aad@);
                assert(base64url_bytes(q.2) == Some(iv@));
                assert(base64url_bytes(q.3) == Some(ct@));
                assert(base64url_bytes(q.4) == Some(tag@));
                assert(aes_key@ == key@.subrange(16, 32));
                assert(opened_parts(Platform::Android, aad@, iv@, ct@, tag@, key@) == Ok::<Seq<u8>, CryptoError>(plaintext@));
            }
            Ok(t)
        },
        Platform::Ios => {
            if key.len() < 32 {
                return Err(CryptoError::InvalidDerivedKeyLength);
            }
            if plaintext.len() as u64 > 0x10_0000_0000u64 || aad.len() as u64 > 0x10_0000_0000u64 {
                return Err(CryptoError::PayloadTooLarge);
            }
            let aes_key = copy_range(key, 16, 32);
            let (ct, tag) = match aes128_gcm_seal(aes_key.as_slice(), iv, aad, plaintext) {
                Some(s) => s,
                None => {
                    proof {
                        assert(false);
                    }
                    (Vec::new(), Vec::new())
                },
            };
            let ct_text = base64url_encode(ct.as_slice());
            let tag_text = base64url_encode(tag.as_slice());
            let t = join_compact(h.as_str(), "", iv_text.as_str(), ct_text.as_str(), tag_text.as_str());
            proof {
                lemma_base64url_no_dot(ct_text@);
                lemma_base64url_no_dot(tag_text@);
                let q = (h@, Seq::<char>::empty(), iv_text@, ct_text@, tag_text@);
                lemma_compact_parts_join(q);
                assert(t@ == join5(q));
                assert(iv@.subrange(0, 12) =~= iv@);
                assert(compact_parts(t@) == Some(q));
                assert(encode_utf8(q.0) == aad@);
                assert(base64url_bytes(q.2) == Some(iv@));
                assert(base64url_bytes(q.3) == Some(ct@));
                assert(base64url_bytes(q.4) == Some(tag@));
                if opens_under_sealing_key(platform, key@) {
                    assert(key@.subrange(0, 16) == aes_key@);
                    assert(opened_parts(Platform::Ios, aad@, iv@, ct@, tag@, key@) == Ok::<Seq<u8>, CryptoError>(plaintext@));
                }
            }
            Ok(t)
        },
    }
}

/// Encrypts a challenge response for the SDK under the dialect of a platform
/// tag (`android` or `ios`), with a fresh random IV.
pub fn encrypt_challenge_response(response_data: &[u8], acs_trans_id: &str, derived_key: &[u8], platform: &str) -> (r: Result<String, CryptoError>)
    ensures
        platform_of_tag(platform@) is None ==> r == Err::<String, CryptoError>(CryptoError::UnsupportedPlatform),
        platform_of_tag(platform@) matches Some(p) ==> exists|iv: Seq<u8>|
            iv.len() == iv_len(p) && #[trigger] sealed(response_data@, acs_trans_id@, derived_key@, p, iv)
                == text_result(r),
        platform_of_tag(platform@) matches Some(p) ==> (r matches Ok(t) ==> (
        opens_under_sealing_key(p, derived_key@) ==> opened_as(t@, p, derived_key@) == Ok::<
            Seq<u8>,
            CryptoError,
        >(response_data@))),
        platform_of_tag(platform@) matches Some(p) ==> (sealing_owed(
            response_data@,
            acs_trans_id@,
            derived_key@,
            p,
        ) ==> r is Ok),
{
    let p = match Platform::from_tag(platform) {
        Some(p) => p,
        None => return Err(CryptoError::UnsupportedPlatform),
    };
    seal_with_fresh_iv(response_data, acs_trans_id, derived_key, p)
}

/// Encrypts a challenge response in the Android dialect (`A128CBC-HS256`).
pub fn encrypt_challenge_response_legacy(response_data: &[u8], acs_trans_id: &str, derived_key: &[u8]) -> (r: Result<String, CryptoError>)
    ensures
        exists|iv: Seq<u8>|
            iv.len() == iv_len(Platform::Android) && #[trigger] sealed(
                response_data@,
                acs_trans_id@,
                derived_key@,
                Platform::Android,
                iv,
            ) == text_result(r),
        sealing_owed(response_data@, acs_trans_id@, derived_key@, Platform::Android) ==> r is Ok,
{
    seal_with_fresh_iv(response_data, acs_trans_id, derived_key, Platform::Android)
}

/// Seals with a random IV of the dialect's length.
pub fn seal_with_fresh_iv(plaintext: &[u8], kid: &str, key: &[u8], platform: Platform) -> (r: Result<String, CryptoError>)
    ensures
        exists|iv: Seq<u8>|
            iv.len() == iv_len(platform) && #[trigger] sealed(plaintext@, kid@, key@, platform, iv)
                == text_result(r),
        r matches Ok(t) ==> (opens_under_sealing_key(platform, key@) ==> opened_as(t@, platform, key@)
            == Ok::<Seq<u8>, CryptoError>(plaintext@)),
        sealing_owed(plaintext@, kid@, key@, platform) ==> r is Ok,
{
    let iv = match platform {
        Platform::Android => random_bytes(16),
        Platform::Ios => random_bytes(12),
    };
    seal_jwe(plaintext, kid, key, platform, iv.as_slice())
}

/// Opens decoded JWE parts under a dialect: checks the tag (in constant time
/// for CBC-HS256) before it decrypts.
pub fn open_jwe_parts(platform: Platform, aad: &[u8], iv: &[u8], ct: &[u8], tag: &[u8], key: &[u8]) -> (r: Result<Vec<u8>, CryptoError>)
    ensures
        bytes_result(r) == opened_parts(platform, aad@, iv@, ct@, tag@, key@),
{
    match platform {
        Platform::Android => {
            if key.len() != 32 {
                return Err(CryptoError::InvalidDerivedKeyLength);
            }
            if aad.len() as u64 >= 0x2000_0000_0000_0000u64 {
                return Err(CryptoError::PayloadTooLarge);
            }
            let expected = hs256_tag_bytes(key, aad, iv, ct);
            if !constant_time_eq(expected.as_slice(), tag) {
                return Err(CryptoError::TagMismatch);
            }
            if iv.len() != 16 {
                return Err(CryptoError::InvalidIv);
            }
            let aes_key = copy_range(key, 16, 32);
            match aes128_cbc_decrypt(aes_key.as_slice(), iv, ct) {
                Some(m) => Ok(m),
                None => Err(CryptoError::DecryptionFailed),
            }
        },
        Platform::Ios => {
            if key.len() < 16 {
                return Err(CryptoError::InvalidDerivedKeyLength);
            }
            if iv.len() < 12 {
                return Err(CryptoError::InvalidIv);
            }
            if tag.len() != 16 {
                return Err(CryptoError::TagMismatch);
            }
            let aes_key = copy_range(key, 0, 16);
            let nonce = copy_range(iv, 0, 12);
            match aes128_gcm_open(aes_key.as_slice(), nonce.as_slice(), aad, ct, tag) {
                Some(m) => Ok(m),
                None => Err(CryptoError::TagMismatch),
            }
        },
    }
}

/// Opens a compact JWE under a known dialect.
pub fn open_jwe(jwe: &str, platform: Platform, key: &[u8]) -> (r: Result<Vec<u8>, CryptoError>)
    ensures
        bytes_result(r) == opened_as(jwe@, platform, key@),
{
    let (h, _k, iv_text, ct_text, tag_text) = match split_compact(jwe) {
        Some(parts) => parts,
        None => return Err(CryptoError::InvalidJweStructure),
    };
    let iv = base64url_decode(iv_text.as_str());
    let ct = base64url_decode(ct_text.as_str());
    let tag = base64url_decode(tag_text.as_str());
    match (iv, ct, tag) {
        (Some(iv), Some(ct), Some(tag)) => open_jwe_parts(
            platform,
            h.as_str().as_bytes(),
            iv.as_slice(),
            ct.as_slice(),
            tag.as_slice(),
            key,
        ),
        _ => Err(CryptoError::InvalidEncoding),
    }
}

/// Reads which dialect a compact JWE's protected header names in `enc`.
pub fn jwe_platform(jwe: &str) -> (r: Result<Platform, CryptoError>)
    ensures
        r == jwe_platform_of(jwe@),
{
    let (h, _k, _iv, _ct, _tag) = match split_compact(jwe) {
        Some(parts) => parts,
        None => return Err(CryptoError::InvalidJweStructure),
    };
    let header = match base64url_decode(h.as_str()) {
        Some(b) => b,
        None => return Err(CryptoError::InvalidEncoding),
    };
    match json_lookup(header.as_slice(), "enc") {
        None => Err(CryptoError::InvalidHeader),
        Some(Some(Some(e))) => {
            if crate::codec::same_text(e.as_str(), "A128CBC-HS256") {
                Ok(Platform::Android)
            } else if crate::codec::same_text(e.as_str(), "A128GCM") {
                Ok(Platform::Ios)
            } else {
                Err(CryptoError::UnsupportedAlgorithm)
            }
        },
        _ => Err(CryptoError::UnsupportedAlgorithm),
    }
}

/// Decrypts a challenge request from the SDK: the header's `enc` picks the
/// dialect (`A128CBC-HS256` or `A128GCM`), and the plaintext is returned.
pub fn decrypt_challenge_request(jwe_string: &str, derived_key_buffer: &[u8]) -> (r: Result<Vec<u8>, CryptoError>)
    ensures
        bytes_result(r) == decrypted(jwe_string@, derived_key_buffer@),
{
    let p = jwe_platform(jwe_string)?;
    open_jwe(jwe_string, p, derived_key_buffer)
}

} // verus!
