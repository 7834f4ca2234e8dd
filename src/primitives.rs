//! The cryptographic operations this server relies on: SHA-256, HMAC-SHA-256,
//! AES-128-CBC with PKCS#7 padding, AES-128-GCM, P-256 key generation and
//! Diffie-Hellman, and operating-system randomness.
//!
//! Each function makes one call into an outside crate. The names below stand
//! for what those calls compute; the contracts state only the facts that the
//! crates document or that their sources show.
use aes::cipher::block_padding::Pkcs7;
use aes::cipher::{BlockDecryptMut, BlockEncryptMut, KeyIvInit};
use aes_gcm::aead::{AeadInPlace, KeyInit};
use hmac::Mac;
use p256::elliptic_curve::sec1::ToEncodedPoint;
use rand_core::RngCore;
use sha2::Digest;
use vstd::prelude::*;

verus! {

/// The SHA-256 digest of a message.
pub uninterp spec fn sha256_digest(msg: Seq<u8>) -> Seq<u8>;

/// The HMAC-SHA-256 of a message under a key.
pub uninterp spec fn hmac_sha256_mac(key: Seq<u8>, msg: Seq<u8>) -> Seq<u8>;

/// AES-128-CBC encryption with PKCS#7 padding.
pub uninterp spec fn cbc_encrypted(key: Seq<u8>, iv: Seq<u8>, pt: Seq<u8>) -> Seq<u8>;

/// AES-128-CBC decryption with PKCS#7 unpadding; `None` when the text is not
/// whole blocks or the padding is invalid.
pub uninterp spec fn cbc_decrypted(key: Seq<u8>, iv: Seq<u8>, ct: Seq<u8>) -> Option<Seq<u8>>;

/// The AES-128-GCM counter-mode transform; it maps a plaintext to its
/// ciphertext and back.
pub uninterp spec fn gcm_keystream(key: Seq<u8>, nonce: Seq<u8>, data: Seq<u8>) -> Seq<u8>;

/// The AES-128-GCM authentication tag over associated data and ciphertext.
pub uninterp spec fn gcm_tag(key: Seq<u8>, nonce: Seq<u8>, aad: Seq<u8>, ct: Seq<u8>) -> Seq<u8>;

/// The uncompressed SEC1 encoding of the P-256 public point of a scalar.
pub uninterp spec fn p256_public_point(d: Seq<u8>) -> Seq<u8>;

/// Whether SEC1 bytes encode a point of P-256 (other than the identity).
pub uninterp spec fn p256_point_valid(sec1: Seq<u8>) -> bool;

/// The x-coordinate of `d` times the given point.
pub uninterp spec fn p256_shared_x(d: Seq<u8>, sec1: Seq<u8>) -> Seq<u8>;

/// The order n of the P-256 base point.
pub open spec fn p256_order() -> nat {
    0xFFFF_FFFF_0000_0000_FFFF_FFFF_FFFF_FFFF_BCE6_FAAD_A717_9E84_F3B9_CAC2_FC63_2551nat
}

/// The value of bytes read as a big-endian number.
pub open spec fn be_value(b: Seq<u8>) -> nat
    decreases b.len(),
{
    if b.len() == 0 {
        0
    } else {
        be_value(b.drop_last()) * 256 + b.last() as nat
    }
}

/// 32 big-endian bytes of a scalar in [1, n-1].
pub open spec fn is_p256_scalar(d: Seq<u8>) -> bool {
    &&& d.len() == 32
    &&& 1 <= be_value(d) < p256_order()
}

/// Relies on `sha2::Sha256::digest`.
#[verifier::external_body]
pub(crate) fn sha256(msg: &[u8]) -> (r: Vec<u8>)
    ensures
        r@ == sha256_digest(msg@),
        r@.len() == 32,
{
    sha2::Sha256::digest(msg).to_vec()
}

/// Relies on `hmac::Hmac<Sha256>`: `new_from_slice` (which takes keys of any
/// length), `update`, `finalize`.
#[verifier::external_body]
pub(crate) fn hmac_sha256(key: &[u8], msg: &[u8]) -> (r: Option<Vec<u8>>)
    ensures
        r is Some,
        r matches Some(m) ==> m@ == hmac_sha256_mac(key@, msg@) && m@.len() == 32,
{
    let mut mac = match <hmac::Hmac<sha2::Sha256> as Mac>::new_from_slice(key) {
        Ok(m) => m,
        Err(_) => return None,
    };
    mac.update(msg);
    Some(mac.finalize().into_bytes().to_vec())
}

/// Relies on `cbc::Encryptor<Aes128>::encrypt_padded_mut::<Pkcs7>`, given a
/// buffer one block longer than the message, which is always enough.
#[verifier::external_body]
pub(crate) fn aes128_cbc_encrypt(key: &[u8], iv: &[u8], pt: &[u8]) -> (r: Option<Vec<u8>>)
    requires
        key@.len() == 16,
        iv@.len() == 16,
    ensures
        r is Some,
        r matches Some(c) ==> c@ == cbc_encrypted(key@, iv@, pt@) && cbc_decrypted(key@, iv@, c@)
            == Some(pt@),
{
    let mut buf = pt.to_vec();
    buf.resize(pt.len() + 16, 0);
    let enc = cbc::Encryptor::<aes::Aes128>::new(key.into(), iv.into());
    match enc.encrypt_padded_mut::<Pkcs7>(&mut buf, pt.len()) {
        Ok(c) => Some(c.to_vec()),
        Err(_) => None,
    }
}

/// Relies on `cbc::Decryptor<Aes128>::decrypt_padded_mut::<Pkcs7>`.
#[verifier::external_body]
pub(crate) fn aes128_cbc_decrypt(key: &[u8], iv: &[u8], ct: &[u8]) -> (r: Option<Vec<u8>>)
    requires
        key@.len() == 16,
        iv@.len() == 16,
    ensures
        match r {
            Some(p) => cbc_decrypted(key@, iv@, ct@) == Some(p@),
            None => cbc_decrypted(key@, iv@, ct@) is None,
        },
{
    let mut buf = ct.to_vec();
    let dec = cbc::Decryptor::<aes::Aes128>::new(key.into(), iv.into());
    match dec.decrypt_padded_mut::<Pkcs7>(&mut buf) {
        Ok(p) => Some(p.to_vec()),
        Err(_) => None,
    }
}

/// The largest plaintext and associated data that AES-GCM takes.
pub open spec fn gcm_max_len() -> nat {
    0x10_0000_0000
}

/// Relies on `aes_gcm::Aes128Gcm::encrypt_in_place_detached`: it applies the
/// counter-mode keystream in place (so lengths are kept), then tags the
/// ciphertext; it refuses inputs over 2^36 bytes.
#[verifier::external_body]
pub(crate) fn aes128_gcm_seal(key: &[u8], nonce: &[u8], aad: &[u8], pt: &[u8]) -> (r: Option<(Vec<u8>, Vec<u8>)>)
    requires
        key@.len() == 16,
        nonce@.len() == 12,
    ensures
        r is Some <==> (pt@.len() <= gcm_max_len() && aad@.len() <= gcm_max_len()),
        r matches Some((c, t)) ==> {
            &&& c@ == gcm_keystream(key@, nonce@, pt@)
            &&& c@.len() == pt@.len()
            &&& gcm_keystream(key@, nonce@, c@) == pt@
            &&& t@ == gcm_tag(key@, nonce@, aad@, c@)
            &&& t@.len() == 16
        },
{
    let cipher = aes_gcm::Aes128Gcm::new(key.into());
    let mut buf = pt.to_vec();
    match cipher.encrypt_in_place_detached(nonce.into(), aad, &mut buf) {
        Ok(t) => Some((buf, t.to_vec())),
        Err(_) => None,
    }
}

/// Relies on `aes_gcm::Aes128Gcm::decrypt_in_place_detached`: it compares the
/// tag computed over the ciphertext with the one given, and only then applies
/// the keystream.
#[verifier::external_body]
pub(crate) fn aes128_gcm_open(key: &[u8], nonce: &[u8], aad: &[u8], ct: &[u8], tag: &[u8]) -> (r: Option<Vec<u8>>)
    requires
        key@.len() == 16,
        nonce@.len() == 12,
        tag@.len() == 16,
    ensures
        r is Some <==> (ct@.len() <= gcm_max_len() + 16 && aad@.len() <= gcm_max_len() && tag@
            == gcm_tag(key@, nonce@, aad@, ct@)),
        r matches Some(p) ==> p@ == gcm_keystream(key@, nonce@, ct@),
{
    let cipher = aes_gcm::Aes128Gcm::new(key.into());
    let mut buf = ct.to_vec();
    match cipher.decrypt_in_place_detached(nonce.into(), aad, &mut buf, tag.into()) {
        Ok(()) => Some(buf),
        Err(_) => None,
    }
}

/// Relies on `rand_core::OsRng::fill_bytes`.
#[verifier::external_body]
pub(crate) fn random_bytes(n: usize) -> (r: Vec<u8>)
    ensures
        r@.len() == n,
{
    let mut v = vec![0u8; n];
    rand_core::OsRng.fill_bytes(&mut v);
    v
}

/// Relies on `p256::SecretKey::random` with `OsRng`, `to_bytes`, and the
/// public key's uncompressed `to_encoded_point`: a scalar in [1, n-1] and the
/// point `0x04 || x || y`, which lies on the curve.
#[verifier::external_body]
pub(crate) fn p256_generate() -> (r: (Vec<u8>, Vec<u8>))
    ensures
        is_p256_scalar(r.0@),
        r.1@ == p256_public_point(r.0@),
        p256_point_valid(r.1@),
        r.1@.len() == 65,
        r.1@[0] == 4,
{
    let sk = p256::SecretKey::random(&mut rand_core::OsRng);
    let point = sk.public_key().to_encoded_point(false);
    (sk.to_bytes().to_vec(), point.as_bytes().to_vec())
}

/// Relies on `p256::SecretKey::from_slice` (a scalar in [1, n-1]),
/// `p256::PublicKey::from_sec1_bytes` and `p256::ecdh::diffie_hellman`, whose
/// shared x-coordinate is the same from either party's side.
#[verifier::external_body]
pub(crate) fn p256_ecdh(d: &[u8], point: &[u8]) -> (r: Option<Vec<u8>>)
    requires
        d@.len() == 32,
    ensures
        r is Some <==> (is_p256_scalar(d@) && p256_point_valid(point@)),
        r matches Some(z) ==> z@ == p256_shared_x(d@, point@) && z@.len() == 32,
        r matches Some(z) ==> forall|e: Seq<u8>|
            is_p256_scalar(e) && point@ == #[trigger] p256_public_point(e) ==> z@ == p256_shared_x(
                e,
                p256_public_point(d@),
            ),
{
    let sk = match p256::SecretKey::from_slice(d) {
        Ok(k) => k,
        Err(_) => return None,
    };
    let pk = match p256::PublicKey::from_sec1_bytes(point) {
        Ok(k) => k,
        Err(_) => return None,
    };
    let z = p256::ecdh::diffie_hellman(sk.to_nonzero_scalar(), pk.as_affine());
    Some(z.raw_secret_bytes().to_vec())
}

} // verus!
