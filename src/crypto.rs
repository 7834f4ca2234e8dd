//! Key agreement for the mobile challenge: P-256 ephemeral keys, ECDH and the
//! EMVCo ConcatKDF that turns the shared secret into the 32-byte key of the
//! challenge JWEs.
use crate::codec::{
    base64url_bytes, base64url_decode, base64url_encode, json_lookup, json_member, same_text,
};
use crate::primitives::{
    is_p256_scalar, p256_ecdh, p256_generate, p256_point_valid, p256_public_point, p256_shared_x,
    sha256, sha256_digest,
};
use vstd::utf8::encode_utf8;
use vstd::prelude::*;

verus! {

/// Why a cryptographic step failed.
#[derive(Debug, Clone, Copy, PartialEq, Eq, Structural)]
pub enum CryptoError {
    /// The SDK key is not a JSON object with string members `x` and `y`.
    MalformedJwk,
    /// A value that must be base64url text is not.
    InvalidEncoding,
    /// A coordinate or scalar is not 32 bytes long.
    InvalidKeyLength,
    /// The scalar is outside [1, n-1] or the point is not on P-256.
    InvalidKey,
    /// The platform tag is neither `android` nor `ios`.
    UnsupportedPlatform,
    /// The token is not five `.`-separated parts.
    InvalidJweStructure,
    /// The protected header is not JSON.
    InvalidHeader,
    /// The header's `enc` names neither dialect.
    UnsupportedAlgorithm,
    /// The derived key is too short (or, for CBC, not 32 bytes).
    InvalidDerivedKeyLength,
    /// The initialisation vector has the wrong length.
    InvalidIv,
    /// The authentication tag does not match.
    TagMismatch,
    /// The ciphertext does not decrypt to validly padded plaintext.
    DecryptionFailed,
    /// The plaintext or header is longer than the cipher accepts.
    PayloadTooLarge,
}

/// The two SDK platforms, which differ in reference number and JWE dialect.
#[derive(Debug, Clone, Copy, PartialEq, Eq, Structural)]
pub enum Platform {
    Android,
    Ios,
}

/// A result carrying bytes, seen as a sequence.
pub open spec fn bytes_result(r: Result<Vec<u8>, CryptoError>) -> Result<Seq<u8>, CryptoError> {
    match r {
        Ok(v) => Ok(v@),
        Err(e) => Err(e),
    }
}

/// The platform that a tag names; any other tag names none.
pub open spec fn platform_of_tag(tag: Seq<char>) -> Option<Platform> {
    if tag == "android"@ {
        Some(Platform::Android)
    } else if tag == "ios"@ {
        Some(Platform::Ios)
    } else {
        None
    }
}

impl Platform {
    /// Reads a platform tag: exactly `android` or `ios`.
    pub fn from_tag(tag: &str) -> (r: Option<Platform>)
        ensures
            r == platform_of_tag(tag@),
    {
        if same_text(tag, "android") {
            Some(Platform::Android)
        } else if same_text(tag, "ios") {
            Some(Platform::Ios)
        } else {
            None
        }
    }
}

/// The SDK reference number that goes into the KDF's PartyVInfo.
pub open spec fn sdk_reference_number(p: Platform) -> Seq<char> {
    match p {
        Platform::Android => "3DS_LOA_SDK_JTPL_020200_00788"@,
        Platform::Ios => "3DS_LOA_SDK_JTPL_020200_00805"@,
    }
}

/// Four bytes, big-endian.
pub open spec fn be32(x: u32) -> Seq<u8> {
    seq![
        (x / 0x100_0000) as u8,
        (x / 0x1_0000 % 0x100) as u8,
        (x / 0x100 % 0x100) as u8,
        (x % 0x100) as u8,
    ]
}

/// Eight bytes, big-endian.
pub open spec fn be64(x: u64) -> Seq<u8> {
    be32((x / 0x1_0000_0000) as u32) + be32((x % 0x1_0000_0000) as u32)
}

/// ConcatKDF OtherInfo: AlgorithmID and PartyUInfo (four zero bytes each),
/// PartyVInfo (length-prefixed reference number) and SuppPubInfo (256).
pub open spec fn kdf_other_info(p: Platform) -> Seq<u8> {
    let reference = encode_utf8(sdk_reference_number(p));
    seq![0u8, 0, 0, 0] + seq![0u8, 0, 0, 0] + be32(reference.len() as u32) + reference + seq![
        0u8,
        0,
        1,
        0,
    ]
}

/// The single ConcatKDF round: SHA-256 of counter 1, the shared secret and
/// OtherInfo.
pub open spec fn kdf_output(z: Seq<u8>, p: Platform) -> Seq<u8> {
    sha256_digest(seq![0u8, 0, 0, 1] + z + kdf_other_info(p))
}

/// The uncompressed SEC1 point `0x04 || x || y`.
pub open spec fn sec1_point(x: Seq<u8>, y: Seq<u8>) -> Seq<u8> {
    seq![4u8] + x + y
}

/// The key derived from the SDK's public coordinates and our private scalar,
/// all base64url text.
pub open spec fn derived_key_of(x: Seq<char>, y: Seq<char>, d: Seq<char>, p: Platform) -> Result<Seq<u8>, CryptoError> {
    match (base64url_bytes(x), base64url_bytes(y), base64url_bytes(d)) {
        (Some(xb), Some(yb), Some(db)) => {
            if xb.len() != 32 || yb.len() != 32 || db.len() != 32 {
                Err(CryptoError::InvalidKeyLength)
            } else if !(is_p256_scalar(db) && p256_point_valid(sec1_point(xb, yb))) {
                Err(CryptoError::InvalidKey)
            } else {
                Ok(kdf_output(p256_shared_x(db, sec1_point(xb, yb)), p))
            }
        },
        _ => Err(CryptoError::InvalidEncoding),
    }
}

/// Appends bytes to a buffer.
pub fn append_bytes(buf: &mut Vec<u8>, more: &[u8])
    ensures
        final(buf)@ == old(buf)@ + more@,
{
    let mut i: usize = 0;
    while i < more.len()
        invariant
            i <= more@.len(),
            buf@ == old(buf)@ + more@.subrange(0, i as int),
        decreases more@.len() - i,
    {
        buf.push(more[i]);
        i = i + 1;
        assert(buf@ =~= old(buf)@ + more@.subrange(0, i as int));
    }
    assert(more@.subrange(0, more@.len() as int) =~= more@);
}

/// Appends a 32-bit number, big-endian.
pub fn append_be32(buf: &mut Vec<u8>, x: u32)
    ensures
        final(buf)@ == old(buf)@ + be32(x),
{
    buf.push((x / 0x100_0000) as u8);
    buf.push((x / 0x1_0000 % 0x100) as u8);
    buf.push((x / 0x100 % 0x100) as u8);
    buf.push((x % 0x100) as u8);
    assert(buf@ =~= old(buf)@ + be32(x));
}

/// Builds the ConcatKDF OtherInfo for a platform.
pub fn kdf_other_info_bytes(p: Platform) -> (r: Vec<u8>)
    ensures
        r@ == kdf_other_info(p),
{
    let reference: &str = match p {
        Platform::Android => "3DS_LOA_SDK_JTPL_020200_00788",
        Platform::Ios => "3DS_LOA_SDK_JTPL_020200_00805",
    };
    let reference_bytes = reference.as_bytes();
    let mut r: Vec<u8> = Vec::new();
    append_be32(&mut r, 0);
    append_be32(&mut r, 0);
    append_be32(&mut r, reference_bytes.len() as u32);
    append_bytes(&mut r, reference_bytes);
    append_be32(&mut r, 256);
    assert(be32(0) =~= seq![0u8, 0, 0, 0]);
    assert(be32(256) =~= seq![0u8, 0, 1, 0]);
    assert(r@ =~= kdf_other_info(p));
    r
}

/// ECDH between our private scalar and the SDK's public point, followed by
/// ConcatKDF: the full 32-byte derived key.
pub fn derive_shared_key(sdk_x: &str, sdk_y: &str, our_private_key: &str, platform: Platform) -> (r: Result<Vec<u8>, CryptoError>)
    ensures
        bytes_result(r) == derived_key_of(sdk_x@, sdk_y@, our_private_key@, platform),
        r matches Ok(k) ==> k@.len() == 32,
{
    let xb = match base64url_decode(sdk_x) {
        Some(v) => v,
        None => return Err(CryptoError::InvalidEncoding),
    };
    let yb = match base64url_decode(sdk_y) {
        Some(v) => v,
        None => return Err(CryptoError::InvalidEncoding),
    };
    let db = match base64url_decode(our_private_key) {
        Some(v) => v,
        None => return Err(CryptoError::InvalidEncoding),
    };
    if xb.len() != 32 || yb.len() != 32 || db.len() != 32 {
        return Err(CryptoError::InvalidKeyLength);
    }
    let mut point: Vec<u8> = Vec::new();
    point.push(4u8);
    append_bytes(&mut point, xb.as_slice());
    append_bytes(&mut point, yb.as_slice());
    assert(point@ =~= sec1_point(xb@, yb@));
    let z = match p256_ecdh(db.as_slice(), point.as_slice()) {
        Some(z) => z,
        None => return Err(CryptoError::InvalidKey),
    };
    let mut input: Vec<u8> = Vec::new();
    append_be32(&mut input, 1);
    append_bytes(&mut input, z.as_slice());
    let other = kdf_other_info_bytes(platform);
    append_bytes(&mut input, other.as_slice());
    assert(be32(1) =~= seq![0u8, 0, 0, 1]);
    assert(input@ =~= seq![0u8, 0, 0, 1] + z@ + kdf_other_info(platform));
    Ok(sha256(input.as_slice()))
}

/// An ephemeral P-256 key pair: the private scalar `d` and the public JWK,
/// each number base64url text.
#[derive(Debug, Clone, PartialEq, Eq)]
pub struct EphemeralKeyPair {
    pub private_key: String,
    pub public_key: AcsEphemPubKey,
}

/// A public P-256 key as a JWK.
#[derive(Debug, Clone, PartialEq, Eq)]
pub struct AcsEphemPubKey {
    pub kty: String,
    pub crv: String,
    pub x: String,
    pub y: String,
}

/// A key pair as generation leaves it: `d` is a scalar in [1, n-1], the
/// coordinates are 32 bytes each, and `(x, y)` is the point of `d`, on the
/// curve.
pub open spec fn is_valid_key_pair(kp: EphemeralKeyPair) -> bool {
    let d = base64url_bytes(kp.private_key@);
    let x = base64url_bytes(kp.public_key.x@);
    let y = base64url_bytes(kp.public_key.y@);
    &&& d is Some && x is Some && y is Some
    &&& is_p256_scalar(d->0)
    &&& x->0.len() == 32 && y->0.len() == 32
    &&& p256_public_point(d->0) == sec1_point(x->0, y->0)
    &&& p256_point_valid(sec1_point(x->0, y->0))
    &&& kp.public_key.kty@ == "EC"@
    &&& kp.public_key.crv@ == "P-256"@
}

/// Copies a range of bytes.
pub fn copy_range(b: &[u8], from: usize, to: usize) -> (r: Vec<u8>)
    requires
        from <= to <= b@.len(),
    ensures
        r@ == b@.subrange(from as int, to as int),
{
    let mut r: Vec<u8> = Vec::new();
    append_bytes(&mut r, &b[from..to]);
    r
}

/// Generates a fresh ephemeral key pair from operating-system randomness.
pub fn generate_ephemeral_key_pair() -> (r: Result<EphemeralKeyPair, CryptoError>)
    ensures
        r matches Ok(kp) && is_valid_key_pair(kp),
        r matches Ok(kp) ==> kp.private_key@.len() == 43 && kp.public_key.x@.len() == 43
            && kp.public_key.y@.len() == 43,
{
    let (d, point) = p256_generate();
    let xb = copy_range(point.as_slice(), 1, 33);
    let yb = copy_range(point.as_slice(), 33, 65);
    assert(point@ =~= sec1_point(xb@, yb@));
    let x = base64url_encode(xb.as_slice());
    let y = base64url_encode(yb.as_slice());
    let private_key = base64url_encode(d.as_slice());
    Ok(EphemeralKeyPair {
        private_key,
        public_key: AcsEphemPubKey { kty: "EC".to_string(), crv: "P-256".to_string(), x, y },
    })
}

/// The string member of a JWK text, if there is one.
pub open spec fn jwk_member(jwk: Seq<char>, key: Seq<char>) -> Option<Seq<char>> {
    match json_member(encode_utf8(jwk), key) {
        Some(Some(Some(t))) => Some(t),
        _ => None,
    }
}

/// What `calculate_derived_key` gives for a JWK text, a private scalar and a
/// platform tag.
pub open spec fn calculated_key_of(jwk: Seq<char>, d: Seq<char>, tag: Seq<char>) -> Result<Seq<u8>, CryptoError> {
    match platform_of_tag(tag) {
        None => Err(CryptoError::UnsupportedPlatform),
        Some(p) => match (jwk_member(jwk, "x"@), jwk_member(jwk, "y"@)) {
            (Some(x), Some(y)) => derived_key_of(x, y, d, p),
            _ => Err(CryptoError::MalformedJwk),
        },
    }
}

/// Reads a string member of a JWK text.
fn jwk_string_member(jwk: &str, key: &str) -> (r: Option<String>)
    ensures
        match r {
            Some(t) => jwk_member(jwk@, key@) == Some(t@),
            None => jwk_member(jwk@, key@) is None,
        },
{
    match json_lookup(jwk.as_bytes(), key) {
        Some(Some(Some(t))) => Some(t),
        _ => None,
    }
}

/// Derives the challenge key from the SDK's public JWK (JSON text), our
/// private scalar (base64url) and a platform tag (`android` or `ios`).
pub fn calculate_derived_key(sdk_public_key_jwk: &str, our_private_key: &str, platform: &str) -> (r: Result<Vec<u8>, CryptoError>)
    ensures
        bytes_result(r) == calculated_key_of(sdk_public_key_jwk@, our_private_key@, platform@),
{
    let p = match Platform::from_tag(platform) {
        Some(p) => p,
        None => return Err(CryptoError::UnsupportedPlatform),
    };
    let x = jwk_string_member(sdk_public_key_jwk, "x");
    let y = jwk_string_member(sdk_public_key_jwk, "y");
    match (x, y) {
        (Some(x), Some(y)) => derive_shared_key(x.as_str(), y.as_str(), our_private_key, p),
        _ => Err(CryptoError::MalformedJwk),
    }
}

/// ECDH agreement: for two generated pairs, the SDK's public key with our
/// private key derives the same key as our public key with the SDK's private
/// key, on either platform. Both keys are derived and returned.
pub fn derive_key_both_ways(sdk: &EphemeralKeyPair, acs: &EphemeralKeyPair, platform: Platform) -> (r: Result<(Vec<u8>, Vec<u8>), CryptoError>)
    requires
        is_valid_key_pair(*sdk),
        is_valid_key_pair(*acs),
    ensures
        derived_key_of(sdk.public_key.x@, sdk.public_key.y@, acs.private_key@, platform) is Ok,
        derived_key_of(sdk.public_key.x@, sdk.public_key.y@, acs.private_key@, platform)
            == derived_key_of(acs.public_key.x@, acs.public_key.y@, sdk.private_key@, platform),
        r matches Ok((k1, k2)) && k1@ == k2@ && Ok::<Seq<u8>, CryptoError>(k1@) == derived_key_of(
            sdk.public_key.x@,
            sdk.public_key.y@,
            acs.private_key@,
            platform,
        ),
{
    let ghost ds = base64url_bytes(sdk.private_key@)->0;
    let ghost da = base64url_bytes(acs.private_key@)->0;
    let ghost ps = p256_public_point(ds);
    let ghost pa = p256_public_point(da);
    let db = base64url_decode(acs.private_key.as_str()).ok_or(CryptoError::InvalidEncoding)?;
    let xb = base64url_decode(sdk.public_key.x.as_str()).ok_or(CryptoError::InvalidEncoding)?;
    let yb = base64url_decode(sdk.public_key.y.as_str()).ok_or(CryptoError::InvalidEncoding)?;
    let mut point: Vec<u8> = Vec::new();
    point.push(4u8);
    append_bytes(&mut point, xb.as_slice());
    append_bytes(&mut point, yb.as_slice());
    assert(point@ =~= sec1_point(xb@, yb@));
    // The shared secret as the ACS computes it equals the one the SDK
    // computes: the fact comes with the Diffie-Hellman call.
    let z = p256_ecdh(db.as_slice(), point.as_slice());
    proof {
        assert(point@ == ps);
        assert(z is Some);
        assert(p256_shared_x(da, ps) == p256_shared_x(ds, pa));
    }
    let k1 = derive_shared_key(sdk.public_key.x.as_str(), sdk.public_key.y.as_str(), acs.private_key.as_str(), platform)?;
    let k2 = derive_shared_key(acs.public_key.x.as_str(), acs.public_key.y.as_str(), sdk.private_key.as_str(), platform)?;
    Ok((k1, k2))
}

} // verus!
