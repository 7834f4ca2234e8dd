use sha2::Digest;
use base64::Engine;
use acs_mock::crypto::{
    calculate_derived_key, derive_key_both_ways, generate_ephemeral_key_pair, CryptoError,
    EphemeralKeyPair, Platform,
};
use acs_mock::flow::create_acs_url;
use acs_mock::jwe::{
    decrypt_challenge_request, encrypt_challenge_response, jwe_platform, open_jwe, seal_jwe,
};

fn base64url_decode(s: &str) -> Option<Vec<u8>> {
    base64::engine::general_purpose::URL_SAFE_NO_PAD.decode(s).ok()
}

fn base64url_encode(b: &[u8]) -> String {
    base64::engine::general_purpose::URL_SAFE_NO_PAD.encode(b)
}

fn public_jwk(keys: &EphemeralKeyPair) -> String {
    format!(
        "{{\"kty\":\"{}\",\"crv\":\"{}\",\"x\":\"{}\",\"y\":\"{}\"}}",
        keys.public_key.kty, keys.public_key.crv, keys.public_key.x, keys.public_key.y
    )
}

fn challenge_response_json() -> String {
    "{\"messageType\":\"CRes\",\"messageVersion\":\"2.2.0\",\"acsTransID\":\"test-acs-trans-id\",\"challengeCompletionInd\":\"Y\",\"transStatus\":\"Y\"}".to_string()
}

fn parse(bytes: &[u8]) -> serde_json::Value {
    serde_json::from_slice(bytes).expect("JSON")
}

#[test]
fn test_generate_ephemeral_key_pair() {
    let result = generate_ephemeral_key_pair();
    assert!(result.is_ok());

    let keys = result.unwrap();
    assert_eq!(keys.public_key.kty, "EC");
    assert_eq!(keys.public_key.crv, "P-256");
    assert!(!keys.public_key.x.is_empty());
    assert!(!keys.public_key.y.is_empty());
    assert!(!keys.private_key.is_empty());
}

#[test]
fn generated_key_texts_are_43_characters() {
    let keys = generate_ephemeral_key_pair().unwrap();
    assert_eq!(keys.private_key.len(), 43);
    assert_eq!(keys.public_key.x.len(), 43);
    assert_eq!(keys.public_key.y.len(), 43);
}

#[test]
fn generated_pair_is_on_the_curve_with_a_scalar_in_range() {
    let keys = generate_ephemeral_key_pair().unwrap();
    let d = base64url_decode(&keys.private_key).unwrap();
    let x = base64url_decode(&keys.public_key.x).unwrap();
    let y = base64url_decode(&keys.public_key.y).unwrap();
    assert_eq!(d.len(), 32);
    assert_eq!(x.len(), 32);
    assert_eq!(y.len(), 32);
    assert!(p256::SecretKey::from_slice(&d).is_ok());
    let mut point = vec![4u8];
    point.extend_from_slice(&x);
    point.extend_from_slice(&y);
    assert!(p256::PublicKey::from_sec1_bytes(&point).is_ok());
}

#[test]
fn test_create_acs_url() {
    assert_eq!(
        create_acs_url("https://example.com"),
        "https://example.com/challenge"
    );
    assert_eq!(
        create_acs_url("https://example.com/"),
        "https://example.com/challenge"
    );
}

#[test]
fn test_a128cbc_hs256_round_trip() {
    let sdk_keys = generate_ephemeral_key_pair().expect("Failed to generate SDK keys");
    let acs_keys = generate_ephemeral_key_pair().expect("Failed to generate ACS keys");
    let derived_key_acs =
        calculate_derived_key(&public_jwk(&sdk_keys), &acs_keys.private_key, "android")
            .expect("Failed to derive key on ACS side");
    let test_data = challenge_response_json();
    let encrypted_jwe = encrypt_challenge_response(
        test_data.as_bytes(),
        "test-acs-trans-id",
        &derived_key_acs,
        "android",
    )
    .expect("Failed to encrypt data");
    let decrypted_data = decrypt_challenge_request(&encrypted_jwe, &derived_key_acs)
        .expect("Failed to decrypt data");
    assert_eq!(
        parse(test_data.as_bytes()),
        parse(&decrypted_data),
        "Round-trip encryption/decryption failed"
    );
}

#[test]
fn ios_round_trip_with_agreeing_key_halves() {
    let mut key = vec![7u8; 16];
    key.extend_from_slice(&[7u8; 16]);
    let data = challenge_response_json();
    let jwe = encrypt_challenge_response(data.as_bytes(), "test-acs-trans-id", &key, "ios").unwrap();
    assert_eq!(jwe_platform(&jwe), Ok(Platform::Ios));
    let back = decrypt_challenge_request(&jwe, &key).unwrap();
    assert_eq!(back, data.as_bytes());
}

#[test]
fn ios_sealing_and_opening_use_different_key_halves() {
    let key: Vec<u8> = (0u8..32).collect();
    let data = challenge_response_json();
    let jwe = encrypt_challenge_response(data.as_bytes(), "kid", &key, "ios").unwrap();
    assert_eq!(decrypt_challenge_request(&jwe, &key), Err(CryptoError::TagMismatch));
    let mut swapped = key[16..32].to_vec();
    swapped.extend_from_slice(&key[0..16]);
    assert_eq!(decrypt_challenge_request(&jwe, &swapped).unwrap(), data.as_bytes());
}

#[test]
fn test_ecdh_consistency() {
    let sdk_keys = generate_ephemeral_key_pair().expect("Failed to generate SDK keys");
    let acs_keys = generate_ephemeral_key_pair().expect("Failed to generate ACS keys");
    let derived_key_1 =
        calculate_derived_key(&public_jwk(&sdk_keys), &acs_keys.private_key, "android")
            .expect("Failed to derive key 1");
    let derived_key_2 =
        calculate_derived_key(&public_jwk(&acs_keys), &sdk_keys.private_key, "android")
            .expect("Failed to derive key 2");
    assert_eq!(
        derived_key_1, derived_key_2,
        "ECDH should produce same key from both perspectives"
    );
}

#[test]
fn ecdh_agreement_on_ios_and_both_ways() {
    let a = generate_ephemeral_key_pair().unwrap();
    let b = generate_ephemeral_key_pair().unwrap();
    assert_eq!(
        calculate_derived_key(&public_jwk(&a), &b.private_key, "iOS"),
        Err(CryptoError::UnsupportedPlatform)
    );
    assert_eq!(
        calculate_derived_key(&public_jwk(&a), &b.private_key, "Android"),
        Err(CryptoError::UnsupportedPlatform)
    );
    let k1 = calculate_derived_key(&public_jwk(&a), &b.private_key, "ios").unwrap();
    let k2 = calculate_derived_key(&public_jwk(&b), &a.private_key, "ios").unwrap();
    assert_eq!(k1, k2);
    assert_eq!(k1.len(), 32);
    let (x, y) = derive_key_both_ways(&a, &b, Platform::Ios).unwrap();
    assert_eq!(x, y);
    assert_eq!(x, k1);
    let android = calculate_derived_key(&public_jwk(&a), &b.private_key, "android").unwrap();
    assert_ne!(android, k1);
}

#[test]
fn derived_key_is_sha256_of_the_concat_kdf_input() {
    let a = generate_ephemeral_key_pair().unwrap();
    let b = generate_ephemeral_key_pair().unwrap();
    let k = calculate_derived_key(&public_jwk(&a), &b.private_key, "android").unwrap();
    let d = base64url_decode(&b.private_key).unwrap();
    let mut point = vec![4u8];
    point.extend_from_slice(&base64url_decode(&a.public_key.x).unwrap());
    point.extend_from_slice(&base64url_decode(&a.public_key.y).unwrap());
    let sk = p256::SecretKey::from_slice(&d).unwrap();
    let pk = p256::PublicKey::from_sec1_bytes(&point).unwrap();
    let z = p256::ecdh::diffie_hellman(sk.to_nonzero_scalar(), pk.as_affine());
    let mut input = vec![0u8, 0, 0, 1];
    input.extend_from_slice(z.raw_secret_bytes());
    input.extend_from_slice(&[0, 0, 0, 0, 0, 0, 0, 0, 0, 0, 0, 29]);
    input.extend_from_slice(b"3DS_LOA_SDK_JTPL_020200_00788");
    input.extend_from_slice(&[0, 0, 1, 0]);
    assert_eq!(k, sha2::Sha256::digest(&input).to_vec());
}

#[test]
fn derivation_rejects_bad_inputs() {
    let a = generate_ephemeral_key_pair().unwrap();
    let b = generate_ephemeral_key_pair().unwrap();
    assert_eq!(
        calculate_derived_key(&public_jwk(&a), &b.private_key, "windows"),
        Err(CryptoError::UnsupportedPlatform)
    );
    assert_eq!(
        calculate_derived_key("{\"x\":\"AAAA\"}", &b.private_key, "android"),
        Err(CryptoError::MalformedJwk)
    );
    assert_eq!(
        calculate_derived_key("not json", &b.private_key, "android"),
        Err(CryptoError::MalformedJwk)
    );
    let short = format!("{{\"x\":\"{}\",\"y\":\"{}\"}}", base64url_encode(&[1u8; 31]), a.public_key.y);
    assert_eq!(
        calculate_derived_key(&short, &b.private_key, "android"),
        Err(CryptoError::InvalidKeyLength)
    );
    let bad = format!("{{\"x\":\"{}\",\"y\":\"{}\"}}", "!!", a.public_key.y);
    assert_eq!(
        calculate_derived_key(&bad, &b.private_key, "android"),
        Err(CryptoError::InvalidEncoding)
    );
    let off_curve = format!(
        "{{\"x\":\"{}\",\"y\":\"{}\"}}",
        base64url_encode(&[1u8; 32]),
        base64url_encode(&[2u8; 32])
    );
    assert_eq!(
        calculate_derived_key(&off_curve, &b.private_key, "android"),
        Err(CryptoError::InvalidKey)
    );
    let zero = base64url_encode(&[0u8; 32]);
    assert_eq!(
        calculate_derived_key(&public_jwk(&a), &zero, "android"),
        Err(CryptoError::InvalidKey)
    );
}

fn flip_part_bit(jwe: &str, part: usize) -> String {
    let mut parts: Vec<String> = jwe.split('.').map(|p| p.to_string()).collect();
    let mut bytes = base64url_decode(&parts[part]).unwrap();
    bytes[0] ^= 1;
    parts[part] = base64url_encode(&bytes);
    parts.join(".")
}

#[test]
fn tampering_with_tag_ciphertext_or_iv_fails() {
    let key: Vec<u8> = (0u8..32).collect();
    let data = challenge_response_json();
    let jwe = encrypt_challenge_response(data.as_bytes(), "kid", &key, "android").unwrap();
    assert_eq!(decrypt_challenge_request(&jwe, &key).unwrap(), data.as_bytes());
    for part in [2usize, 3, 4] {
        assert_eq!(
            decrypt_challenge_request(&flip_part_bit(&jwe, part), &key),
            Err(CryptoError::TagMismatch)
        );
    }
    let same: Vec<u8> = [9u8; 16].iter().chain([9u8; 16].iter()).copied().collect();
    let ios = encrypt_challenge_response(data.as_bytes(), "kid", &same, "ios").unwrap();
    for part in [2usize, 3, 4] {
        assert_eq!(
            decrypt_challenge_request(&flip_part_bit(&ios, part), &same),
            Err(CryptoError::TagMismatch)
        );
    }
}

#[test]
fn header_carries_dialect_and_kid() {
    let key = vec![3u8; 32];
    let iv = vec![5u8; 16];
    let jwe = seal_jwe(b"{}", "abc-kid", &key, Platform::Android, &iv).unwrap();
    let parts: Vec<&str> = jwe.split('.').collect();
    assert_eq!(parts.len(), 5);
    assert_eq!(parts[1], "");
    let header = base64url_decode(parts[0]).unwrap();
    assert_eq!(
        String::from_utf8(header).unwrap(),
        "{\"alg\":\"dir\",\"enc\":\"A128CBC-HS256\",\"kid\":\"abc-kid\"}"
    );
    assert_eq!(parts[2], base64url_encode(&iv));
    assert_eq!(open_jwe(&jwe, Platform::Android, &key).unwrap(), b"{}".to_vec());
}

#[test]
fn malformed_tokens_are_rejected() {
    let key = vec![3u8; 32];
    assert_eq!(decrypt_challenge_request("a.b.c", &key), Err(CryptoError::InvalidJweStructure));
    let header = base64url_encode(b"{\"alg\":\"dir\",\"enc\":\"A256GCM\"}");
    let token = format!("{}..AAAA.AAAA.AAAA", header);
    assert_eq!(decrypt_challenge_request(&token, &key), Err(CryptoError::UnsupportedAlgorithm));
    let not_json = base64url_encode(b"nope");
    let token = format!("{}..AAAA.AAAA.AAAA", not_json);
    assert_eq!(decrypt_challenge_request(&token, &key), Err(CryptoError::InvalidHeader));
    assert_eq!(
        encrypt_challenge_response(b"{}", "kid", &key[0..31], "android"),
        Err(CryptoError::InvalidDerivedKeyLength)
    );
    assert_eq!(
        encrypt_challenge_response(b"{}", "kid", &key, "blackberry"),
        Err(CryptoError::UnsupportedPlatform)
    );
    assert_eq!(
        encrypt_challenge_response(b"{}", "kid", &key, "Android"),
        Err(CryptoError::UnsupportedPlatform)
    );
}

#[test]
fn ciphertexts_differ_from_plaintext_and_between_calls() {
    let key: Vec<u8> = (0u8..32).collect();
    let data = challenge_response_json();
    for platform in ["android", "ios"] {
        let a = encrypt_challenge_response(data.as_bytes(), "kid", &key, platform).unwrap();
        let b = encrypt_challenge_response(data.as_bytes(), "kid", &key, platform).unwrap();
        assert_ne!(a, b);
        let parts: Vec<&str> = a.split('.').collect();
        let iv = base64url_decode(parts[2]).unwrap();
        let ct = base64url_decode(parts[3]).unwrap();
        let tag = base64url_decode(parts[4]).unwrap();
        assert_ne!(ct, data.as_bytes());
        assert_eq!(tag.len(), 16);
        if platform == "android" {
            assert_eq!(iv.len(), 16);
            assert_eq!(ct.len() % 16, 0);
            assert!(ct.len() > data.len());
        } else {
            assert_eq!(iv.len(), 12);
            assert_eq!(ct.len(), data.len());
        }
    }
}
