use acs_mock::crypto::generate_ephemeral_key_pair;
use acs_mock::signing::{load_private_key, pem_body, signed_content_claims, SigningError};

#[test]
fn pem_body_strips_armour_lines() {
    let pem = "-----BEGIN CERTIFICATE-----\nMIIB\r\nAbCd\n-----END CERTIFICATE-----\n";
    assert_eq!(pem_body(pem), "MIIBAbCd");
    assert_eq!(pem_body("abc"), "abc");
    assert_eq!(pem_body(""), "");
    assert_eq!(pem_body("x\r"), "x\r");
}

#[test]
fn claims_carry_the_transaction_and_key() {
    let keys = generate_ephemeral_key_pair().unwrap();
    let id: u128 = 0x2222_2222_2222_4222_8222_2222_2222_2222;
    let claims = signed_content_claims(id, "issuer1", "http://127.0.0.1:8080/challenge", &keys);
    let v: serde_json::Value = serde_json::from_str(&claims).unwrap();
    assert_eq!(v["acsTransID"], "22222222-2222-4222-8222-222222222222");
    assert_eq!(v["acsRefNumber"], "issuer1");
    assert_eq!(v["acsURL"], "http://127.0.0.1:8080/challenge");
    assert_eq!(v["acsEphemPubKey"]["kty"], "EC");
    assert_eq!(v["acsEphemPubKey"]["crv"], "P-256");
    assert_eq!(v["acsEphemPubKey"]["x"], keys.public_key.x.as_str());
    assert_eq!(v["acsEphemPubKey"]["y"], keys.public_key.y.as_str());
}

#[test]
fn unreadable_key_is_refused() {
    assert_eq!(load_private_key(b"not a key").err(), Some(SigningError::InvalidKey));
}
