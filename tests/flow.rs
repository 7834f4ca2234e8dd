use acs_mock::browser::{choose_redirect_url, error_redirect, trigger_page, verify_otp};
use acs_mock::challenge::{http_status, read_challenge_header, respond_to_challenge, ChallengeError};
use base64::Engine;
use acs_mock::crypto::{calculate_derived_key, generate_ephemeral_key_pair, EphemeralKeyPair, Platform};
use acs_mock::flow::{
    authenticate_response, card_range_for, challenge_outcome, decide_authentication,
    final_response_for, generate_authentic_auth_value, generate_failed_auth_value,
    prepare_transaction, record_results, version_response, FlowError,
};
use acs_mock::jwe::{decrypt_challenge_request, open_jwe, seal_jwe};
use acs_mock::models::{
    Acquirer, AuthenticateRequest, BrowserInformation, Cardholder, CardholderAccount,
    DeviceRenderOptions, Merchant, Phone, Purchase, SdkEphemeralPublicKey, ThreeDSRequestor,
    ThreeDSRequestorAuthenticationInfo,
};
use acs_mock::store::MemoryStore;

fn base64url_encode(b: &[u8]) -> String {
    base64::engine::general_purpose::URL_SAFE_NO_PAD.encode(b)
}

fn uuid_to_text(u: u128) -> String {
    uuid::Uuid::from_u128(u).to_string()
}

const SERVER_ID: u128 = 0x1111_1111_1111_4111_8111_1111_1111_1111;
const ACS_ID: u128 = 0x2222_2222_2222_4222_8222_2222_2222_2222;
const DS_ID: u128 = 0x3333_3333_3333_4333_8333_3333_3333_3333;
const SDK_ID: u128 = 0x4444_4444_4444_4444_8444_4444_4444_4444;
const BASE: &str = "http://127.0.0.1:8080";
const MERCHANT_URL: &str = "https://merchant.example/return";

fn phone() -> Phone {
    Phone { cc: "91".to_string(), subscriber: "9999999999".to_string() }
}

fn areq(device_channel: &str, acct_number: &str, challenge_ind: &str) -> AuthenticateRequest {
    AuthenticateRequest {
        three_ds_server_trans_id: SERVER_ID,
        sdk_trans_id: None,
        device_channel: device_channel.to_string(),
        message_category: "01".to_string(),
        preferred_protocol_version: "2.2.0".to_string(),
        enforce_preferred_protocol_version: false,
        three_ds_comp_ind: "Y".to_string(),
        three_ds_requestor: ThreeDSRequestor {
            three_ds_requestor_authentication_ind: "01".to_string(),
            three_ds_requestor_authentication_info: ThreeDSRequestorAuthenticationInfo {
                three_ds_req_auth_method: "01".to_string(),
                three_ds_req_auth_timestamp: "202401010000".to_string(),
            },
            three_ds_requestor_challenge_ind: challenge_ind.to_string(),
        },
        cardholder_account: CardholderAccount {
            acct_type: "02".to_string(),
            card_expiry_date: "2812".to_string(),
            scheme_id: "Visa".to_string(),
            acct_number: acct_number.to_string(),
            card_security_code: "123".to_string(),
        },
        cardholder: Cardholder {
            addr_match: "N".to_string(),
            bill_addr_city: "City".to_string(),
            bill_addr_country: "356".to_string(),
            bill_addr_line1: "Line 1".to_string(),
            bill_addr_line2: "Line 2".to_string(),
            bill_addr_line3: "Line 3".to_string(),
            bill_addr_post_code: "560001".to_string(),
            email: "someone@example.com".to_string(),
            home_phone: phone(),
            mobile_phone: phone(),
            work_phone: phone(),
            cardholder_name: "Card Holder".to_string(),
            ship_addr_city: "City".to_string(),
            ship_addr_country: "356".to_string(),
            ship_addr_line1: "Line 1".to_string(),
            ship_addr_line2: "Line 2".to_string(),
            ship_addr_line3: "Line 3".to_string(),
            ship_addr_post_code: "560001".to_string(),
        },
        purchase: Purchase {
            purchase_instal_data: 0,
            purchase_amount: 1000,
            purchase_currency: "356".to_string(),
            purchase_exponent: 2,
            purchase_date: "20240101000000".to_string(),
            recurring_expiry: "20250101".to_string(),
            recurring_frequency: 0,
            trans_type: "01".to_string(),
        },
        acquirer: Acquirer {
            acquirer_bin: "400000".to_string(),
            acquirer_merchant_id: "merchant".to_string(),
        },
        merchant: Merchant {
            mcc: "5411".to_string(),
            merchant_country_code: "356".to_string(),
            three_ds_requestor_id: "req".to_string(),
            three_ds_requestor_name: "Requestor".to_string(),
            merchant_name: "Merchant".to_string(),
            results_response_notification_url: MERCHANT_URL.to_string(),
            notification_url: MERCHANT_URL.to_string(),
        },
        browser_information: Some(BrowserInformation {
            browser_accept_header: "text/html".to_string(),
            browser_ip: "127.0.0.1".to_string(),
            browser_language: "en".to_string(),
            browser_color_depth: "24".to_string(),
            browser_screen_height: 800,
            browser_screen_width: 1200,
            browser_tz: 0,
            browser_user_agent: "test".to_string(),
            challenge_window_size: "01".to_string(),
            browser_java_enabled: false,
            browser_javascript_enabled: true,
        }),
        device_render_options: DeviceRenderOptions {
            sdk_interface: "01".to_string(),
            sdk_ui_type: vec!["01".to_string()],
            sdk_authentication_type: vec!["02".to_string()],
        },
        sdk_ephemeral_public_key: None,
        kty: None,
        crv: None,
        x: None,
        y: None,
    }
}

fn ares_for(req: AuthenticateRequest) -> acs_mock::models::AuthenticateResponse {
    let sdk = req.sdk_trans_id;
    let (d, _t) = prepare_transaction(req, ACS_ID, DS_ID).unwrap();
    authenticate_response(
        serde_json::Value::Null,
        "20240101000000".to_string(),
        SERVER_ID,
        &d,
        ACS_ID,
        DS_ID,
        sdk,
        None,
        BASE,
    )
}

#[test]
fn frictionless_browser_flow() {
    let ares = ares_for(areq("02", "4000000000000002", "01"));
    assert_eq!(ares.trans_status, "Y");
    assert_eq!(ares.authentication_response.trans_status, "Y");
    assert_eq!(ares.acs_url, None);
    assert_eq!(ares.base64_encoded_challenge_request, None);
    assert_eq!(ares.acs_challenge_mandated, "N");
    assert_eq!(ares.authentication_response.eci, "05");
}

fn browser_challenge(otp: &str) -> (String, acs_mock::models::FinalResponse) {
    let req = areq("02", "4000000000004001", "01");
    let (d, record) = prepare_transaction(req, ACS_ID, DS_ID).unwrap();
    let ares = authenticate_response(
        serde_json::Value::Null,
        "20240101000000".to_string(),
        SERVER_ID,
        &d,
        ACS_ID,
        DS_ID,
        None,
        None,
        BASE,
    );
    assert_eq!(ares.trans_status, "C");
    assert_eq!(
        ares.acs_url,
        Some("http://127.0.0.1:8080/processor/mock/acs/trigger-otp".to_string())
    );
    assert!(ares.base64_encoded_challenge_request.is_some());
    let mut store = MemoryStore::new(1800);
    store.insert(SERVER_ID, record, 1000);
    let redirect = choose_redirect_url(None, store.get(SERVER_ID, 1001));
    assert_eq!(redirect, MERCHANT_URL);
    let page = trigger_page(BASE, SERVER_ID, &redirect);
    assert_eq!(
        page.pay_endpoint,
        "http://127.0.0.1:8080/processor/mock/acs/verify-otp?redirectUrl=https%3A%2F%2Fmerchant.example%2Freturn"
    );
    assert_eq!(page.three_ds_server_trans_id, "11111111-1111-4111-8111-111111111111");
    let v = verify_otp(otp, SERVER_ID, store.get(SERVER_ID, 1002), &redirect);
    record_results(&mut store, v.results.unwrap(), 1003).unwrap();
    let f = final_response_for(store.get(SERVER_ID, 1004).unwrap(), SERVER_ID).unwrap();
    (v.location, f)
}

#[test]
fn browser_challenge_success() {
    let (location, f) = browser_challenge("1234");
    assert!(location.starts_with(
        "https://merchant.example/return?transStatus=Y&threeDSServerTransID=11111111-1111-4111-8111-111111111111&eci=02&authenticationValue="
    ));
    assert_eq!(f.eci, "02");
    assert_eq!(f.trans_status, "Y");
    assert_eq!(f.authentication_value, "AgF5ipusvc7f8AESIzRFVmd4iZo=");
    assert_eq!(f.results_response.results_status, "01");
    assert_eq!(f.results_response.message_type, "RRes");
    assert_eq!(f.results_response.ds_trans_id, DS_ID);
    assert_eq!(f.results_request.interaction_counter, "01");
    assert_eq!(f.results_request.message_type, "RReq");
}

#[test]
fn browser_challenge_failure() {
    let (location, f) = browser_challenge("0000");
    assert_eq!(
        location,
        "https://merchant.example/return?transStatus=N&threeDSServerTransID=11111111-1111-4111-8111-111111111111&eci=07&authenticationValue=AAAAAAAAAAAAAAAAAAAAAA%3D%3D"
    );
    assert_eq!(f.eci, "07");
    assert_eq!(f.trans_status, "N");
    assert_eq!(f.authentication_value, "AAAAAAAAAAAAAAAAAAAAAA==");
}

fn sdk_jwk(k: &EphemeralKeyPair) -> String {
    format!(
        "{{\"kty\":\"EC\",\"crv\":\"P-256\",\"x\":\"{}\",\"y\":\"{}\"}}",
        k.public_key.x, k.public_key.y
    )
}

fn member(doc: &[u8], key: &str) -> String {
    let v: serde_json::Value = serde_json::from_slice(doc).unwrap();
    v[key].as_str().unwrap().to_string()
}

/// Runs a mobile challenge; the SDK seals its requests so that the ACS opens
/// them, and opens the ACS's replies, in the dialect given.
fn mobile_challenge(platform: Platform, otp: &str) -> (Vec<u8>, Vec<u8>, MemoryStore) {
    let sdk_keys = generate_ephemeral_key_pair().unwrap();
    let mut req = areq("01", "4000000000000002", "04");
    req.browser_information = None;
    req.sdk_trans_id = Some(SDK_ID);
    req.sdk_ephemeral_public_key = Some(SdkEphemeralPublicKey {
        kty: "EC".to_string(),
        crv: "P-256".to_string(),
        x: sdk_keys.public_key.x.clone(),
        y: sdk_keys.public_key.y.clone(),
    });
    let (d, record) = prepare_transaction(req, ACS_ID, DS_ID).unwrap();
    assert!(d.is_mobile && d.challenge);
    let acs_keys = record.ephemeral_keys.clone().unwrap();
    let ares = authenticate_response(
        serde_json::Value::Null,
        "20240101000000".to_string(),
        SERVER_ID,
        &d,
        ACS_ID,
        DS_ID,
        Some(SDK_ID),
        Some("signed".to_string()),
        BASE,
    );
    assert_eq!(ares.trans_status, "C");
    assert_eq!(ares.authentication_response.sdk_trans_id, Some(SDK_ID));
    assert_eq!(ares.authentication_response.acs_signed_content, Some("signed".to_string()));
    assert_eq!(ares.acs_url, None);
    let mut store = MemoryStore::new(1800);
    store.insert(SERVER_ID, record, 1000);

    let tag = match platform {
        Platform::Android => "android",
        Platform::Ios => "ios",
    };
    let key = calculate_derived_key(&sdk_jwk(&acs_keys), &sdk_keys.private_key, tag).unwrap();
    let (seal_key, open_key) = match platform {
        Platform::Android => (key.clone(), key.clone()),
        Platform::Ios => (
            [&key[16..32], &key[0..16]].concat(),
            [&key[16..32], &key[16..32]].concat(),
        ),
    };
    let kid = uuid_to_text(ACS_ID);
    let iv_len = match platform {
        Platform::Android => 16,
        Platform::Ios => 12,
    };
    let creq0 = format!(
        "{{\"messageType\":\"CReq\",\"messageVersion\":\"2.2.0\",\"sdkCounterStoA\":\"000\",\"acsTransID\":\"{}\"}}",
        kid
    );
    let jwe0 = seal_jwe(creq0.as_bytes(), &kid, &seal_key, platform, &vec![1u8; iv_len]).unwrap();
    let header = read_challenge_header(&jwe0).unwrap();
    assert_eq!(header.acs_trans_id, ACS_ID);
    assert_eq!(header.platform, platform);
    let (server_id, rec) = store.find_by_acs_trans_id(header.acs_trans_id, 1001).unwrap();
    let reply0 = respond_to_challenge(&jwe0, &header, server_id, rec).unwrap();
    assert!(reply0.results.is_none());
    let cres0 = open_jwe(&reply0.body, platform, &open_key).unwrap();

    let creq1 = format!(
        "{{\"messageType\":\"CReq\",\"messageVersion\":\"2.2.0\",\"sdkCounterStoA\":\"001\",\"challengeDataEntry\":\"{}\"}}",
        otp
    );
    let jwe1 = seal_jwe(creq1.as_bytes(), &kid, &seal_key, platform, &vec![2u8; iv_len]).unwrap();
    let header = read_challenge_header(&jwe1).unwrap();
    let (server_id, rec) = store.find_by_acs_trans_id(header.acs_trans_id, 1002).unwrap();
    let reply1 = respond_to_challenge(&jwe1, &header, server_id, rec).unwrap();
    record_results(&mut store, reply1.results.unwrap(), 1003).unwrap();
    let cres1 = open_jwe(&reply1.body, platform, &open_key).unwrap();
    (cres0, cres1, store)
}

#[test]
fn mobile_challenge_android_success() {
    let (cres0, cres1, store) = mobile_challenge(Platform::Android, "1234");
    assert_eq!(member(&cres0, "challengeCompletionInd"), "N");
    assert_eq!(member(&cres0, "acsCounterAtoS"), "000");
    assert_eq!(member(&cres0, "acsUiType"), "01");
    assert_eq!(member(&cres0, "challengeInfoLabel"), "Enter OTP:");
    assert_eq!(member(&cres0, "sdkTransID"), "44444444-4444-4444-8444-444444444444");
    assert_eq!(member(&cres1, "transStatus"), "Y");
    assert_eq!(member(&cres1, "challengeCompletionInd"), "Y");
    assert_eq!(member(&cres1, "acsCounterAtoS"), "001");
    let f = final_response_for(store.get(SERVER_ID, 1004).unwrap(), SERVER_ID).unwrap();
    assert_eq!(f.eci, "02");
    assert_eq!(f.trans_status, "Y");
}

#[test]
fn mobile_challenge_ios_failure() {
    let (cres0, cres1, store) = mobile_challenge(Platform::Ios, "9999");
    assert_eq!(member(&cres0, "challengeCompletionInd"), "N");
    assert_eq!(member(&cres1, "transStatus"), "N");
    assert_eq!(member(&cres1, "challengeCompletionInd"), "Y");
    let f = final_response_for(store.get(SERVER_ID, 1004).unwrap(), SERVER_ID).unwrap();
    assert_eq!(f.eci, "07");
    assert_eq!(f.authentication_value, "AAAAAAAAAAAAAAAAAAAAAA==");
}

#[test]
fn exemption_is_frictionless() {
    let req = areq("02", "4000000000004001", "05");
    let d = decide_authentication(&req).unwrap();
    assert!(!d.challenge);
    assert_eq!(d.trans_status, "Y");
    assert_eq!(d.acs_operator_id, "MOCK_ACS_NEW");
    assert_eq!(d.acs_reference_number, "issuer2");
    let ares = ares_for(req);
    assert_eq!(ares.authentication_response.acs_operator_id, "MOCK_ACS_NEW");
    assert_eq!(ares.trans_status, "Y");
}

#[test]
fn indicator_decides_status_whatever_the_pan() {
    for pan in ["4000000000004001", "4000000000000002", "5155010000000000"] {
        assert_eq!(decide_authentication(&areq("02", pan, "04")).unwrap().trans_status, "C");
        assert_eq!(decide_authentication(&areq("02", pan, "05")).unwrap().trans_status, "Y");
    }
    let d = decide_authentication(&areq("02", "4000000000000002", "04")).unwrap();
    assert_eq!(d.acs_operator_id, "MOCK_ACS");
    assert_eq!(d.acs_reference_number, "issuer1");
    assert_eq!(d.acs_challenge_mandated, "Y");
}

#[test]
fn mobile_request_needs_sdk_trans_id() {
    let req = areq("01", "4000000000004001", "01");
    assert_eq!(decide_authentication(&req), Err(FlowError::MissingSdkTransId));
}

#[test]
fn flat_sdk_key_is_accepted() {
    let mut req = areq("01", "4000000000004001", "01");
    req.sdk_trans_id = Some(SDK_ID);
    req.kty = Some("EC".to_string());
    req.crv = Some("P-256".to_string());
    req.x = Some("xx".to_string());
    req.y = Some("yy".to_string());
    let (_d, t) = prepare_transaction(req, ACS_ID, DS_ID).unwrap();
    let k = t.sdk_ephemeral_public_key.unwrap();
    assert_eq!(k.x, "xx");
    assert_eq!(k.y, "yy");
    assert!(t.ephemeral_keys.is_some());
    assert_eq!(t.redirect_url, Some(MERCHANT_URL.to_string()));
}

#[test]
fn browser_challenge_request_is_base64_json() {
    let req = areq("02", "4000000000004001", "01");
    let (d, _t) = prepare_transaction(req, 0x0000_0000_0000_4000_8000_0000_0000_0001, DS_ID).unwrap();
    let ares = authenticate_response(
        serde_json::Value::Null,
        "20240101000000".to_string(),
        0x0000_0000_0000_4000_8000_0000_0000_0001,
        &d,
        0x0000_0000_0000_4000_8000_0000_0000_0002,
        DS_ID,
        None,
        None,
        BASE,
    );
    assert_eq!(
        ares.base64_encoded_challenge_request.unwrap(),
        "eyJtZXNzYWdlVHlwZSI6IkNSZXEiLCJ0aHJlZURzU2VydmVyVHJhbnNJZCI6IjAwMDAwMDAwLTAwMDAtNDAwMC04MDAwLTAwMDAwMDAwMDAwMSIsImFjc1RyYW5zSWQiOiIwMDAwMDAwMC0wMDAwLTQwMDAtODAwMC0wMDAwMDAwMDAwMDIiLCJjaGFsbGVuZ2VXaW5kb3dTaXplIjoiMDEiLCJtZXNzYWdlVmVyc2lvbiI6IjIuMi4wIn0="
    );
}

#[test]
fn version_lookup_ranges() {
    let r = card_range_for("5155011234567890");
    assert_eq!(r.start_range, "5155010000000000");
    assert_eq!(r.end_range, "5155019999999999");
    assert_eq!(r.acs_info_ind, vec!["01".to_string(), "02".to_string()]);
    let v = version_response("4111111111111111", SERVER_ID);
    assert_eq!(v.card_ranges[0].start_range, "4000000000000000");
    assert_eq!(v.card_ranges[0].end_range, "4999999999999999");
    assert_eq!(v.card_ranges[0].acs_start_protocol_version, "2.2.0");
    assert_eq!(v.three_ds_server_trans_id, SERVER_ID);
}

#[test]
fn authentication_values() {
    assert_eq!(generate_authentic_auth_value(), "AgF5ipusvc7f8AESIzRFVmd4iZo=");
    assert_eq!(generate_failed_auth_value(), "AAAAAAAAAAAAAAAAAAAAAA==");
    let ok = challenge_outcome("1234");
    assert_eq!((ok.trans_status.as_str(), ok.eci.as_str()), ("Y", "02"));
    let bad = challenge_outcome("12345");
    assert_eq!((bad.trans_status.as_str(), bad.eci.as_str()), ("N", "07"));
}

#[test]
fn final_without_results_is_refused() {
    let (_d, t) = prepare_transaction(areq("02", "4000000000004001", "01"), ACS_ID, DS_ID).unwrap();
    assert_eq!(final_response_for(&t, SERVER_ID).err(), Some(FlowError::ResultsNotFound));
}

#[test]
fn browser_errors_redirect() {
    assert_eq!(
        error_redirect("https://m.example/r"),
        "https://m.example/r?transStatus=U&error=processing_error"
    );
    let v = verify_otp("1234", SERVER_ID, None, "https://m.example/r");
    assert_eq!(v.location, "https://m.example/r?transStatus=U&error=processing_error");
    assert!(v.results.is_none());
    assert_eq!(choose_redirect_url(Some("https://q.example"), None), "https://q.example");
    assert_eq!(choose_redirect_url(None, None), "https://juspay.api.in.end");
}

#[test]
fn challenge_header_errors() {
    assert_eq!(read_challenge_header("abc").err(), Some(ChallengeError::InvalidJwe));
    assert_eq!(
        read_challenge_header("{\"errorCode\":\"401\",\"errorDescription\":\"x\"}").err(),
        Some(ChallengeError::JsonInsteadOfJwe)
    );
    assert_eq!(http_status(ChallengeError::JsonInsteadOfJwe), 400);
    let h = base64url_encode(b"{\"alg\":\"dir\",\"enc\":\"A128GCM\",\"kid\":\"not-a-uuid\"}");
    assert_eq!(
        read_challenge_header(&format!("{}..AA.AA.AA", h)).err(),
        Some(ChallengeError::InvalidKid)
    );
    let h = base64url_encode(b"{\"alg\":\"dir\",\"enc\":\"A128GCM\"}");
    assert_eq!(
        read_challenge_header(&format!("{}..AA.AA.AA", h)).err(),
        Some(ChallengeError::MissingKid)
    );
    let h = base64url_encode(
        b"{\"alg\":\"dir\",\"enc\":\"A256GCM\",\"kid\":\"22222222-2222-4222-8222-222222222222\"}",
    );
    assert_eq!(
        read_challenge_header(&format!("{}..AA.AA.AA", h)).err(),
        Some(ChallengeError::UnsupportedAlgorithm)
    );
    assert_eq!(http_status(ChallengeError::TransactionNotFound), 404);
    assert_eq!(http_status(ChallengeError::InvalidKid), 400);
    assert_eq!(http_status(ChallengeError::EncryptionFailed), 500);
    assert_eq!(
        acs_mock::browser::submitted_transaction_id("22222222-2222-4222-8222-222222222222"),
        Some(ACS_ID)
    );
    assert_eq!(acs_mock::browser::submitted_transaction_id("nope"), None);
}

#[test]
fn challenge_without_keys_is_refused() {
    let (_d, t) = prepare_transaction(areq("02", "4000000000004001", "01"), ACS_ID, DS_ID).unwrap();
    let key = vec![1u8; 32];
    let kid = uuid_to_text(ACS_ID);
    let jwe = seal_jwe(b"{}", &kid, &key, Platform::Android, &[0u8; 16]).unwrap();
    let header = read_challenge_header(&jwe).unwrap();
    assert_eq!(
        respond_to_challenge(&jwe, &header, SERVER_ID, &t).err(),
        Some(ChallengeError::MissingEphemeralKeys)
    );
    assert!(decrypt_challenge_request(&jwe, &key).is_ok());
}

#[test]
fn minted_ids_are_version_4() {
    let (_d, t) = acs_mock::flow::authenticate_transaction(areq("02", "4000000000000002", "01")).unwrap();
    for id in [t.acs_trans_id, t.ds_trans_id] {
        assert_eq!((id >> 76) & 0xF, 4);
        assert_eq!((id >> 62) & 0x3, 2);
    }
    assert_ne!(t.acs_trans_id, t.ds_trans_id);
}
