//! The flow engine: card-range lookup, the frictionless-or-challenge
//! decision, the `ARes`, authentication values, and the results path that
//! both challenge endpoints end in.
use crate::codec::{
    quote, base64_encode, base64_text, fresh_uuid, is_v4_uuid, json_quoted, uuid_text, uuid_to_text,
};
use crate::crypto::{generate_ephemeral_key_pair, is_valid_key_pair, EphemeralKeyPair};
use crate::models::{
    AcsRenderingType, AcsRenderingTypeResponse, AuthenticateRequest, AuthenticateResponse,
    AuthenticationResponse, BroadInfo, BroadInfoDescription, CardRange, ChallengeRequest,
    FinalResponse, ResultsRequest, ResultsResponse, SdkEphemeralPublicKey, VersionResponse,
};
use crate::store::{expiry, with_results, MemoryStore, StoreEntry, TransactionData};
use crate::text::{ends_with, has_prefix, has_suffix, starts_with, trim_end_slashes, trim_trailing_slashes};
use vstd::prelude::*;
use vstd::utf8::encode_utf8;

verus! {

/// Why a step of the flow was refused.
#[derive(Debug, Clone, Copy, PartialEq, Eq, Structural)]
pub enum FlowError {
    /// A mobile `AReq` (device channel `01`) without `sdkTransID`.
    MissingSdkTransId,
    /// No live record under the server transaction id.
    TransactionNotFound,
    /// The record holds no results yet.
    ResultsNotFound,
}

/// Returns `<base>/challenge`, with any trailing slashes of `base` removed.
pub fn create_acs_url(base_url: &str) -> (r: String)
    ensures
        r@ == trim_trailing_slashes(base_url@) + "/challenge"@,
{
    let mut r = trim_end_slashes(base_url).to_string();
    r.append("/challenge");
    r
}

/// Whether a PAN falls in the `515501` issuer range.
pub open spec fn in_issuer_range(card_number: Seq<char>) -> bool {
    has_prefix(card_number, "515501"@)
}

/// The first and last card number of the range that serves a PAN.
pub open spec fn range_bounds(card_number: Seq<char>) -> (Seq<char>, Seq<char>) {
    if in_issuer_range(card_number) {
        ("5155010000000000"@, "5155019999999999"@)
    } else {
        ("4000000000000000"@, "4999999999999999"@)
    }
}

/// The card range record for a PAN: protocol 2.2.0 at both ends and
/// `acsInfoInd` `["01", "02"]`.
pub open spec fn is_range_for(r: CardRange, card_number: Seq<char>) -> bool {
    &&& r.start_range@ == range_bounds(card_number).0
    &&& r.end_range@ == range_bounds(card_number).1
    &&& r.acs_start_protocol_version@ == "2.2.0"@
    &&& r.acs_end_protocol_version@ == "2.2.0"@
    &&& r.acs_info_ind@.len() == 2
    &&& r.acs_info_ind@[0]@ == "01"@
    &&& r.acs_info_ind@[1]@ == "02"@
}

/// The card range that serves a PAN.
pub fn card_range_for(card_number: &str) -> (r: CardRange)
    ensures
        is_range_for(r, card_number@),
{
    let mut info: Vec<String> = Vec::new();
    info.push("01".to_string());
    info.push("02".to_string());
    let (start, end) = if starts_with(card_number, "515501") {
        ("5155010000000000", "5155019999999999")
    } else {
        ("4000000000000000", "4999999999999999")
    };
    CardRange {
        acs_info_ind: info,
        start_range: start.to_string(),
        acs_end_protocol_version: "2.2.0".to_string(),
        acs_start_protocol_version: "2.2.0".to_string(),
        end_range: end.to_string(),
    }
}

/// The reply to a version request: one card range, and the given id.
pub fn version_response(card_number: &str, three_ds_server_trans_id: u128) -> (r: VersionResponse)
    ensures
        r.three_ds_server_trans_id == three_ds_server_trans_id,
        r.card_ranges@.len() == 1,
        is_range_for(r.card_ranges@[0], card_number@),
{
    let mut card_ranges: Vec<CardRange> = Vec::new();
    card_ranges.push(card_range_for(card_number));
    VersionResponse { three_ds_server_trans_id, card_ranges }
}

/// The reply to a version request, under a freshly minted transaction id
/// (informational only: it is not stored).
pub fn version_lookup(card_number: &str) -> (r: VersionResponse)
    ensures
        is_v4_uuid(r.three_ds_server_trans_id),
        r.card_ranges@.len() == 1,
        is_range_for(r.card_ranges@[0], card_number@),
{
    version_response(card_number, fresh_uuid())
}

/// The challenge decision, first match wins: indicator `04` challenges,
/// `05` does not, else an account number ending in `4001` challenges.
pub open spec fn challenge_required(challenge_ind: Seq<char>, acct_number: Seq<char>) -> bool {
    if challenge_ind == "04"@ {
        true
    } else if challenge_ind == "05"@ {
        false
    } else {
        has_suffix(acct_number, "4001"@)
    }
}

/// `transStatus` of the `ARes`: `C` for a challenge, else `Y`.
pub open spec fn trans_status_text(challenge: bool) -> Seq<char> {
    if challenge {
        "C"@
    } else {
        "Y"@
    }
}

/// `acsChallengeMandated` of the `ARes`.
pub open spec fn mandated_text(challenge: bool) -> Seq<char> {
    if challenge {
        "Y"@
    } else {
        "N"@
    }
}

/// `acsOperatorID`: the exemption indicator `05` has its own operator.
pub open spec fn acs_operator_text(challenge_ind: Seq<char>) -> Seq<char> {
    if challenge_ind == "05"@ {
        "MOCK_ACS_NEW"@
    } else {
        "MOCK_ACS"@
    }
}

/// `acsReferenceNumber`, chosen with the operator.
pub open spec fn acs_reference_text(challenge_ind: Seq<char>) -> Seq<char> {
    if challenge_ind == "05"@ {
        "issuer2"@
    } else {
        "issuer1"@
    }
}

/// Whether an `AReq` comes from a mobile SDK (device channel `01`).
pub open spec fn is_mobile_request(req: AuthenticateRequest) -> bool {
    req.device_channel@ == "01"@
}

/// What the flow decided for an `AReq`.
#[derive(Debug, Clone, PartialEq, Eq)]
pub struct AuthDecision {
    pub is_mobile: bool,
    pub challenge: bool,
    pub trans_status: String,
    pub acs_challenge_mandated: String,
    pub acs_operator_id: String,
    pub acs_reference_number: String,
}

/// The decision the rules give for a request.
pub open spec fn is_decision_for(d: AuthDecision, req: AuthenticateRequest) -> bool {
    let ind = req.three_ds_requestor.three_ds_requestor_challenge_ind@;
    let challenge = challenge_required(ind, req.cardholder_account.acct_number@);
    &&& d.is_mobile == is_mobile_request(req)
    &&& d.challenge == challenge
    &&& d.trans_status@ == trans_status_text(challenge)
    &&& d.acs_challenge_mandated@ == mandated_text(challenge)
    &&& d.acs_operator_id@ == acs_operator_text(ind)
    &&& d.acs_reference_number@ == acs_reference_text(ind)
}

/// Decides frictionless or challenge for an `AReq`; a mobile request must
/// carry `sdkTransID`.
pub fn decide_authentication(req: &AuthenticateRequest) -> (r: Result<AuthDecision, FlowError>)
    ensures
        (is_mobile_request(*req) && req.sdk_trans_id is None) ==> r == Err::<AuthDecision, FlowError>(
            FlowError::MissingSdkTransId,
        ),
        !(is_mobile_request(*req) && req.sdk_trans_id is None) ==> (r matches Ok(d) && is_decision_for(
            d,
            *req,
        )),
{
    let is_mobile = crate::codec::same_text(req.device_channel.as_str(), "01");
    if is_mobile && req.sdk_trans_id.is_none() {
        return Err(FlowError::MissingSdkTransId);
    }
    let ind = req.three_ds_requestor.three_ds_requestor_challenge_ind.as_str();
    let challenge = if crate::codec::same_text(ind, "04") {
        true
    } else if crate::codec::same_text(ind, "05") {
        false
    } else {
        ends_with(req.cardholder_account.acct_number.as_str(), "4001")
    };
    let exempt = crate::codec::same_text(ind, "05");
    Ok(AuthDecision {
        is_mobile,
        challenge,
        trans_status: (if challenge { "C" } else { "Y" }).to_string(),
        acs_challenge_mandated: (if challenge { "Y" } else { "N" }).to_string(),
        acs_operator_id: (if exempt { "MOCK_ACS_NEW" } else { "MOCK_ACS" }).to_string(),
        acs_reference_number: (if exempt { "issuer2" } else { "issuer1" }).to_string(),
    })
}

/// For the indicators `04` and `05` the `transStatus` of the `ARes` depends
/// on the indicator alone, whatever the PAN.
pub proof fn lemma_indicator_decides_status(challenge_ind: Seq<char>, pan1: Seq<char>, pan2: Seq<char>)
    requires
        challenge_ind == "04"@ || challenge_ind == "05"@,
    ensures
        trans_status_text(challenge_required(challenge_ind, pan1)) == trans_status_text(
            challenge_required(challenge_ind, pan2),
        ),
{
}

/// The SDK key of an `AReq`: the nested JWK, else the four top-level
/// members when all are present.
pub open spec fn sdk_key_of(req: AuthenticateRequest) -> Option<SdkEphemeralPublicKey> {
    match req.sdk_ephemeral_public_key {
        Some(k) => Some(k),
        None => if req.kty is Some && req.crv is Some && req.x is Some && req.y is Some {
            Some(
                SdkEphemeralPublicKey {
                    kty: req.kty->0,
                    crv: req.crv->0,
                    x: req.x->0,
                    y: req.y->0,
                },
            )
        } else {
            None
        },
    }
}

/// Copies an SDK key.
pub fn copy_sdk_key(k: &SdkEphemeralPublicKey) -> (r: SdkEphemeralPublicKey)
    ensures
        r == *k,
{
    SdkEphemeralPublicKey { kty: k.kty.clone(), crv: k.crv.clone(), x: k.x.clone(), y: k.y.clone() }
}

/// Reads the SDK key of an `AReq` in either of its two shapes.
pub fn sdk_ephemeral_key(req: &AuthenticateRequest) -> (r: Option<SdkEphemeralPublicKey>)
    ensures
        r == sdk_key_of(*req),
{
    match &req.sdk_ephemeral_public_key {
        Some(k) => Some(copy_sdk_key(k)),
        None => match (&req.kty, &req.crv, &req.x, &req.y) {
            (Some(kty), Some(crv), Some(x), Some(y)) => Some(
                SdkEphemeralPublicKey { kty: kty.clone(), crv: crv.clone(), x: x.clone(), y: y.clone() },
            ),
            _ => None,
        },
    }
}

/// The record written for a new authentication.
pub open spec fn is_new_record(
    r: TransactionData,
    req: AuthenticateRequest,
    d: AuthDecision,
    acs_trans_id: u128,
    ds_trans_id: u128,
    keys: Option<EphemeralKeyPair>,
) -> bool {
    &&& r.authenticate_request == req
    &&& r.acs_trans_id == acs_trans_id
    &&& r.ds_trans_id == ds_trans_id
    &&& r.sdk_trans_id == req.sdk_trans_id
    &&& r.results_request is None
    &&& r.ephemeral_keys == keys
    &&& r.redirect_url == Some(req.merchant.notification_url)
    &&& r.sdk_ephemeral_public_key == (if d.is_mobile {
        sdk_key_of(req)
    } else {
        None
    })
}

/// Builds the record for a new authentication.
pub fn new_transaction(
    req: AuthenticateRequest,
    decision: &AuthDecision,
    acs_trans_id: u128,
    ds_trans_id: u128,
    ephemeral_keys: Option<EphemeralKeyPair>,
) -> (r: TransactionData)
    ensures
        is_new_record(r, req, *decision, acs_trans_id, ds_trans_id, ephemeral_keys),
{
    let sdk_key = if decision.is_mobile {
        sdk_ephemeral_key(&req)
    } else {
        None
    };
    let redirect_url = Some(req.merchant.notification_url.clone());
    let sdk_trans_id = req.sdk_trans_id;
    TransactionData {
        authenticate_request: req,
        acs_trans_id,
        ds_trans_id,
        sdk_trans_id,
        results_request: None,
        ephemeral_keys,
        redirect_url,
        sdk_ephemeral_public_key: sdk_key,
    }
}

/// Decides an `AReq` and builds its record; a mobile challenge gets a fresh
/// ephemeral key pair.
pub fn prepare_transaction(req: AuthenticateRequest, acs_trans_id: u128, ds_trans_id: u128) -> (r: Result<(AuthDecision, TransactionData), FlowError>)
    ensures
        (is_mobile_request(req) && req.sdk_trans_id is None) ==> r == Err::<(AuthDecision, TransactionData), FlowError>(
            FlowError::MissingSdkTransId,
        ),
        !(is_mobile_request(req) && req.sdk_trans_id is None) ==> r is Ok,
        r matches Ok((d, t)) ==> {
            &&& is_decision_for(d, req)
            &&& is_new_record(t, req, d, acs_trans_id, ds_trans_id, t.ephemeral_keys)
            &&& (t.ephemeral_keys is Some <==> d.is_mobile && d.challenge)
            &&& (t.ephemeral_keys matches Some(k) ==> is_valid_key_pair(k))
        },
{
    let decision = decide_authentication(&req)?;
    let keys = if decision.is_mobile && decision.challenge {
        match generate_ephemeral_key_pair() {
            Ok(k) => Some(k),
            Err(_) => None,
        }
    } else {
        None
    };
    let t = new_transaction(req, &decision, acs_trans_id, ds_trans_id, keys);
    Ok((decision, t))
}

/// Decides an `AReq` and builds its record under freshly minted ACS and DS
/// transaction ids (random version-4 UUIDs).
pub fn authenticate_transaction(req: AuthenticateRequest) -> (r: Result<(AuthDecision, TransactionData), FlowError>)
    ensures
        (is_mobile_request(req) && req.sdk_trans_id is None) ==> r == Err::<(AuthDecision, TransactionData), FlowError>(
            FlowError::MissingSdkTransId,
        ),
        !(is_mobile_request(req) && req.sdk_trans_id is None) ==> r is Ok,
        r matches Ok((d, t)) ==> {
            &&& is_decision_for(d, req)
            &&& is_v4_uuid(t.acs_trans_id)
            &&& is_v4_uuid(t.ds_trans_id)
            &&& is_new_record(t, req, d, t.acs_trans_id, t.ds_trans_id, t.ephemeral_keys)
            &&& (t.ephemeral_keys is Some <==> d.is_mobile && d.challenge)
            &&& (t.ephemeral_keys matches Some(k) ==> is_valid_key_pair(k))
        },
{
    let acs_trans_id = fresh_uuid();
    let ds_trans_id = fresh_uuid();
    prepare_transaction(req, acs_trans_id, ds_trans_id)
}

/// The JSON of the browser `CReq`, field names in camelCase.
pub open spec fn challenge_request_json(server_id: u128, acs_id: u128) -> Seq<char> {
    "{\"messageType\":\"CReq\",\"threeDsServerTransId\":"@ + json_quoted(uuid_text(server_id))
        + ",\"acsTransId\":"@ + json_quoted(uuid_text(acs_id))
        + ",\"challengeWindowSize\":\"01\",\"messageVersion\":\"2.2.0\"}"@
}

/// The base64 of the browser `CReq` JSON.
pub fn encoded_challenge_request(server_id: u128, acs_id: u128) -> (r: String)
    ensures
        r@ == base64_text(encode_utf8(challenge_request_json(server_id, acs_id))),
{
    let server_text = uuid_to_text(server_id);
    let acs_text = uuid_to_text(acs_id);
    let mut j = "{\"messageType\":\"CReq\",\"threeDsServerTransId\":".to_string();
    j.append(quote(server_text.as_str()).as_str());
    j.append(",\"acsTransId\":");
    j.append(quote(acs_text.as_str()).as_str());
    j.append(",\"challengeWindowSize\":\"01\",\"messageVersion\":\"2.2.0\"}");
    base64_encode(j.as_str().as_bytes())
}

/// The browser challenge page of a server: `<base>/processor/mock/acs/trigger-otp`.
pub open spec fn trigger_otp_url(server_base: Seq<char>) -> Seq<char> {
    server_base + "/processor/mock/acs/trigger-otp"@
}

/// The `acsURL` of an `ARes`: only a browser challenge has one.
pub open spec fn ares_acs_url(d: AuthDecision, server_base: Seq<char>) -> Option<Seq<char>> {
    if d.challenge && !d.is_mobile {
        Some(trigger_otp_url(server_base))
    } else {
        None
    }
}

/// Seen as text.
pub open spec fn opt_text(o: Option<String>) -> Option<Seq<char>> {
    match o {
        Some(s) => Some(s@),
        None => None,
    }
}

/// Builds the reply to an `AReq` from the decision. `authentication_request`
/// is the echo of the request, carried through unchanged.
pub fn authenticate_response(
    authentication_request: serde_json::Value,
    purchase_date: String,
    three_ds_server_trans_id: u128,
    decision: &AuthDecision,
    acs_trans_id: u128,
    ds_trans_id: u128,
    sdk_trans_id: Option<u128>,
    acs_signed_content: Option<String>,
    server_base: &str,
) -> (r: AuthenticateResponse)
    ensures
        r.purchase_date == purchase_date,
        r.three_ds_server_trans_id == three_ds_server_trans_id,
        r.trans_status == decision.trans_status,
        r.acs_challenge_mandated == decision.acs_challenge_mandated,
        r.base64_encoded_challenge_request is Some <==> decision.challenge,
        r.base64_encoded_challenge_request matches Some(b) ==> b@ == base64_text(
            encode_utf8(challenge_request_json(three_ds_server_trans_id, acs_trans_id)),
        ),
        opt_text(r.acs_url) == ares_acs_url(*decision, server_base@),
        r.challenge_request.three_ds_server_trans_id == three_ds_server_trans_id,
        r.challenge_request.acs_trans_id == acs_trans_id,
        r.challenge_request.message_type@ == "CReq"@,
        r.challenge_request.challenge_window_size@ == "01"@,
        r.challenge_request.message_version@ == "2.2.0"@,
        r.authentication_response.message_type@ == "ARes"@,
        r.authentication_response.message_version@ == "2.2.0"@,
        r.authentication_response.eci@ == "05"@,
        r.authentication_response.trans_status == decision.trans_status,
        r.authentication_response.acs_challenge_mandated == decision.acs_challenge_mandated,
        r.authentication_response.acs_operator_id == decision.acs_operator_id,
        r.authentication_response.acs_reference_number == decision.acs_reference_number,
        r.authentication_response.three_ds_server_trans_id == three_ds_server_trans_id,
        r.authentication_response.acs_trans_id == acs_trans_id,
        r.authentication_response.ds_trans_id == ds_trans_id,
        opt_text(r.authentication_response.acs_url) == ares_acs_url(*decision, server_base@),
        r.authentication_response.acs_signed_content == (if decision.is_mobile {
            acs_signed_content
        } else {
            None
        }),
        r.authentication_response.sdk_trans_id == (if decision.is_mobile {
            sdk_trans_id
        } else {
            None
        }),
{
    let acs_url = if decision.challenge && !decision.is_mobile {
        let mut u = server_base.to_string();
        u.append("/processor/mock/acs/trigger-otp");
        Some(u)
    } else {
        None
    };
    let encoded = if decision.challenge {
        Some(encoded_challenge_request(three_ds_server_trans_id, acs_trans_id))
    } else {
        None
    };
    let authentication_response = if decision.is_mobile {
        let mut recipients: Vec<String> = Vec::new();
        recipients.push("02".to_string());
        recipients.push("01".to_string());
        recipients.push("03".to_string());
        AuthenticationResponse {
            three_ds_requestor_app_url_ind: Some("N".to_string()),
            acs_operator_id: decision.acs_operator_id.clone(),
            ds_reference_number: "MOCK_DS".to_string(),
            eci: "05".to_string(),
            acs_signed_content,
            ds_trans_id,
            acs_rendering_type: Some(
                AcsRenderingTypeResponse {
                    device_user_interface_mode: "01".to_string(),
                    acs_interface: "01".to_string(),
                    acs_ui_template: "01".to_string(),
                },
            ),
            message_type: "ARes".to_string(),
            three_ds_server_trans_id,
            acs_trans_id,
            broad_info: Some(
                BroadInfo {
                    category: "01".to_string(),
                    severity: "04".to_string(),
                    source: "03".to_string(),
                    recipients,
                    description: BroadInfoDescription {
                        message: "TLS 1.x will be turned off starting summer 2019".to_string(),
                    },
                    exp_date: "20241231".to_string(),
                },
            ),
            authentication_method: Some("02".to_string()),
            trans_status_reason: Some("15".to_string()),
            device_info_recognised_version: Some("1.3".to_string()),
            acs_challenge_mandated: decision.acs_challenge_mandated.clone(),
            authentication_type: "02".to_string(),
            sdk_trans_id,
            authentication_value: "QWErty123+/ABCD5678ghijklmn==".to_string(),
            trans_status: decision.trans_status.clone(),
            message_version: "2.2.0".to_string(),
            acs_reference_number: decision.acs_reference_number.clone(),
            acs_url: None,
        }
    } else {
        AuthenticationResponse {
            three_ds_requestor_app_url_ind: None,
            acs_operator_id: decision.acs_operator_id.clone(),
            ds_reference_number: "MOCK_DS".to_string(),
            eci: "05".to_string(),
            acs_signed_content: None,
            ds_trans_id,
            acs_rendering_type: None,
            message_type: "ARes".to_string(),
            three_ds_server_trans_id,
            acs_trans_id,
            broad_info: None,
            authentication_method: None,
            trans_status_reason: None,
            device_info_recognised_version: None,
            acs_challenge_mandated: decision.acs_challenge_mandated.clone(),
            authentication_type: "02".to_string(),
            sdk_trans_id: None,
            authentication_value: "QWErty123+/ABCD5678ghijklmn==".to_string(),
            trans_status: decision.trans_status.clone(),
            message_version: "2.2.0".to_string(),
            acs_reference_number: decision.acs_reference_number.clone(),
            acs_url: match &acs_url {
                Some(u) => Some(u.clone()),
                None => None,
            },
        }
    };
    AuthenticateResponse {
        purchase_date,
        base64_encoded_challenge_request: encoded,
        acs_url,
        three_ds_server_trans_id,
        authentication_response,
        challenge_request: ChallengeRequest {
            message_type: "CReq".to_string(),
            three_ds_server_trans_id,
            acs_trans_id,
            challenge_window_size: "01".to_string(),
            message_version: "2.2.0".to_string(),
        },
        acs_challenge_mandated: decision.acs_challenge_mandated.clone(),
        trans_status: decision.trans_status.clone(),
        authentication_request,
    }
}

/// The 20-byte CAVV-shaped value of a successful authentication:
/// `0x02, 0x01`, then `(17 i + 13 + 0x4A) mod 256` for i in 2..20.
pub open spec fn authentic_cavv() -> Seq<u8> {
    Seq::new(
        20,
        |i: int|
            if i == 0 {
                2u8
            } else if i == 1 {
                1u8
            } else {
                ((i * 17 + 13 + 0x4A) % 256) as u8
            },
    )
}

/// The authentication value of a successful challenge: the CAVV bytes in
/// standard base64.
pub fn generate_authentic_auth_value() -> (r: String)
    ensures
        r@ == base64_text(authentic_cavv()),
{
    let mut cavv: Vec<u8> = Vec::new();
    cavv.push(0x02);
    cavv.push(0x01);
    let mut i: usize = 2;
    while i < 20
        invariant
            2 <= i <= 20,
            cavv@ == authentic_cavv().subrange(0, i as int),
        decreases 20 - i,
    {
        cavv.push(((i * 17 + 13 + 0x4A) % 256) as u8);
        i = i + 1;
        assert(cavv@ =~= authentic_cavv().subrange(0, i as int));
    }
    assert(authentic_cavv().subrange(0, 20) =~= authentic_cavv());
    base64_encode(cavv.as_slice())
}

/// The authentication value of a failed challenge.
pub fn generate_failed_auth_value() -> (r: String)
    ensures
        r@ == "AAAAAAAAAAAAAAAAAAAAAA=="@,
{
    "AAAAAAAAAAAAAAAAAAAAAA==".to_string()
}

/// The outcome of a challenge.
#[derive(Debug, Clone, PartialEq, Eq)]
pub struct ChallengeOutcome {
    pub trans_status: String,
    pub eci: String,
    pub authentication_value: String,
}

/// The one OTP this ACS accepts.
pub open spec fn otp_accepted(otp: Seq<char>) -> bool {
    otp == "1234"@
}

/// The outcome an OTP gives: `Y`, ECI `02` and the CAVV value when it is
/// accepted; else `N`, ECI `07` and the failure value.
pub open spec fn is_outcome_for(o: ChallengeOutcome, otp: Seq<char>) -> bool {
    if otp_accepted(otp) {
        &&& o.trans_status@ == "Y"@
        &&& o.eci@ == "02"@
        &&& o.authentication_value@ == base64_text(authentic_cavv())
    } else {
        &&& o.trans_status@ == "N"@
        &&& o.eci@ == "07"@
        &&& o.authentication_value@ == "AAAAAAAAAAAAAAAAAAAAAA=="@
    }
}

/// Judges a submitted OTP.
pub fn challenge_outcome(otp: &str) -> (r: ChallengeOutcome)
    ensures
        is_outcome_for(r, otp@),
{
    if crate::codec::same_text(otp, "1234") {
        ChallengeOutcome {
            trans_status: "Y".to_string(),
            eci: "02".to_string(),
            authentication_value: generate_authentic_auth_value(),
        }
    } else {
        ChallengeOutcome {
            trans_status: "N".to_string(),
            eci: "07".to_string(),
            authentication_value: generate_failed_auth_value(),
        }
    }
}

/// The `RReq` a challenge endpoint files for a record once the challenge
/// ends: interaction counter `01`, the outcome, the record's ids.
pub fn results_request_for(
    record: &TransactionData,
    three_ds_server_trans_id: u128,
    outcome: ChallengeOutcome,
    message_version: String,
) -> (r: ResultsRequest)
    ensures
        r.three_ds_server_trans_id == three_ds_server_trans_id,
        r.acs_trans_id == record.acs_trans_id,
        r.ds_trans_id == record.ds_trans_id,
        r.sdk_trans_id == record.sdk_trans_id,
        r.trans_status == outcome.trans_status,
        r.eci == outcome.eci,
        r.authentication_value == outcome.authentication_value,
        r.message_version == message_version,
        r.message_type@ == "RReq"@,
        r.interaction_counter@ == "01"@,
{
    ResultsRequest {
        acs_trans_id: record.acs_trans_id,
        message_category: "01".to_string(),
        eci: outcome.eci,
        message_type: "RReq".to_string(),
        acs_rendering_type: AcsRenderingType {
            acs_ui_template: "01".to_string(),
            acs_interface: "01".to_string(),
        },
        ds_trans_id: record.ds_trans_id,
        authentication_method: "02".to_string(),
        authentication_type: "02".to_string(),
        message_version,
        sdk_trans_id: record.sdk_trans_id,
        interaction_counter: "01".to_string(),
        authentication_value: outcome.authentication_value,
        trans_status: outcome.trans_status,
        three_ds_server_trans_id,
    }
}

/// Stores the results of a challenge on its record.
pub fn apply_results(record: &mut TransactionData, rreq: ResultsRequest)
    ensures
        *final(record) == with_results(*old(record), rreq),
{
    record.results_request = Some(rreq);
}

/// The `RRes` for a record: its ids, `resultsStatus` `01`, version 2.2.0.
pub open spec fn is_results_response_for(r: ResultsResponse, record: TransactionData, id: u128) -> bool {
    &&& r.three_ds_server_trans_id == id
    &&& r.acs_trans_id == record.acs_trans_id
    &&& r.ds_trans_id == record.ds_trans_id
    &&& r.sdk_trans_id == record.sdk_trans_id
    &&& r.message_type@ == "RRes"@
    &&& r.results_status@ == "01"@
    &&& r.message_version@ == "2.2.0"@
}

/// The `RRes` for a record.
pub fn results_response_for(record: &TransactionData, three_ds_server_trans_id: u128) -> (r: ResultsResponse)
    ensures
        r.three_ds_server_trans_id == three_ds_server_trans_id,
        r.acs_trans_id == record.acs_trans_id,
        r.ds_trans_id == record.ds_trans_id,
        r.sdk_trans_id == record.sdk_trans_id,
        r.message_type@ == "RRes"@,
        r.results_status@ == "01"@,
        r.message_version@ == "2.2.0"@,
{
    ResultsResponse {
        ds_trans_id: record.ds_trans_id,
        message_type: "RRes".to_string(),
        three_ds_server_trans_id,
        acs_trans_id: record.acs_trans_id,
        sdk_trans_id: record.sdk_trans_id,
        results_status: "01".to_string(),
        message_version: "2.2.0".to_string(),
    }
}

/// Copies a results request.
pub fn copy_results_request(r: &ResultsRequest) -> (c: ResultsRequest)
    ensures
        c == *r,
{
    ResultsRequest {
        acs_trans_id: r.acs_trans_id,
        message_category: r.message_category.clone(),
        eci: r.eci.clone(),
        message_type: r.message_type.clone(),
        acs_rendering_type: AcsRenderingType {
            acs_ui_template: r.acs_rendering_type.acs_ui_template.clone(),
            acs_interface: r.acs_rendering_type.acs_interface.clone(),
        },
        ds_trans_id: r.ds_trans_id,
        authentication_method: r.authentication_method.clone(),
        authentication_type: r.authentication_type.clone(),
        message_version: r.message_version.clone(),
        sdk_trans_id: r.sdk_trans_id,
        interaction_counter: r.interaction_counter.clone(),
        authentication_value: r.authentication_value.clone(),
        trans_status: r.trans_status.clone(),
        three_ds_server_trans_id: r.three_ds_server_trans_id,
    }
}

/// The final result of a record: its stored results, with the `RRes`;
/// `ResultsNotFound` while the challenge has not ended.
pub fn final_response_for(record: &TransactionData, three_ds_server_trans_id: u128) -> (r: Result<FinalResponse, FlowError>)
    ensures
        record.results_request is None <==> r == Err::<FinalResponse, FlowError>(FlowError::ResultsNotFound),
        record.results_request is Some ==> r is Ok,
        r matches Ok(f) ==> {
            &&& record.results_request == Some(f.results_request)
            &&& f.eci == f.results_request.eci
            &&& f.authentication_value == f.results_request.authentication_value
            &&& f.trans_status == f.results_request.trans_status
            &&& f.three_ds_server_trans_id == three_ds_server_trans_id
            &&& is_results_response_for(f.results_response, *record, three_ds_server_trans_id)
        },
{
    match &record.results_request {
        Some(rr) => Ok(FinalResponse {
            eci: rr.eci.clone(),
            authentication_value: rr.authentication_value.clone(),
            three_ds_server_trans_id,
            results_response: results_response_for(record, three_ds_server_trans_id),
            results_request: copy_results_request(rr),
            trans_status: rr.trans_status.clone(),
        }),
        None => Err(FlowError::ResultsNotFound),
    }
}

/// Whether every entry that held results still holds results.
pub open spec fn results_kept(before: Map<u128, StoreEntry>, after: Map<u128, StoreEntry>) -> bool {
    forall|j: u128|
        #![trigger before[j]]
        before.contains_key(j) && before[j].data.results_request is Some ==> after.contains_key(j)
            && after[j].data.results_request is Some
}

/// Keeping results composes: over any run of steps that each keep them,
/// results once set stay set.
pub proof fn lemma_results_kept_transitive(a: Map<u128, StoreEntry>, b: Map<u128, StoreEntry>, c: Map<u128, StoreEntry>)
    requires
        results_kept(a, b),
        results_kept(b, c),
    ensures
        results_kept(a, c),
{
    assert forall|j: u128|
        #![trigger a[j]]
        a.contains_key(j) && a[j].data.results_request is Some implies c.contains_key(j)
            && c[j].data.results_request is Some by {
        assert(b.contains_key(j) && b[j].data.results_request is Some);
    }
}

/// Writing a new record under a key that holds no results keeps every
/// record's results.
pub proof fn lemma_new_record_keeps_results(before: Map<u128, StoreEntry>, k: u128, e: StoreEntry)
    requires
        !(before.contains_key(k) && before[k].data.results_request is Some),
    ensures
        results_kept(before, before.insert(k, e)),
{
}

/// The results path: locates the record named by the `RReq`, stores the
/// results on it (refreshing its time to live) and answers with the `RRes`.
/// Results once stored are never cleared by it.
pub fn record_results(store: &mut MemoryStore, rreq: ResultsRequest, now: u64) -> (r: Result<ResultsResponse, FlowError>)
    ensures
        final(store).ttl() == old(store).ttl(),
        results_kept(old(store).entries(), final(store).entries()),
        old(store).live_record(rreq.three_ds_server_trans_id, now) is None ==> {
            &&& r == Err::<ResultsResponse, FlowError>(FlowError::TransactionNotFound)
            &&& final(store).entries() == old(store).entries()
            &&& final(store).index() == old(store).index()
        },
        old(store).live_record(rreq.three_ds_server_trans_id, now) matches Some(t) ==> {
            &&& r matches Ok(rres) && is_results_response_for(rres, t, rreq.three_ds_server_trans_id)
            &&& final(store).entries() == old(store).entries().insert(
                rreq.three_ds_server_trans_id,
                StoreEntry { data: with_results(t, rreq), expires_at: expiry(now, old(store).ttl()) },
            )
            &&& final(store).index() == old(store).index().insert(t.acs_trans_id, rreq.three_ds_server_trans_id)
        },
{
    let k = rreq.three_ds_server_trans_id;
    let response = match store.get(k, now) {
        Some(t) => results_response_for(t, k),
        None => return Err(FlowError::TransactionNotFound),
    };
    match store.set_results(k, rreq, now) {
        Ok(()) => Ok(response),
        Err(_) => Err(FlowError::TransactionNotFound),
    }
}

} // verus!
