//! The messages of the 3-D Secure exchange, as plain values. Transaction ids
//! are UUIDs held as their 128-bit value.
use vstd::prelude::*;

verus! {

#[verifier::external_type_specification]
#[verifier::external_body]
pub struct ExJsonValue(serde_json::Value);
/// A card-range lookup request.
#[derive(Debug, Clone, PartialEq, Eq)]
pub struct VersionRequest {
    pub card_number: String,
}

/// The card range that serves a PAN, with an informational transaction id.
#[derive(Debug, Clone, PartialEq, Eq)]
pub struct VersionResponse {
    pub three_ds_server_trans_id: u128,
    pub card_ranges: Vec<CardRange>,
}

/// A range of card numbers served by this ACS.
#[derive(Debug, Clone, PartialEq, Eq)]
pub struct CardRange {
    pub acs_info_ind: Vec<String>,
    pub start_range: String,
    pub acs_end_protocol_version: String,
    pub acs_start_protocol_version: String,
    pub end_range: String,
}

/// An authentication request (`AReq`).
#[derive(Debug, Clone, PartialEq, Eq)]
pub struct AuthenticateRequest {
    pub three_ds_server_trans_id: u128,
    pub sdk_trans_id: Option<u128>,
    pub device_channel: String,
    pub message_category: String,
    pub preferred_protocol_version: String,
    pub enforce_preferred_protocol_version: bool,
    pub three_ds_comp_ind: String,
    pub three_ds_requestor: ThreeDSRequestor,
    pub cardholder_account: CardholderAccount,
    pub cardholder: Cardholder,
    pub purchase: Purchase,
    pub acquirer: Acquirer,
    pub merchant: Merchant,
    pub browser_information: Option<BrowserInformation>,
    pub device_render_options: DeviceRenderOptions,
    pub sdk_ephemeral_public_key: Option<SdkEphemeralPublicKey>,
    /// The SDK key given as top-level `Kty`, `Crv`, `X`, `Y` members.
    pub kty: Option<String>,
    pub crv: Option<String>,
    pub x: Option<String>,
    pub y: Option<String>,
}

/// The 3DS requestor block of an `AReq`.
#[derive(Debug, Clone, PartialEq, Eq)]
pub struct ThreeDSRequestor {
    pub three_ds_requestor_authentication_ind: String,
    pub three_ds_requestor_authentication_info: ThreeDSRequestorAuthenticationInfo,
    pub three_ds_requestor_challenge_ind: String,
}

/// How the requestor authenticated the cardholder.
#[derive(Debug, Clone, PartialEq, Eq)]
pub struct ThreeDSRequestorAuthenticationInfo {
    pub three_ds_req_auth_method: String,
    pub three_ds_req_auth_timestamp: String,
}

/// The cardholder account block of an `AReq`.
#[derive(Debug, Clone, PartialEq, Eq)]
pub struct CardholderAccount {
    pub acct_type: String,
    pub card_expiry_date: String,
    pub scheme_id: String,
    pub acct_number: String,
    pub card_security_code: String,
}

/// Cardholder details of an `AReq`.
#[derive(Debug, Clone, PartialEq, Eq)]
pub struct Cardholder {
    pub addr_match: String,
    pub bill_addr_city: String,
    pub bill_addr_country: String,
    pub bill_addr_line1: String,
    pub bill_addr_line2: String,
    pub bill_addr_line3: String,
    pub bill_addr_post_code: String,
    pub email: String,
    pub home_phone: Phone,
    pub mobile_phone: Phone,
    pub work_phone: Phone,
    pub cardholder_name: String,
    pub ship_addr_city: String,
    pub ship_addr_country: String,
    pub ship_addr_line1: String,
    pub ship_addr_line2: String,
    pub ship_addr_line3: String,
    pub ship_addr_post_code: String,
}

/// A phone number.
#[derive(Debug, Clone, PartialEq, Eq)]
pub struct Phone {
    pub cc: String,
    pub subscriber: String,
}

/// The purchase block of an `AReq`.
#[derive(Debug, Clone, PartialEq, Eq)]
pub struct Purchase {
    pub purchase_instal_data: u32,
    pub purchase_amount: u64,
    pub purchase_currency: String,
    pub purchase_exponent: u32,
    pub purchase_date: String,
    pub recurring_expiry: String,
    pub recurring_frequency: u32,
    pub trans_type: String,
}

/// The acquirer block of an `AReq`.
#[derive(Debug, Clone, PartialEq, Eq)]
pub struct Acquirer {
    pub acquirer_bin: String,
    pub acquirer_merchant_id: String,
}

/// The merchant block of an `AReq`.
#[derive(Debug, Clone, PartialEq, Eq)]
pub struct Merchant {
    pub mcc: String,
    pub merchant_country_code: String,
    pub three_ds_requestor_id: String,
    pub three_ds_requestor_name: String,
    pub merchant_name: String,
    pub results_response_notification_url: String,
    pub notification_url: String,
}

/// Browser details, present in browser flows.
#[derive(Debug, Clone, PartialEq, Eq)]
pub struct BrowserInformation {
    pub browser_accept_header: String,
    pub browser_ip: String,
    pub browser_language: String,
    pub browser_color_depth: String,
    pub browser_screen_height: u32,
    pub browser_screen_width: u32,
    pub browser_tz: u32,
    pub browser_user_agent: String,
    pub challenge_window_size: String,
    pub browser_java_enabled: bool,
    pub browser_javascript_enabled: bool,
}

/// What the SDK can render.
#[derive(Debug, Clone, PartialEq, Eq)]
pub struct DeviceRenderOptions {
    pub sdk_interface: String,
    pub sdk_ui_type: Vec<String>,
    pub sdk_authentication_type: Vec<String>,
}

/// The SDK's ephemeral public key as a JWK.
#[derive(Debug, Clone, PartialEq, Eq)]
pub struct SdkEphemeralPublicKey {
    pub kty: String,
    pub crv: String,
    pub x: String,
    pub y: String,
}

/// The reply to an `AReq`: the `ARes` with the challenge request and an echo of the request.
#[derive(Debug)]
pub struct AuthenticateResponse {
    pub purchase_date: String,
    pub base64_encoded_challenge_request: Option<String>,
    pub acs_url: Option<String>,
    pub three_ds_server_trans_id: u128,
    pub authentication_response: AuthenticationResponse,
    pub challenge_request: ChallengeRequest,
    pub acs_challenge_mandated: String,
    pub trans_status: String,
    pub authentication_request: serde_json::Value,
}

/// The authentication response (`ARes`).
#[derive(Debug, Clone, PartialEq, Eq)]
pub struct AuthenticationResponse {
    pub three_ds_requestor_app_url_ind: Option<String>,
    pub acs_operator_id: String,
    pub ds_reference_number: String,
    pub eci: String,
    pub acs_signed_content: Option<String>,
    pub ds_trans_id: u128,
    pub acs_rendering_type: Option<AcsRenderingTypeResponse>,
    pub message_type: String,
    pub three_ds_server_trans_id: u128,
    pub acs_trans_id: u128,
    pub broad_info: Option<BroadInfo>,
    pub authentication_method: Option<String>,
    pub trans_status_reason: Option<String>,
    pub device_info_recognised_version: Option<String>,
    pub acs_challenge_mandated: String,
    pub authentication_type: String,
    pub sdk_trans_id: Option<u128>,
    pub authentication_value: String,
    pub trans_status: String,
    pub message_version: String,
    pub acs_reference_number: String,
    pub acs_url: Option<String>,
}

/// The rendering the ACS offers a mobile SDK.
#[derive(Debug, Clone, PartialEq, Eq)]
pub struct AcsRenderingTypeResponse {
    pub device_user_interface_mode: String,
    pub acs_interface: String,
    pub acs_ui_template: String,
}

/// Informational broadcast to the 3DS server.
#[derive(Debug, Clone, PartialEq, Eq)]
pub struct BroadInfo {
    pub category: String,
    pub severity: String,
    pub source: String,
    pub recipients: Vec<String>,
    pub description: BroadInfoDescription,
    pub exp_date: String,
}

/// The text of a broadcast.
#[derive(Debug, Clone, PartialEq, Eq)]
pub struct BroadInfoDescription {
    pub message: String,
}

/// A challenge request (`CReq`) as it is handed to the browser.
#[derive(Debug, Clone, PartialEq, Eq)]
pub struct ChallengeRequest {
    pub message_type: String,
    pub three_ds_server_trans_id: u128,
    pub acs_trans_id: u128,
    pub challenge_window_size: String,
    pub message_version: String,
}

/// A results request (`RReq`): the outcome of a challenge.
#[derive(Debug, Clone, PartialEq, Eq)]
pub struct ResultsRequest {
    pub acs_trans_id: u128,
    pub message_category: String,
    pub eci: String,
    pub message_type: String,
    pub acs_rendering_type: AcsRenderingType,
    pub ds_trans_id: u128,
    pub authentication_method: String,
    pub authentication_type: String,
    pub message_version: String,
    pub sdk_trans_id: Option<u128>,
    pub interaction_counter: String,
    pub authentication_value: String,
    pub trans_status: String,
    pub three_ds_server_trans_id: u128,
}

/// The rendering the challenge used.
#[derive(Debug, Clone, PartialEq, Eq)]
pub struct AcsRenderingType {
    pub acs_ui_template: String,
    pub acs_interface: String,
}

/// A results response (`RRes`).
#[derive(Debug, Clone, PartialEq, Eq)]
pub struct ResultsResponse {
    pub ds_trans_id: u128,
    pub message_type: String,
    pub three_ds_server_trans_id: u128,
    pub acs_trans_id: u128,
    pub sdk_trans_id: Option<u128>,
    pub results_status: String,
    pub message_version: String,
}

/// The form that starts a browser challenge.
#[derive(Debug, Clone, PartialEq, Eq)]
pub struct AcsTriggerOtpRequest {
    pub creq: String,
}

/// The form that submits a browser OTP.
#[derive(Debug, Clone, PartialEq, Eq)]
pub struct AcsVerifyOtpRequest {
    pub otp: String,
    pub three_ds_server_trans_id: String,
}

/// A request for the final result of a transaction.
#[derive(Debug, Clone, PartialEq, Eq)]
pub struct FinalRequest {
    pub three_ds_server_trans_id: u128,
}

/// The final result of a transaction.
#[derive(Debug, Clone, PartialEq, Eq)]
pub struct FinalResponse {
    pub eci: String,
    pub authentication_value: String,
    pub three_ds_server_trans_id: u128,
    pub results_response: ResultsResponse,
    pub results_request: ResultsRequest,
    pub trans_status: String,
}

} // verus!
