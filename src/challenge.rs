//! The mobile challenge endpoint's decisions: reading the JWE header,
//! deriving the key from the stored ephemeral keys, and the two-step OTP
//! exchange:
//!
//! ```text
//!   [IDLE] --CReq without challengeDataEntry--> [AWAIT_OTP]
//!   [AWAIT_OTP] --CReq with challengeDataEntry--> [DONE(Y|N)]
//! ```
//!
//! The lookup of the record by ACS transaction id happens between the two
//! functions here.
use crate::codec::{quote, json_lookup, json_member, json_quoted, parse_uuid, uuid_parsed, uuid_text, uuid_to_text, base64url_bytes, base64url_decode};
use crate::compact::{compact_parts, split_compact};
use crate::crypto::{derive_shared_key, derived_key_of, CryptoError, Platform};
use crate::flow::{challenge_outcome, is_outcome_for, otp_accepted, results_request_for};
use crate::jwe::{sealing_owed, iv_len, open_jwe, opened_as, platform_of_enc, seal_with_fresh_iv, sealed};
use crate::models::ResultsRequest;
use crate::store::TransactionData;
use vstd::prelude::*;
use vstd::utf8::encode_utf8;

verus! {

/// Why a challenge request was refused.
#[derive(Debug, Clone, Copy, PartialEq, Eq, Structural)]
pub enum ChallengeError {
    /// The body is JSON (as an SDK sends its error messages), not a JWE.
    JsonInsteadOfJwe,
    /// The body is not five `.`-separated parts.
    InvalidJwe,
    /// The protected header is not base64url JSON.
    InvalidHeader,
    /// The header has no string `kid`.
    MissingKid,
    /// `kid` is not a UUID.
    InvalidKid,
    /// `enc` names neither dialect.
    UnsupportedAlgorithm,
    /// No live transaction carries the ACS transaction id.
    TransactionNotFound,
    /// The record lacks our key pair or the SDK's public key.
    MissingEphemeralKeys,
    /// The shared key could not be derived.
    KeyDerivationFailed,
    /// The request does not decrypt to JSON under the derived key.
    DecryptionFailed,
    /// The response could not be encrypted.
    EncryptionFailed,
}

/// The HTTP status each refusal is answered with.
pub open spec fn status_of(e: ChallengeError) -> u16 {
    match e {
        ChallengeError::TransactionNotFound => 404,
        ChallengeError::EncryptionFailed => 500,
        _ => 400,
    }
}

/// The HTTP status of a refusal.
pub fn http_status(e: ChallengeError) -> (r: u16)
    ensures
        r == status_of(e),
{
    match e {
        ChallengeError::TransactionNotFound => 404,
        ChallengeError::EncryptionFailed => 500,
        _ => 400,
    }
}

/// What the protected header of a challenge request says.
#[derive(Debug, Clone, PartialEq, Eq)]
pub struct ChallengeHeader {
    /// The `kid` as sent.
    pub kid: String,
    /// The ACS transaction id that `kid` names.
    pub acs_trans_id: u128,
    /// The dialect `enc` names.
    pub platform: Platform,
}

/// What the header of a challenge request gives: `kid`, the id it names and
/// the dialect, in the order they are checked; a JSON body is refused
/// first.
pub open spec fn challenge_header_of(t: Seq<char>) -> Result<(Seq<char>, u128, Platform), ChallengeError> {
    if json_member(encode_utf8(t), ""@) is Some {
        Err(ChallengeError::JsonInsteadOfJwe)
    } else {
        compact_header_of(t)
    }
}

/// What the header of a compact serialization gives.
pub open spec fn compact_header_of(t: Seq<char>) -> Result<(Seq<char>, u128, Platform), ChallengeError> {
    match compact_parts(t) {
        None => Err(ChallengeError::InvalidJwe),
        Some(q) => match base64url_bytes(q.0) {
            None => Err(ChallengeError::InvalidHeader),
            Some(hb) => match json_member(hb, "kid"@) {
                None => Err(ChallengeError::InvalidHeader),
                Some(Some(Some(kid))) => match uuid_parsed(kid) {
                    None => Err(ChallengeError::InvalidKid),
                    Some(id) => match json_member(hb, "enc"@) {
                        Some(Some(Some(e))) => match platform_of_enc(e) {
                            Some(p) => Ok((kid, id, p)),
                            None => Err(ChallengeError::UnsupportedAlgorithm),
                        },
                        _ => Err(ChallengeError::UnsupportedAlgorithm),
                    },
                },
                _ => Err(ChallengeError::MissingKid),
            },
        },
    }
}

/// Reads `kid` and `enc` from the protected header of a challenge request,
/// before any cryptographic work.
pub fn read_challenge_header(jwe: &str) -> (r: Result<ChallengeHeader, ChallengeError>)
    ensures
        match r {
            Ok(h) => challenge_header_of(jwe@) == Ok::<(Seq<char>, u128, Platform), ChallengeError>(
                (h.kid@, h.acs_trans_id, h.platform),
            ),
            Err(e) => challenge_header_of(jwe@) == Err::<(Seq<char>, u128, Platform), ChallengeError>(e),
        },
{
    if json_lookup(jwe.as_bytes(), "").is_some() {
        return Err(ChallengeError::JsonInsteadOfJwe);
    }
    let (h, _k, _iv, _ct, _tag) = match split_compact(jwe) {
        Some(parts) => parts,
        None => return Err(ChallengeError::InvalidJwe),
    };
    let header = match base64url_decode(h.as_str()) {
        Some(b) => b,
        None => return Err(ChallengeError::InvalidHeader),
    };
    let kid = match json_lookup(header.as_slice(), "kid") {
        None => return Err(ChallengeError::InvalidHeader),
        Some(Some(Some(kid))) => kid,
        _ => return Err(ChallengeError::MissingKid),
    };
    let acs_trans_id = match parse_uuid(kid.as_str()) {
        Some(id) => id,
        None => return Err(ChallengeError::InvalidKid),
    };
    let platform = match json_lookup(header.as_slice(), "enc") {
        Some(Some(Some(e))) => {
            if crate::codec::same_text(e.as_str(), "A128CBC-HS256") {
                Platform::Android
            } else if crate::codec::same_text(e.as_str(), "A128GCM") {
                Platform::Ios
            } else {
                return Err(ChallengeError::UnsupportedAlgorithm);
            }
        },
        _ => return Err(ChallengeError::UnsupportedAlgorithm),
    };
    Ok(ChallengeHeader { kid, acs_trans_id, platform })
}

/// The text of an optional id: its UUID text, or empty.
pub open spec fn id_text(o: Option<u128>) -> Seq<char> {
    match o {
        Some(u) => uuid_text(u),
        None => Seq::empty(),
    }
}

/// The OTP-prompt `CRes` (keys in order, as serde_json writes them).
pub open spec fn prompt_cres(kid: Seq<char>, sdk: Seq<char>, server: Seq<char>) -> Seq<char> {
    "{\"acsCounterAtoS\":\"000\",\"acsTransID\":"@ + json_quoted(kid)
        + ",\"acsUiType\":\"01\",\"challengeCompletionInd\":\"N\",\"challengeInfoHeader\":\"Authentication Required\",\"challengeInfoLabel\":\"Enter OTP:\",\"messageType\":\"CRes\",\"messageVersion\":\"2.2.0\",\"sdkTransID\":"@
        + json_quoted(sdk) + ",\"submitAuthenticationLabel\":\"Submit\",\"threeDSServerTransID\":"@
        + json_quoted(server) + "}"@
}

/// The final `CRes` (keys in order, as serde_json writes them).
pub open spec fn final_cres(kid: Seq<char>, version: Seq<char>, sdk: Seq<char>, server: Seq<char>, status: Seq<char>) -> Seq<char> {
    "{\"acsCounterAtoS\":\"001\",\"acsTransID\":"@ + json_quoted(kid)
        + ",\"challengeCompletionInd\":\"Y\",\"messageType\":\"CRes\",\"messageVersion\":"@
        + json_quoted(version) + ",\"sdkTransID\":"@ + json_quoted(sdk) + ",\"threeDSServerTransID\":"@
        + json_quoted(server) + ",\"transStatus\":"@ + json_quoted(status) + "}"@
}

/// The OTP of a present `challengeDataEntry`: its text, or empty when it is
/// not a string.
pub open spec fn entry_otp(m: Option<Seq<char>>) -> Seq<char> {
    match m {
        Some(s) => s,
        None => Seq::empty(),
    }
}

/// The message version of a request, `2.2.0` when it has none.
pub open spec fn version_of(doc: Seq<u8>) -> Seq<char> {
    match json_member(doc, "messageVersion"@) {
        Some(Some(Some(v))) => v,
        _ => "2.2.0"@,
    }
}

/// `transStatus` of the final `CRes` for an OTP.
pub open spec fn status_text(otp: Seq<char>) -> Seq<char> {
    if otp_accepted(otp) {
        "Y"@
    } else {
        "N"@
    }
}

/// The key a record's ephemeral keys derive for a dialect.
pub open spec fn record_key_of(record: TransactionData, p: Platform) -> Option<Result<Seq<u8>, CryptoError>> {
    match (record.sdk_ephemeral_public_key, record.ephemeral_keys) {
        (Some(sdk), Some(ours)) => Some(derived_key_of(sdk.x@, sdk.y@, ours.private_key@, p)),
        _ => None,
    }
}

/// The derived key and what the request decrypts to under it, or why not.
pub open spec fn challenge_decrypted(jwe: Seq<char>, p: Platform, record: TransactionData) -> Result<(Seq<u8>, Seq<u8>), ChallengeError> {
    match record_key_of(record, p) {
        None => Err(ChallengeError::MissingEphemeralKeys),
        Some(Err(_)) => Err(ChallengeError::KeyDerivationFailed),
        Some(Ok(key)) => match opened_as(jwe, p, key) {
            Err(_) => Err(ChallengeError::DecryptionFailed),
            Ok(pt) => Ok((key, pt)),
        },
    }
}

/// As `challenge_decrypted`, and the plaintext must be JSON.
pub open spec fn challenge_plaintext(jwe: Seq<char>, p: Platform, record: TransactionData) -> Result<(Seq<u8>, Seq<u8>), ChallengeError> {
    match challenge_decrypted(jwe, p, record) {
        Ok((key, pt)) => if json_member(pt, "challengeDataEntry"@) is None {
            Err(ChallengeError::DecryptionFailed)
        } else {
            Ok((key, pt))
        },
        Err(e) => Err(e),
    }
}

/// Derives the key from a record's ephemeral keys and decrypts a request.
pub fn decrypt_for_record(jwe: &str, platform: Platform, record: &TransactionData) -> (r: Result<(Vec<u8>, Vec<u8>), ChallengeError>)
    ensures
        match challenge_decrypted(jwe@, platform, *record) {
            Err(e) => r == Err::<(Vec<u8>, Vec<u8>), ChallengeError>(e),
            Ok((key, pt)) => r matches Ok((k, p)) && k@ == key && p@ == pt && key.len() == 32,
        },
{
    let (sdk, ours) = match (&record.sdk_ephemeral_public_key, &record.ephemeral_keys) {
        (Some(sdk), Some(ours)) => (sdk, ours),
        _ => return Err(ChallengeError::MissingEphemeralKeys),
    };
    let key = match derive_shared_key(sdk.x.as_str(), sdk.y.as_str(), ours.private_key.as_str(), platform) {
        Ok(k) => k,
        Err(_) => return Err(ChallengeError::KeyDerivationFailed),
    };
    match open_jwe(jwe, platform, key.as_slice()) {
        Ok(p) => Ok((key, p)),
        Err(_) => Err(ChallengeError::DecryptionFailed),
    }
}

/// The `CRes` text that answers a decrypted request.
pub open spec fn reply_text(pt: Seq<u8>, kid: Seq<char>, server_id: u128, record: TransactionData) -> Seq<char> {
    let sdk = id_text(record.sdk_trans_id);
    let server = uuid_text(server_id);
    match json_member(pt, "challengeDataEntry"@) {
        Some(Some(m)) => final_cres(kid, version_of(pt), sdk, server, status_text(entry_otp(m))),
        _ => prompt_cres(kid, sdk, server),
    }
}

/// The answer to a challenge request: the encrypted `CRes`, and the `RReq`
/// to file when the challenge ended.
#[derive(Debug, Clone, PartialEq, Eq)]
pub struct ChallengeReply {
    pub body: String,
    pub results: Option<ResultsRequest>,
}

/// The text of an optional id.
fn optional_id_text(o: Option<u128>) -> (r: String)
    ensures
        r@ == id_text(o),
{
    match o {
        Some(u) => uuid_to_text(u),
        None => String::new(),
    }
}

/// Builds the OTP-prompt `CRes`.
pub fn prompt_cres_text(kid: &str, sdk: &str, server: &str) -> (r: String)
    ensures
        r@ == prompt_cres(kid@, sdk@, server@),
{
    let mut j = "{\"acsCounterAtoS\":\"000\",\"acsTransID\":".to_string();
    j.append(quote(kid).as_str());
    j.append(
        ",\"acsUiType\":\"01\",\"challengeCompletionInd\":\"N\",\"challengeInfoHeader\":\"Authentication Required\",\"challengeInfoLabel\":\"Enter OTP:\",\"messageType\":\"CRes\",\"messageVersion\":\"2.2.0\",\"sdkTransID\":",
    );
    j.append(quote(sdk).as_str());
    j.append(",\"submitAuthenticationLabel\":\"Submit\",\"threeDSServerTransID\":");
    j.append(quote(server).as_str());
    j.append("}");
    j
}

/// Builds the final `CRes`.
pub fn final_cres_text(kid: &str, version: &str, sdk: &str, server: &str, status: &str) -> (r: String)
    ensures
        r@ == final_cres(kid@, version@, sdk@, server@, status@),
{
    let mut j = "{\"acsCounterAtoS\":\"001\",\"acsTransID\":".to_string();
    j.append(quote(kid).as_str());
    j.append(",\"challengeCompletionInd\":\"Y\",\"messageType\":\"CRes\",\"messageVersion\":");
    j.append(quote(version).as_str());
    j.append(",\"sdkTransID\":");
    j.append(quote(sdk).as_str());
    j.append(",\"threeDSServerTransID\":");
    j.append(quote(server).as_str());
    j.append(",\"transStatus\":");
    j.append(quote(status).as_str());
    j.append("}");
    j
}

/// The results that judging a present `challengeDataEntry` files.
pub open spec fn is_results_for(rr: ResultsRequest, m: Option<Seq<char>>, pt: Seq<u8>, server_id: u128, record: TransactionData) -> bool {
    &&& rr.three_ds_server_trans_id == server_id
    &&& rr.acs_trans_id == record.acs_trans_id
    &&& rr.ds_trans_id == record.ds_trans_id
    &&& rr.sdk_trans_id == record.sdk_trans_id
    &&& rr.message_version@ == version_of(pt)
    &&& rr.message_type@ == "RReq"@
    &&& rr.interaction_counter@ == "01"@
    &&& rr.trans_status@ == status_text(entry_otp(m))
    &&& is_outcome_for(
        crate::flow::ChallengeOutcome {
            trans_status: rr.trans_status,
            eci: rr.eci,
            authentication_value: rr.authentication_value,
        },
        entry_otp(m),
    )
}

/// The `CRes` for a decrypted request, and the results when it carried an
/// OTP.
pub fn reply_for(pt: &[u8], kid: &str, three_ds_server_trans_id: u128, record: &TransactionData) -> (r: Option<(String, Option<ResultsRequest>)>)
    ensures
        r is None <==> json_member(pt@, "challengeDataEntry"@) is None,
        r matches Some((text, results)) ==> {
            &&& text@ == reply_text(pt@, kid@, three_ds_server_trans_id, *record)
            &&& (results is Some <==> json_member(pt@, "challengeDataEntry"@) matches Some(Some(_)))
            &&& (results matches Some(rr) ==> json_member(pt@, "challengeDataEntry"@) matches Some(
                Some(m),
            ) && is_results_for(rr, m, pt@, three_ds_server_trans_id, *record))
        },
{
    let entry = match json_lookup(pt, "challengeDataEntry") {
        Some(m) => m,
        None => return None,
    };
    let sdk_text = optional_id_text(record.sdk_trans_id);
    let server_text = uuid_to_text(three_ds_server_trans_id);
    match entry {
        None => Some((prompt_cres_text(kid, sdk_text.as_str(), server_text.as_str()), None)),
        Some(m) => {
            let otp = match &m {
                Some(s) => s.clone(),
                None => String::new(),
            };
            let version = match json_lookup(pt, "messageVersion") {
                Some(Some(Some(v))) => v,
                _ => "2.2.0".to_string(),
            };
            let outcome = challenge_outcome(otp.as_str());
            let status = outcome.trans_status.clone();
            let text = final_cres_text(kid, version.as_str(), sdk_text.as_str(), server_text.as_str(), status.as_str());
            let rr = results_request_for(record, three_ds_server_trans_id, outcome, version);
            Some((text, Some(rr)))
        },
    }
}

/// Answers a challenge request for the record its `kid` located: derives the
/// key from the stored ephemeral keys, decrypts, and either prompts for the
/// OTP or judges it, filing the results; the `CRes` goes back in the
/// request's dialect.
pub fn respond_to_challenge(jwe: &str, header: &ChallengeHeader, three_ds_server_trans_id: u128, record: &TransactionData) -> (r: Result<ChallengeReply, ChallengeError>)
    ensures
        match challenge_plaintext(jwe@, header.platform, *record) {
            Err(e) => r == Err::<ChallengeReply, ChallengeError>(e),
            Ok((key, pt)) => {
                &&& r is Ok || r == Err::<ChallengeReply, ChallengeError>(ChallengeError::EncryptionFailed)
                &&& sealing_owed(
                    encode_utf8(reply_text(pt, header.kid@, three_ds_server_trans_id, *record)),
                    header.kid@,
                    key,
                    header.platform,
                ) ==> r is Ok
                &&& r == Err::<ChallengeReply, ChallengeError>(ChallengeError::EncryptionFailed) ==> forall|iv: Seq<u8>|
                    iv.len() == iv_len(header.platform) ==> #[trigger] sealed(
                        encode_utf8(reply_text(pt, header.kid@, three_ds_server_trans_id, *record)),
                        header.kid@,
                        key,
                        header.platform,
                        iv,
                    ) is Err
                &&& r matches Ok(reply) ==> exists|iv: Seq<u8>|
                    iv.len() == iv_len(header.platform) && #[trigger] sealed(
                        encode_utf8(reply_text(pt, header.kid@, three_ds_server_trans_id, *record)),
                        header.kid@,
                        key,
                        header.platform,
                        iv,
                    ) == Ok::<Seq<char>, CryptoError>(reply.body@)
                &&& r matches Ok(reply) ==> (reply.results is Some <==> json_member(
                    pt,
                    "challengeDataEntry"@,
                ) matches Some(Some(_)))
                &&& r matches Ok(reply) ==> (reply.results matches Some(rr) ==> json_member(
                    pt,
                    "challengeDataEntry"@,
                ) matches Some(Some(m)) && is_results_for(rr, m, pt, three_ds_server_trans_id, *record))
            },
        },
{
    let (key, pt) = decrypt_for_record(jwe, header.platform, record)?;
    let (text, results) = match reply_for(pt.as_slice(), header.kid.as_str(), three_ds_server_trans_id, record) {
        Some(reply) => reply,
        None => return Err(ChallengeError::DecryptionFailed),
    };
    match seal_with_fresh_iv(text.as_str().as_bytes(), header.kid.as_str(), key.as_slice(), header.platform) {
        Ok(body) => Ok(ChallengeReply { body, results }),
        Err(_) => {
            proof {
                let ghost pt_text = encode_utf8(text@);
                assert forall|iv: Seq<u8>| iv.len() == iv_len(header.platform) implies #[trigger] sealed(
                    pt_text,
                    header.kid@,
                    key@,
                    header.platform,
                    iv,
                ) is Err by {
                    let w = choose|w: Seq<u8>|
                        w.len() == iv_len(header.platform) && #[trigger] sealed(pt_text, header.kid@, key@, header.platform, w)
                            is Err;
                    crate::jwe::lemma_sealing_fails_alike(pt_text, header.kid@, key@, header.platform, w, iv);
                }
            }
            Err(ChallengeError::EncryptionFailed)
        },
    }
}

} // verus!
