//! The browser challenge endpoint's decisions: where the page sends the
//! cardholder, and the redirect that reports the OTP's outcome. A browser is
//! never answered with a server error: every failure redirects with
//! `transStatus=U`.
use crate::codec::{parse_uuid, url_encode, url_encoded, uuid_parsed, uuid_text, uuid_to_text};
use crate::flow::{challenge_outcome, is_outcome_for, results_request_for, ChallengeOutcome};
use crate::models::ResultsRequest;
use crate::store::TransactionData;
use vstd::prelude::*;

verus! {

/// Where a challenge returns when nothing else is known.
pub open spec fn default_redirect() -> Seq<char> {
    "https://juspay.api.in.end"@
}

/// The merchant URL a challenge returns to: the query's `redirectUrl`, else
/// the stored one, else the default.
pub open spec fn redirect_choice(query: Option<Seq<char>>, stored: Option<Option<Seq<char>>>) -> Seq<char> {
    match query {
        Some(q) => q,
        None => match stored {
            Some(Some(u)) => u,
            _ => default_redirect(),
        },
    }
}

/// The stored redirect of a record, if the record was found.
pub open spec fn stored_redirect(record: Option<TransactionData>) -> Option<Option<Seq<char>>> {
    match record {
        Some(t) => match t.redirect_url {
            Some(u) => Some(Some(u@)),
            None => Some(None),
        },
        None => None,
    }
}

/// Seen as text.
pub open spec fn opt_str(o: Option<&str>) -> Option<Seq<char>> {
    match o {
        Some(s) => Some(s@),
        None => None,
    }
}

/// Chooses where a challenge returns to.
pub fn choose_redirect_url(query: Option<&str>, record: Option<&TransactionData>) -> (r: String)
    ensures
        r@ == redirect_choice(
            opt_str(query),
            stored_redirect(
                match record {
                    Some(t) => Some(*t),
                    None => None,
                },
            ),
        ),
{
    match query {
        Some(q) => q.to_string(),
        None => match record {
            Some(t) => match &t.redirect_url {
                Some(u) => u.clone(),
                None => "https://juspay.api.in.end".to_string(),
            },
            None => "https://juspay.api.in.end".to_string(),
        },
    }
}

/// The three values the challenge page is filled with.
#[derive(Debug, Clone, PartialEq, Eq)]
pub struct TriggerPage {
    /// Where the page falls back to: the server itself.
    pub fallback_redirect_url: String,
    /// The server transaction id, as text.
    pub three_ds_server_trans_id: String,
    /// Where the OTP form posts, carrying the redirect URL.
    pub pay_endpoint: String,
}

/// The OTP form's target: `<base>/processor/mock/acs/verify-otp?redirectUrl=<url-encoded>`.
pub open spec fn pay_endpoint_of(server_base: Seq<char>, redirect: Seq<char>) -> Seq<char> {
    server_base + "/processor/mock/acs/verify-otp?redirectUrl="@ + url_encoded(redirect)
}

/// Fills the challenge page for a transaction.
pub fn trigger_page(server_base: &str, three_ds_server_trans_id: u128, redirect_url: &str) -> (r: TriggerPage)
    ensures
        r.fallback_redirect_url@ == server_base@,
        r.three_ds_server_trans_id@ == uuid_text(three_ds_server_trans_id),
        r.pay_endpoint@ == pay_endpoint_of(server_base@, redirect_url@),
{
    let mut pay = server_base.to_string();
    pay.append("/processor/mock/acs/verify-otp?redirectUrl=");
    pay.append(url_encode(redirect_url).as_str());
    TriggerPage {
        fallback_redirect_url: server_base.to_string(),
        three_ds_server_trans_id: uuid_to_text(three_ds_server_trans_id),
        pay_endpoint: pay,
    }
}

/// The redirect URL given in the query, else the default.
pub fn redirect_url_or_default(query: Option<&str>) -> (r: String)
    ensures
        r@ == redirect_choice(opt_str(query), None),
{
    match query {
        Some(q) => q.to_string(),
        None => "https://juspay.api.in.end".to_string(),
    }
}

/// Reads the transaction id a browser submitted with its OTP; `None` when
/// it is no UUID.
pub fn submitted_transaction_id(text: &str) -> (r: Option<u128>)
    ensures
        r == uuid_parsed(text@),
{
    parse_uuid(text)
}

/// The redirect that reports a failure.
pub open spec fn error_location(redirect: Seq<char>) -> Seq<char> {
    redirect + "?transStatus=U&error=processing_error"@
}

/// The redirect that reports an outcome.
pub open spec fn outcome_location(redirect: Seq<char>, o: ChallengeOutcome, id: u128) -> Seq<char> {
    redirect + "?transStatus="@ + o.trans_status@ + "&threeDSServerTransID="@ + uuid_text(id) + "&eci="@
        + o.eci@ + "&authenticationValue="@ + url_encoded(o.authentication_value@)
}

/// The result of an OTP submission: where to send the browser, and the
/// results to file when the transaction was found.
#[derive(Debug, Clone, PartialEq, Eq)]
pub struct OtpVerification {
    pub location: String,
    pub results: Option<ResultsRequest>,
}

/// Judges an OTP submitted for a transaction found (or not) under its id:
/// a found transaction gets its results and an outcome redirect; a missing
/// one an error redirect.
pub fn verify_otp(otp: &str, three_ds_server_trans_id: u128, record: Option<&TransactionData>, redirect_url: &str) -> (r: OtpVerification)
    ensures
        record is None ==> r.results is None && r.location@ == error_location(redirect_url@),
        record matches Some(t) ==> r.results matches Some(rr) && {
            let o = ChallengeOutcome {
                trans_status: rr.trans_status,
                eci: rr.eci,
                authentication_value: rr.authentication_value,
            };
            &&& is_outcome_for(o, otp@)
            &&& rr.three_ds_server_trans_id == three_ds_server_trans_id
            &&& rr.acs_trans_id == t.acs_trans_id
            &&& rr.ds_trans_id == t.ds_trans_id
            &&& rr.sdk_trans_id == t.sdk_trans_id
            &&& rr.message_version@ == "2.2.0"@
            &&& rr.message_type@ == "RReq"@
            &&& rr.interaction_counter@ == "01"@
            &&& r.location@ == outcome_location(redirect_url@, o, three_ds_server_trans_id)
        },
{
    match record {
        None => OtpVerification { location: error_redirect(redirect_url), results: None },
        Some(t) => {
            let outcome = challenge_outcome(otp);
            let mut loc = redirect_url.to_string();
            loc.append("?transStatus=");
            loc.append(outcome.trans_status.as_str());
            loc.append("&threeDSServerTransID=");
            loc.append(uuid_to_text(three_ds_server_trans_id).as_str());
            loc.append("&eci=");
            loc.append(outcome.eci.as_str());
            loc.append("&authenticationValue=");
            loc.append(url_encode(outcome.authentication_value.as_str()).as_str());
            let rr = results_request_for(t, three_ds_server_trans_id, outcome, "2.2.0".to_string());
            OtpVerification { location: loc, results: Some(rr) }
        },
    }
}

/// The redirect that reports a failure.
pub fn error_redirect(redirect_url: &str) -> (r: String)
    ensures
        r@ == error_location(redirect_url@),
{
    let mut loc = redirect_url.to_string();
    loc.append("?transStatus=U&error=processing_error");
    loc
}

} // verus!
