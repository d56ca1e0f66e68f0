use vstd::prelude::*;
use vstd::string::StringExecFns;

use crate::data::{AppConfig, AppConfigView};

verus! {

/// The timeout for a health probe, in seconds.
pub const HEALTH_TIMEOUT_SECS: u64 = 5;

/// The timeout for loading or saving the configuration, in seconds.
pub const CONFIG_TIMEOUT_SECS: u64 = 10;

/// The timeout for the request that starts an update, in seconds.
pub const UPDATE_TIMEOUT_SECS: u64 = 10;

/// The timeout for one status poll, in seconds.
pub const STATUS_TIMEOUT_SECS: u64 = 5;

/// The fixed local base address of the remote service all five
/// operations are exchanged with.
pub fn base_url() -> (r: &'static str)
    ensures
        r@ == "http://localhost:8080"@,
{
    "http://localhost:8080"
}

/// A status code in the range that HTTP calls successful.
pub open spec fn is_success_code(code: u16) -> bool {
    200 <= code < 300
}

/// What an HTTP exchange came to, seen from the caller: an answer with a
/// status code, or a transport failure with its description.
pub enum HttpOutcome {
    Response(u16),
    TransportFailed(String),
}

/// What a configuration fetch came to: a decoded configuration, a body
/// that did not decode, or a transport failure, each failure with its
/// description.
pub enum FetchOutcome {
    Fetched(AppConfig),
    DecodeFailed(String),
    Unreached(String),
}

/// A `Result` of strings, by the strings' contents.
pub open spec fn message_result_view(r: Result<String, String>) -> Result<Seq<char>, Seq<char>> {
    match r {
        Ok(s) => Ok(s@),
        Err(e) => Err(e@),
    }
}

/// A configuration-or-message `Result`, by views.
pub open spec fn config_result_view(r: Result<AppConfig, String>) -> Result<
    AppConfigView,
    Seq<char>,
> {
    match r {
        Ok(c) => Ok(c@),
        Err(e) => Err(e@),
    }
}

/// The error message for a configuration body that did not decode.
pub open spec fn parse_failure_message(detail: Seq<char>) -> Seq<char> {
    "Failed to parse config: "@ + detail
}

/// The error message for a configuration fetch that did not reach the
/// service.
pub open spec fn load_failure_message(detail: Seq<char>) -> Seq<char> {
    "Failed to load config: "@ + detail
}

/// The error message for a configuration save whose request did not reach
/// the service.
pub open spec fn save_failure_message(detail: Seq<char>) -> Seq<char> {
    "Failed to save config: "@ + detail
}

/// The error message for an update start whose request did not reach the
/// service.
pub open spec fn update_failure_message(detail: Seq<char>) -> Seq<char> {
    "Failed to start update: "@ + detail
}

/// What a configuration load reports: the decoded configuration exactly
/// as fetched, or the failure mapped to its descriptive message.
pub open spec fn load_report_spec(outcome: FetchOutcome) -> Result<AppConfigView, Seq<char>> {
    match outcome {
        FetchOutcome::Fetched(c) => Ok(c@),
        FetchOutcome::DecodeFailed(e) => Err(parse_failure_message(e@)),
        FetchOutcome::Unreached(e) => Err(load_failure_message(e@)),
    }
}

/// What a configuration save reports: success exactly on a response with
/// a success status, the other outcomes mapped to their messages.
pub open spec fn save_report_spec(outcome: HttpOutcome) -> Result<Seq<char>, Seq<char>> {
    match outcome {
        HttpOutcome::Response(code) => if is_success_code(code) {
            Ok("Configuration saved"@)
        } else {
            Err("Failed to save configuration"@)
        },
        HttpOutcome::TransportFailed(e) => Err(save_failure_message(e@)),
    }
}

/// What an update start reports: confirmation exactly on a response with
/// a success status, the other outcomes mapped to their messages.
pub open spec fn update_report_spec(outcome: HttpOutcome) -> Result<Seq<char>, Seq<char>> {
    match outcome {
        HttpOutcome::Response(code) => if is_success_code(code) {
            Ok("Update started"@)
        } else {
            Err("Failed to start update"@)
        },
        HttpOutcome::TransportFailed(e) => Err(update_failure_message(e@)),
    }
}

/// Coerces the outcome of a health probe to a boolean, never an error: a
/// reachable endpoint that answered with a success status is healthy;
/// anything else, a transport failure (`None`) included, is not.
pub fn health_report(status: Option<u16>) -> (healthy: bool)
    ensures
        healthy == (status is Some && is_success_code(status->0)),
{
    match status {
        Some(code) => 200 <= code && code < 300,
        None => false,
    }
}

/// The report of a configuration load: a fetched configuration is handed
/// back field for field; a decode failure and a transport failure each
/// become their descriptive error message.
pub fn load_config_report(outcome: FetchOutcome) -> (r: Result<AppConfig, String>)
    ensures
        config_result_view(r) == load_report_spec(outcome),
{
    match outcome {
        FetchOutcome::Fetched(c) => Ok(c),
        FetchOutcome::DecodeFailed(e) => Err(
            String::from_str("Failed to parse config: ").concat(e.as_str()),
        ),
        FetchOutcome::Unreached(e) => Err(
            String::from_str("Failed to load config: ").concat(e.as_str()),
        ),
    }
}

/// The report of a configuration save: confirmation exactly when the
/// service answered with a success status, otherwise the matching error.
pub fn save_config_report(outcome: HttpOutcome) -> (r: Result<String, String>)
    ensures
        message_result_view(r) == save_report_spec(outcome),
{
    match outcome {
        HttpOutcome::Response(code) => if 200 <= code && code < 300 {
            Ok(String::from_str("Configuration saved"))
        } else {
            Err(String::from_str("Failed to save configuration"))
        },
        HttpOutcome::TransportFailed(e) => Err(
            String::from_str("Failed to save config: ").concat(e.as_str()),
        ),
    }
}

/// The report of an update start, and whether to launch a poll run: one
/// run is launched exactly when the service accepted the request with a
/// success status; on any failure no run is launched.
pub fn start_update_report(outcome: HttpOutcome) -> (r: (Result<String, String>, bool))
    ensures
        message_result_view(r.0) == update_report_spec(outcome),
        r.1 == (outcome matches HttpOutcome::Response(code) && is_success_code(code)),
        r.1 == r.0 is Ok,
{
    match outcome {
        HttpOutcome::Response(code) => if 200 <= code && code < 300 {
            (Ok(String::from_str("Update started")), true)
        } else {
            (Err(String::from_str("Failed to start update")), false)
        },
        HttpOutcome::TransportFailed(e) => (
            Err(String::from_str("Failed to start update: ").concat(e.as_str())),
            false,
        ),
    }
}

/// Law: configuration round-trip. A save hands the service the
/// configuration itself, unchanged; against a service that echoes the
/// saved state back, the following load decodes that same value and
/// reports it untouched -- so the loaded configuration equals the saved
/// one field for field.
pub proof fn lemma_config_round_trip(c: AppConfig)
    ensures
        load_report_spec(FetchOutcome::Fetched(c)) == Ok::<AppConfigView, Seq<char>>(c@),
        load_report_spec(FetchOutcome::Fetched(c))->Ok_0.server_url == c@.server_url,
        load_report_spec(FetchOutcome::Fetched(c))->Ok_0.target_folder == c@.target_folder,
        load_report_spec(FetchOutcome::Fetched(c))->Ok_0.file_list_url == c@.file_list_url,
        load_report_spec(FetchOutcome::Fetched(c))->Ok_0.download_speed_limit
            == c@.download_speed_limit,
{
}

} // verus!
