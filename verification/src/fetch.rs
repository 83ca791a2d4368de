//! The rules by which a payload is got: where it is asked for, where it is
//! kept, for how long a kept one will do, and how often and how patiently
//! the asking is tried again. Asking, keeping and waiting themselves are
//! the caller's work.

use vstd::prelude::*;
use crate::lang::Lang;
use crate::render::RenderedOutput;

verus! {

/// For how many seconds a kept payload will do.
pub const FRESH_SECONDS: u64 = 600;

/// After how many failures the asking is given up.
pub const MAX_FAILURES: u32 = 20;

/// By how many milliseconds the wait grows with each failure.
pub const BACKOFF_MILLIS: u64 = 500;

/// The address at which the payload for a place is asked for.
pub open spec fn url_text(lang: Lang, location: Seq<char>) -> Seq<char> {
    "https://"@ + lang.subdomain() + "/"@ + location + "?format=j1"@
}

/// The file in which the payload for a place is kept.
pub open spec fn cache_path_text(lang: Lang, location: Seq<char>) -> Seq<char> {
    "/tmp/wttrbar-"@ + location + "-"@ + lang.subdomain() + ".json"@
}

/// The address at which the payload for a place is asked for. An empty
/// `location` asks for the place from which the request comes.
pub fn weather_url(lang: &Lang, location: &str) -> (url: String)
    ensures
        url@ == url_text(*lang, location@),
{
    let mut url = "https://".to_string();
    let host = lang.wttr_in_subdomain();
    url.append(host.as_str());
    url.append("/");
    url.append(location);
    url.append("?format=j1");
    url
}

/// The file in which the payload for a place is kept.
pub fn cache_path(lang: &Lang, location: &str) -> (path: String)
    ensures
        path@ == cache_path_text(*lang, location@),
{
    let mut path = "/tmp/wttrbar-".to_string();
    path.append(location);
    path.append("-");
    let host = lang.wttr_in_subdomain();
    path.append(host.as_str());
    path.append(".json");
    path
}

/// Whether a payload that was kept `age_seconds` ago will still do.
pub fn is_fresh(age_seconds: u64) -> (fresh: bool)
    ensures
        fresh == (age_seconds < FRESH_SECONDS),
{
    age_seconds < FRESH_SECONDS
}

/// What to do after an attempt has failed.
#[derive(Debug, Clone, Copy, PartialEq, Eq, Structural)]
pub struct AfterFailure {
    /// For how many milliseconds to wait.
    pub wait_millis: u64,
    /// Whether to give up after the wait, or else to try again.
    pub give_up: bool,
}

/// What to do after the attempt that made the number of failures
/// `failures`: wait half a second for each failure so far, and give up once
/// there have been twenty.
pub fn after_failure(failures: u32) -> (step: AfterFailure)
    ensures
        step.wait_millis == BACKOFF_MILLIS * failures,
        step.give_up == (failures >= MAX_FAILURES),
{
    AfterFailure {
        wait_millis: BACKOFF_MILLIS * (failures as u64),
        give_up: failures >= MAX_FAILURES,
    }
}

/// The output with the same text for indicator and tooltip and no class.
pub open spec fn is_notice(output: RenderedOutput, text: Seq<char>, tooltip: Seq<char>) -> bool {
    output.text@ == text && output.tooltip@ == tooltip && output.class is None
}

/// What is shown where the forecast service cannot be reached.
pub fn unreachable_notice() -> (output: RenderedOutput)
    ensures
        is_notice(output, "⛓️‍💥"@, "cannot access wttr.in"@),
{
    RenderedOutput {
        text: "⛓️‍💥".to_string(),
        tooltip: "cannot access wttr.in".to_string(),
        class: None,
    }
}

/// What is shown where the answer of the forecast service is no payload.
pub fn invalid_notice() -> (output: RenderedOutput)
    ensures
        is_notice(output, "⛓️‍💥"@, "invalid wttr.in response"@),
{
    RenderedOutput {
        text: "⛓️‍💥".to_string(),
        tooltip: "invalid wttr.in response".to_string(),
        class: None,
    }
}

/// What is shown where a payload lacks what the tooltip needs.
pub fn unavailable_notice() -> (output: RenderedOutput)
    ensures
        is_notice(output, "N/A"@, "N/A"@),
{
    RenderedOutput { text: "N/A".to_string(), tooltip: "N/A".to_string(), class: None }
}

} // verus!
