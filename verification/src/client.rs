//! The lookup capability shared by every provider, the provider-prefixed
//! message format, and the trusted adapters around reqwest's blocking HTTP
//! client, including the classification of transport failures.

use vstd::prelude::*;
use vstd::string::StringExecFns;
use crate::types::AsnInfo;
use crate::types::ErrorKind;
use crate::types::LookupError;
use crate::types::LookupErrorView;

verus! {

/// The capability every provider implements: resolve the ASN records for
/// one IP address, given in its textual form (IPv4 or IPv6 alike). A lookup
/// may legitimately return zero records; every failure surfaces as a
/// classified `LookupError`.
pub trait Asn {
    fn lookup_asn(&self, ip: &str) -> Result<Vec<AsnInfo>, LookupError>;
}

/// A provider-emitted message prefixed with the provider's name:
/// `[ProviderName] message`.
pub open spec fn provider_error_spec(provider: Seq<char>, message: Seq<char>) -> Seq<char> {
    "["@ + provider + "] "@ + message
}

/// Formats a provider-emitted error message as `[ProviderName] message`,
/// so every such message traces back to its origin.
pub fn format_provider_error(provider: &str, message: &str) -> (r: String)
    ensures
        r@ == provider_error_spec(provider@, message@),
{
    let mut s = String::from_str("[");
    s.append(provider);
    s.append("] ");
    s.append(message);
    s
}

/// Law: a provider-emitted message always starts with the provider's
/// bracketed name, so its origin can be traced.
pub proof fn lemma_provider_error_prefixed(provider: Seq<char>, message: Seq<char>)
    ensures
        crate::strings::starts_with_spec(
            provider_error_spec(provider, message),
            "["@ + provider + "] "@,
        ),
{
    let prefix = "["@ + provider + "] "@;
    let whole = provider_error_spec(provider, message);
    assert(whole.subrange(0, prefix.len() as int) =~= prefix);
}

#[verifier::external_type_specification]
#[verifier::external_body]
pub struct ExReqwestClient(reqwest::blocking::Client);

#[verifier::external_type_specification]
#[verifier::external_body]
pub struct ExReqwestResponse(reqwest::blocking::Response);

#[verifier::external_type_specification]
#[verifier::external_body]
pub struct ExReqwestError(reqwest::Error);

/// Relies on reqwest::blocking::ClientBuilder::{new, timeout, build}: builds
/// a blocking HTTP client whose requests time out after `timeout_secs`
/// seconds. Building may itself fail.
#[verifier::external_body]
pub(crate) fn build_http_client(timeout_secs: u64) -> Result<
    reqwest::blocking::Client,
    reqwest::Error,
> {
    reqwest::blocking::ClientBuilder::new().timeout(
        std::time::Duration::from_secs(timeout_secs),
    ).build()
}

/// Relies on reqwest::blocking::ClientBuilder::{new, user_agent, timeout,
/// build}: as `build_http_client`, with a User-Agent header on every request.
#[verifier::external_body]
pub(crate) fn build_http_client_with_agent(timeout_secs: u64, user_agent: &str) -> Result<
    reqwest::blocking::Client,
    reqwest::Error,
> {
    reqwest::blocking::ClientBuilder::new().user_agent(user_agent).timeout(
        std::time::Duration::from_secs(timeout_secs),
    ).build()
}

/// Relies on reqwest::blocking::Client::get / RequestBuilder::send: one
/// blocking GET of `url`. The outcome depends on the network, so nothing is
/// promised of it.
#[verifier::external_body]
pub(crate) fn http_get(client: &reqwest::blocking::Client, url: &str) -> Result<
    reqwest::blocking::Response,
    reqwest::Error,
> {
    client.get(url).send()
}

/// Relies on reqwest::blocking::Response::status and
/// http::StatusCode::is_success: whether the status is in 200..=299.
#[verifier::external_body]
pub(crate) fn response_is_success(resp: &reqwest::blocking::Response) -> bool {
    resp.status().is_success()
}

/// Relies on reqwest::blocking::Response::status and http::StatusCode's
/// Display form (e.g. "404 Not Found").
#[verifier::external_body]
pub(crate) fn response_status_text(resp: &reqwest::blocking::Response) -> String {
    resp.status().to_string()
}

/// Relies on reqwest::blocking::Response::text: reads the whole response
/// body as text. Reading may fail (or time out) like any transport step.
#[verifier::external_body]
pub(crate) fn response_body_text(resp: reqwest::blocking::Response) -> Result<
    String,
    reqwest::Error,
> {
    resp.text()
}

/// Relies on reqwest::Error::is_timeout: whether the failure was a timeout.
/// The error is opaque, so nothing is promised of the answer.
#[verifier::external_body]
pub(crate) fn error_is_timeout(err: &reqwest::Error) -> bool {
    err.is_timeout()
}

/// Relies on reqwest::Error::is_connect: whether the failure arose while
/// connecting. The error is opaque, so nothing is promised of the answer.
#[verifier::external_body]
pub(crate) fn error_is_connect(err: &reqwest::Error) -> bool {
    err.is_connect()
}

/// Relies on reqwest::Error's Display form: its human-readable text.
#[verifier::external_body]
pub(crate) fn error_text(err: &reqwest::Error) -> String {
    err.to_string()
}

/// The classification of a transport failure from its two observations:
/// timeout-classified failures map to `Timeout`, connection-classified ones
/// to `ConnectionRefused`, everything else (DNS, TLS, generic I/O) to
/// `Other`, each carrying the failure's own text.
pub open spec fn transport_error_spec(timeout: bool, connect: bool, text: Seq<char>) -> LookupErrorView {
    LookupErrorView {
        kind: if timeout {
            ErrorKind::Timeout
        } else if connect {
            ErrorKind::ConnectionRefused
        } else {
            ErrorKind::Other
        },
        message: text,
    }
}

/// Builds the error for a transport failure observed as `timeout` /
/// `connect`, following `transport_error_spec`.
pub fn classify_transport_failure(timeout: bool, connect: bool, message: String) -> (r:
    LookupError)
    ensures
        r@ == transport_error_spec(timeout, connect, message@),
{
    let kind = if timeout {
        ErrorKind::Timeout
    } else if connect {
        ErrorKind::ConnectionRefused
    } else {
        ErrorKind::Other
    };
    LookupError { kind, message }
}

/// Classifies a transport-level failure into the error taxonomy, by
/// `transport_error_spec` over reqwest's own observations of the failure. A
/// transport failure is never data-shaped, so the result is never
/// `InvalidData`.
pub fn map_reqwest_error(err: reqwest::Error) -> (r: LookupError)
    ensures
        r@.kind == ErrorKind::Timeout || r@.kind == ErrorKind::ConnectionRefused || r@.kind
            == ErrorKind::Other,
{
    classify_transport_failure(error_is_timeout(&err), error_is_connect(&err), error_text(&err))
}

} // verus!
