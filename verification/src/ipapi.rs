//! The path-style REST provider: queries a geolocation-style API with the
//! IP address as a path segment. Lenient about all missing leaf fields, but
//! distinguishes transport and body failures from the API's own in-band
//! error objects.

use vstd::prelude::*;
use vstd::string::StringExecFns;
use crate::client::Asn;
use crate::client::build_http_client_with_agent;
use crate::client::http_get;
use crate::client::map_reqwest_error;
use crate::client::response_body_text;
use crate::client::response_is_success;
use crate::client::response_status_text;
use crate::json::JsonValue;
use crate::json::json_get_spec;
use crate::json::parse_json;
use crate::json::parsed_json;
use crate::types::AsnInfo;
use crate::types::AsnInfoView;
use crate::types::ErrorKind;
use crate::types::LookupError;
use crate::types::LookupErrorView;

verus! {

/// ipapi.co ASN lookup client: holds its HTTP transport, the base URL, and
/// the optional API key, all fixed at construction. The key is an
/// already-resolved configuration value; reading the environment belongs to
/// the caller.
pub struct IPApi {
    client: reqwest::blocking::Client,
    base_url: String,
    api_key: Option<String>,
    timeout_secs: u64,
    user_agent: String,
}

/// The production endpoint queried when no override is given.
pub open spec fn ipapi_default_base_spec() -> Seq<char> {
    "https://ipapi.co"@
}

/// The User-Agent header every client of this provider is built with.
pub open spec fn ipapi_user_agent_spec() -> Seq<char> {
    "asn-fetcher/0.1.1"@
}

/// The request URL: the IP address as a path segment below the base URL,
/// with the API key as a query parameter when one is configured.
pub open spec fn ipapi_url_spec(base: Seq<char>, ip: Seq<char>, key: Option<Seq<char>>) -> Seq<
    char,
> {
    match key {
        Some(k) => base + "/"@ + ip + "/json?key="@ + k,
        None => base + "/"@ + ip + "/json"@,
    }
}

/// The error reported for a non-success HTTP status, embedding the
/// status's textual form.
pub open spec fn http_status_err(status: Seq<char>) -> LookupErrorView {
    LookupErrorView { kind: ErrorKind::Other, message: "HTTP error: "@ + status }
}

/// The error reported when the body is not JSON, embedding the raw body
/// verbatim (the common case being a plaintext rate-limit notice).
pub open spec fn non_json_err(body: Seq<char>) -> LookupErrorView {
    LookupErrorView {
        kind: ErrorKind::InvalidData,
        message: "API returned non-JSON response: "@ + body,
    }
}

/// Whether the parsed response is an in-band API error object: a boolean
/// `error` member equal to true.
pub open spec fn ipapi_is_error(v: JsonValue) -> bool {
    json_get_spec(v, "error"@) == Some(JsonValue::Bool(true))
}

/// The reason of an in-band API error: its `reason` string when present,
/// else `Unknown error`.
pub open spec fn ipapi_reason_text(v: JsonValue) -> Seq<char> {
    match json_get_spec(v, "reason"@) {
        Some(JsonValue::Str(s)) => s@,
        _ => "Unknown error"@,
    }
}

/// The error reported for an in-band API error object.
pub open spec fn api_error_err(v: JsonValue) -> LookupErrorView {
    LookupErrorView { kind: ErrorKind::Other, message: "API error: "@ + ipapi_reason_text(v) }
}

/// The text of a leaf field on the success path: the string under `key`
/// when present, else the sentinel `Unknown`. No leaf field ever fails a
/// successful call.
pub open spec fn ipapi_field_text(v: JsonValue, key: Seq<char>) -> Seq<char> {
    match json_get_spec(v, key) {
        Some(JsonValue::Str(s)) => s@,
        _ => "Unknown"@,
    }
}

/// The provider's whole reading of a parsed response: an in-band error
/// object fails the call; anything else succeeds with exactly one record
/// taken from the `asn` and `org` fields.
pub open spec fn ipapi_interpret_spec(v: JsonValue) -> Result<Seq<AsnInfoView>, LookupErrorView> {
    if ipapi_is_error(v) {
        Err(api_error_err(v))
    } else {
        Ok(
            seq![
                AsnInfoView {
                    asn: ipapi_field_text(v, "asn"@),
                    holder: ipapi_field_text(v, "org"@),
                },
            ],
        )
    }
}

/// Law: the interpretation of a parsed response succeeds exactly where the
/// response is not an in-band error object — no missing leaf field ever
/// fails the success path — and a success carries exactly one record.
pub proof fn lemma_ipapi_interpretation_cases(v: JsonValue)
    ensures
        ipapi_interpret_spec(v) is Ok <==> !ipapi_is_error(v),
        ipapi_interpret_spec(v) matches Ok(recs) ==> recs.len() == 1,
        ipapi_interpret_spec(v) matches Err(e) ==> e == api_error_err(v),
{
}

/// The provider's reading of a raw response body: a body that is not JSON
/// is `InvalidData` carrying the body verbatim, any other is read by
/// `ipapi_interpret_spec`.
pub open spec fn ipapi_body_outcome(body: Seq<char>) -> Result<Seq<AsnInfoView>, LookupErrorView> {
    match parsed_json(body) {
        None => Err(non_json_err(body)),
        Some(v) => ipapi_interpret_spec(v),
    }
}

impl IPApi {
    /// The characters of the base URL this client queries.
    pub closed spec fn spec_base_url(&self) -> Seq<char> {
        self.base_url@
    }

    /// The configured API key's characters, if one was given.
    pub closed spec fn spec_api_key(&self) -> Option<Seq<char>> {
        match self.api_key {
            Some(k) => Some(k@),
            None => None,
        }
    }

    /// The request timeout in seconds this client was built with.
    pub closed spec fn spec_timeout_secs(&self) -> u64 {
        self.timeout_secs
    }

    /// The characters of the User-Agent header this client was built with.
    pub closed spec fn spec_user_agent(&self) -> Seq<char> {
        self.user_agent@
    }

    /// The request timeout in seconds this client was built with.
    pub fn timeout_secs(&self) -> (t: u64)
        ensures
            t == self.spec_timeout_secs(),
    {
        self.timeout_secs
    }

    /// The User-Agent header this client was built with.
    pub fn user_agent(&self) -> (r: &String)
        ensures
            r@ == self.spec_user_agent(),
    {
        &self.user_agent
    }

    /// Creates a client against the production endpoint with the default
    /// 10-second timeout and no API key. Fails only if the HTTP transport
    /// cannot be built, and then with the error mapper's classification.
    pub fn new() -> (r: Result<IPApi, LookupError>)
        ensures
            r matches Ok(p) ==> p.spec_base_url() == ipapi_default_base_spec()
                && p.spec_api_key() is None && p.spec_timeout_secs() == 10 && p.spec_user_agent()
                == ipapi_user_agent_spec(),
            r matches Err(e) ==> e@.kind == ErrorKind::Timeout || e@.kind
                == ErrorKind::ConnectionRefused || e@.kind == ErrorKind::Other,
    {
        Self::with_api_key(String::from_str("https://ipapi.co"), 10, None)
    }

    /// Creates a client against `base_url` with the given request timeout
    /// in seconds and no API key.
    pub fn with_config(base_url: String, timeout_secs: u64) -> (r: Result<IPApi, LookupError>)
        ensures
            r matches Ok(p) ==> p.spec_base_url() == base_url@ && p.spec_api_key() is None
                && p.spec_timeout_secs() == timeout_secs && p.spec_user_agent()
                == ipapi_user_agent_spec(),
            r matches Err(e) ==> e@.kind == ErrorKind::Timeout || e@.kind
                == ErrorKind::ConnectionRefused || e@.kind == ErrorKind::Other,
    {
        Self::with_api_key(base_url, timeout_secs, None)
    }

    /// Creates a client against `base_url` with the given timeout and an
    /// optional API key to append to every request, all fixed for the
    /// instance's lifetime. Fails only if the HTTP transport cannot be
    /// built, and then with the error mapper's classification.
    pub fn with_api_key(base_url: String, timeout_secs: u64, api_key: Option<String>) -> (r:
        Result<IPApi, LookupError>)
        ensures
            r matches Ok(p) ==> p.spec_base_url() == base_url@ && p.spec_timeout_secs()
                == timeout_secs && p.spec_user_agent() == ipapi_user_agent_spec()
                && p.spec_api_key() == (match api_key {
                Some(k) => Some::<Seq<char>>(k@),
                None => None::<Seq<char>>,
            }),
            r matches Err(e) ==> e@.kind == ErrorKind::Timeout || e@.kind
                == ErrorKind::ConnectionRefused || e@.kind == ErrorKind::Other,
    {
        let user_agent = String::from_str("asn-fetcher/0.1.1");
        match build_http_client_with_agent(timeout_secs, user_agent.as_str()) {
            Ok(client) => Ok(IPApi { client, base_url, api_key, timeout_secs, user_agent }),
            Err(e) => Err(map_reqwest_error(e)),
        }
    }

    /// Builds the error for a non-success HTTP status, following
    /// `http_status_err`: kind `Other`, the status's textual form embedded.
    pub fn status_failure(status: &str) -> (r: LookupError)
        ensures
            r@ == http_status_err(status@),
    {
        let mut msg = String::from_str("HTTP error: ");
        msg.append(status);
        LookupError::new(ErrorKind::Other, msg)
    }

    /// Builds the request URL for `ip`, following `ipapi_url_spec`.
    pub fn request_url(&self, ip: &str) -> (u: String)
        ensures
            u@ == ipapi_url_spec(self.spec_base_url(), ip@, self.spec_api_key()),
    {
        let mut url = self.base_url.clone();
        url.append("/");
        url.append(ip);
        match &self.api_key {
            Some(k) => {
                url.append("/json?key=");
                url.append(k.as_str());
            },
            None => {
                url.append("/json");
            },
        };
        url
    }

    /// Reads a parsed response tree, following `ipapi_interpret_spec`.
    pub fn interpret_response(v: &JsonValue) -> (r: Result<Vec<AsnInfo>, LookupError>)
        ensures
            match r {
                Ok(recs) => ipapi_interpret_spec(*v) == Ok::<Seq<AsnInfoView>, LookupErrorView>(
                    recs.deep_view(),
                ),
                Err(e) => ipapi_interpret_spec(*v) == Err::<Seq<AsnInfoView>, LookupErrorView>(e@),
            },
    {
        let is_err = match v.get("error") {
            Some(field) => match field {
                JsonValue::Bool(b) => *b,
                _ => false,
            },
            None => false,
        };
        if is_err {
            let reason = match v.get("reason") {
                Some(field) => match field {
                    JsonValue::Str(s) => s.clone(),
                    _ => String::from_str("Unknown error"),
                },
                None => String::from_str("Unknown error"),
            };
            let mut msg = String::from_str("API error: ");
            msg.append(reason.as_str());
            return Err(LookupError::new(ErrorKind::Other, msg));
        }
        let asn = match v.get("asn") {
            Some(field) => match field {
                JsonValue::Str(s) => s.clone(),
                _ => String::from_str("Unknown"),
            },
            None => String::from_str("Unknown"),
        };
        let holder = match v.get("org") {
            Some(field) => match field {
                JsonValue::Str(s) => s.clone(),
                _ => String::from_str("Unknown"),
            },
            None => String::from_str("Unknown"),
        };
        let mut out: Vec<AsnInfo> = Vec::new();
        out.push(AsnInfo { asn, holder });
        proof {
            assert(out.deep_view() =~= seq![
                AsnInfoView {
                    asn: ipapi_field_text(*v, "asn"@),
                    holder: ipapi_field_text(*v, "org"@),
                },
            ]);
        }
        Ok(out)
    }

    /// Reads a raw response body, following `ipapi_body_outcome`.
    pub fn parse_body(body: &str) -> (r: Result<Vec<AsnInfo>, LookupError>)
        ensures
            match r {
                Ok(recs) => ipapi_body_outcome(body@) == Ok::<Seq<AsnInfoView>, LookupErrorView>(
                    recs.deep_view(),
                ),
                Err(e) => ipapi_body_outcome(body@) == Err::<Seq<AsnInfoView>, LookupErrorView>(
                    e@,
                ),
            },
    {
        match parse_json(body) {
            Some(v) => Self::interpret_response(&v),
            None => {
                let mut msg = String::from_str("API returned non-JSON response: ");
                msg.append(body);
                Err(LookupError::new(ErrorKind::InvalidData, msg))
            },
        }
    }

    /// Resolves the records for `ip` (textual IPv4 or IPv6): one GET of the
    /// configured URL, a non-success status failing with its textual form,
    /// and the body read by `ipapi_interpret_spec`. A success carries
    /// exactly one record and is the faithful reading of some response
    /// tree; every failure is a classified transport failure, an HTTP or
    /// in-band API error, or `InvalidData` carrying a non-JSON body.
    pub fn lookup_asn(&self, ip: &str) -> (r: Result<Vec<AsnInfo>, LookupError>)
        ensures
            r matches Ok(recs) ==> recs.deep_view().len() == 1 && (exists|v: JsonValue|
                #[trigger] ipapi_interpret_spec(v) == Ok::<Seq<AsnInfoView>, LookupErrorView>(
                    recs.deep_view(),
                )),
            r matches Err(e) ==> e@.kind == ErrorKind::Timeout || e@.kind
                == ErrorKind::ConnectionRefused || e@.kind == ErrorKind::Other || (e@.kind
                == ErrorKind::InvalidData && (exists|b: Seq<char>|
                e@.message == #[trigger] ("API returned non-JSON response: "@ + b))),
    {
        let url = self.request_url(ip);
        let resp = match http_get(&self.client, url.as_str()) {
            Ok(resp) => resp,
            Err(e) => {
                return Err(map_reqwest_error(e));
            },
        };
        if !response_is_success(&resp) {
            return Err(Self::status_failure(response_status_text(&resp).as_str()));
        }
        let body = match response_body_text(resp) {
            Ok(text) => text,
            Err(e) => {
                return Err(map_reqwest_error(e));
            },
        };
        let result = Self::parse_body(body.as_str());
        proof {
            match &result {
                Ok(recs) => {
                    match parsed_json(body@) {
                        Some(v) => {
                            assert(ipapi_interpret_spec(v) == Ok::<
                                Seq<AsnInfoView>,
                                LookupErrorView,
                            >(recs.deep_view()));
                        },
                        None => {
                            assert(false);
                        },
                    }
                },
                Err(e) => {
                    if e@.kind == ErrorKind::InvalidData {
                        assert(e@.message == "API returned non-JSON response: "@ + body@);
                    }
                },
            }
        }
        result
    }
}

impl Asn for IPApi {
    fn lookup_asn(&self, ip: &str) -> Result<Vec<AsnInfo>, LookupError> {
        IPApi::lookup_asn(self, ip)
    }
}

} // verus!
