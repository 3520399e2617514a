//! The resource-query REST provider: queries a prefix-overview style API
//! and reads records out of its `data.asns` array. Strict about the
//! container fields, lenient about each record's leaf fields.

use vstd::prelude::*;
use vstd::string::StringExecFns;
use crate::client::Asn;
use crate::client::build_http_client;
use crate::client::http_get;
use crate::client::map_reqwest_error;
use crate::client::response_body_text;
use crate::json::JsonValue;
use crate::json::json_get_spec;
use crate::json::parse_json;
use crate::json::parsed_json;
use crate::strings::dec_rep;
use crate::strings::u64_to_decimal;
use crate::types::AsnInfo;
use crate::types::AsnInfoView;
use crate::types::ErrorKind;
use crate::types::LookupError;
use crate::types::LookupErrorView;

verus! {

/// RIPE NCC ASN lookup client: holds its HTTP transport and the server URL
/// fixed at construction.
pub struct Ripe {
    client: reqwest::blocking::Client,
    server_url: String,
    timeout_secs: u64,
}

impl Ripe {
    /// The characters of the server URL this client queries.
    pub closed spec fn spec_server_url(&self) -> Seq<char> {
        self.server_url@
    }

    /// The request timeout in seconds this client was built with.
    pub closed spec fn spec_timeout_secs(&self) -> u64 {
        self.timeout_secs
    }
}

/// The production endpoint queried when no override is given.
pub open spec fn ripe_default_url_spec() -> Seq<char> {
    "https://stat.ripe.net/data/prefix-overview/data.json"@
}

/// The request URL: the server URL with the IP address as a `resource`
/// query parameter.
pub open spec fn ripe_url_spec(server: Seq<char>, ip: Seq<char>) -> Seq<char> {
    server + "?resource="@ + ip
}

/// The error reported when the top-level `data` object is absent: a broken
/// or incompatible API answer, unrecoverable.
pub open spec fn missing_data_err() -> LookupErrorView {
    LookupErrorView { kind: ErrorKind::InvalidData, message: "Missing 'data' field in response"@ }
}

/// The error reported when `data.asns` is absent or not an array.
pub open spec fn missing_asns_err() -> LookupErrorView {
    LookupErrorView {
        kind: ErrorKind::InvalidData,
        message: "Missing or invalid 'asns' field in response"@,
    }
}

/// The error reported when the response body is not JSON at all. Such a
/// failure of the transport's data stream is not provider-shaped, so it
/// keeps the `Other` classification of the error mapper.
pub open spec fn ripe_decode_err() -> LookupErrorView {
    LookupErrorView { kind: ErrorKind::Other, message: "Failed to decode response body as JSON"@ }
}

/// The `asn` text for one element of the `asns` array: the decimal digits
/// when the element carries an unsigned `asn` number, the sentinel `N/A`
/// otherwise. Leaf-level absence is expected for obscure allocations and
/// never fails the call.
pub open spec fn ripe_asn_text(elem: JsonValue) -> Seq<char> {
    match json_get_spec(elem, "asn"@) {
        Some(JsonValue::UInt(n)) => dec_rep(n as nat),
        _ => "N/A"@,
    }
}

/// The `holder` text for one element: the `holder` string verbatim when
/// present, the sentinel `Unknown` otherwise.
pub open spec fn ripe_holder_text(elem: JsonValue) -> Seq<char> {
    match json_get_spec(elem, "holder"@) {
        Some(JsonValue::Str(s)) => s@,
        _ => "Unknown"@,
    }
}

/// The record read from one element of the `asns` array.
pub open spec fn ripe_record(elem: JsonValue) -> AsnInfoView {
    AsnInfoView { asn: ripe_asn_text(elem), holder: ripe_holder_text(elem) }
}

/// The provider's whole reading of a parsed response: a missing `data`
/// object or a missing/ill-typed `asns` array is a hard `InvalidData`
/// error; otherwise one record per array element, in order.
pub open spec fn ripe_interpret_spec(v: JsonValue) -> Result<Seq<AsnInfoView>, LookupErrorView> {
    match json_get_spec(v, "data"@) {
        None => Err(missing_data_err()),
        Some(data) => match json_get_spec(data, "asns"@) {
            Some(JsonValue::Array(elems)) => Ok(
                elems@.map_values(|e: JsonValue| ripe_record(e)),
            ),
            _ => Err(missing_asns_err()),
        },
    }
}

/// Whether a parsed response carries both required containers: a top-level
/// `data` object member whose `asns` member is an array.
pub open spec fn ripe_has_containers(v: JsonValue) -> bool {
    match json_get_spec(v, "data"@) {
        Some(data) => json_get_spec(data, "asns"@) matches Some(JsonValue::Array(_)),
        None => false,
    }
}

/// Law: the interpretation of a parsed response succeeds exactly where
/// both required containers are present — leaf fields never fail it — and
/// its only failures are the two stated `InvalidData` errors.
pub proof fn lemma_ripe_interpretation_cases(v: JsonValue)
    ensures
        ripe_interpret_spec(v) is Ok <==> ripe_has_containers(v),
        ripe_interpret_spec(v) matches Err(e) ==> e == missing_data_err() || e
            == missing_asns_err(),
{
}

/// The provider's reading of a raw response body: a body that is not JSON
/// maps to the decode error, any other to `ripe_interpret_spec` of its tree.
pub open spec fn ripe_body_outcome(body: Seq<char>) -> Result<Seq<AsnInfoView>, LookupErrorView> {
    match parsed_json(body) {
        None => Err(ripe_decode_err()),
        Some(v) => ripe_interpret_spec(v),
    }
}

impl Ripe {
    /// The endpoint used by `new`.
    pub fn default_server_url() -> (r: &'static str)
        ensures
            r@ == ripe_default_url_spec(),
    {
        "https://stat.ripe.net/data/prefix-overview/data.json"
    }

    /// The server URL this client queries.
    pub fn server_url(&self) -> (r: &String)
        ensures
            r@ == self.spec_server_url(),
    {
        &self.server_url
    }

    /// The request timeout in seconds this client was built with.
    pub fn timeout_secs(&self) -> (t: u64)
        ensures
            t == self.spec_timeout_secs(),
    {
        self.timeout_secs
    }

    /// Creates a client against the production endpoint with the default
    /// 10-second timeout. Fails only if the HTTP transport cannot be built,
    /// and then with the error mapper's classification.
    pub fn new() -> (r: Result<Ripe, LookupError>)
        ensures
            r matches Ok(p) ==> p.spec_server_url() == ripe_default_url_spec()
                && p.spec_timeout_secs() == 10,
            r matches Err(e) ==> e@.kind == ErrorKind::Timeout || e@.kind
                == ErrorKind::ConnectionRefused || e@.kind == ErrorKind::Other,
    {
        Self::with_config(String::from_str(Self::default_server_url()), 10)
    }

    /// Creates a client against `server_url` with the given request timeout
    /// in seconds, both fixed for the instance's lifetime. Fails only if
    /// the HTTP transport cannot be built, and then with the error mapper's
    /// classification.
    pub fn with_config(server_url: String, timeout_secs: u64) -> (r: Result<Ripe, LookupError>)
        ensures
            r matches Ok(p) ==> p.spec_server_url() == server_url@ && p.spec_timeout_secs()
                == timeout_secs,
            r matches Err(e) ==> e@.kind == ErrorKind::Timeout || e@.kind
                == ErrorKind::ConnectionRefused || e@.kind == ErrorKind::Other,
    {
        match build_http_client(timeout_secs) {
            Ok(client) => Ok(Ripe { client, server_url, timeout_secs }),
            Err(e) => Err(map_reqwest_error(e)),
        }
    }

    /// Builds the request URL for `ip`, following `ripe_url_spec`.
    pub fn request_url(&self, ip: &str) -> (u: String)
        ensures
            u@ == ripe_url_spec(self.spec_server_url(), ip@),
    {
        let mut url = self.server_url.clone();
        url.append("?resource=");
        url.append(ip);
        url
    }

    /// Reads one record out of one element of the `asns` array.
    fn record_of(elem: &JsonValue) -> (r: AsnInfo)
        ensures
            r@ == ripe_record(*elem),
    {
        let asn = match elem.get("asn") {
            Some(field) => match field {
                JsonValue::UInt(n) => u64_to_decimal(*n),
                _ => String::from_str("N/A"),
            },
            None => String::from_str("N/A"),
        };
        let holder = match elem.get("holder") {
            Some(field) => match field {
                JsonValue::Str(s) => s.clone(),
                _ => String::from_str("Unknown"),
            },
            None => String::from_str("Unknown"),
        };
        AsnInfo { asn, holder }
    }

    /// Reads a parsed response tree, following `ripe_interpret_spec`:
    /// container-level absence is a hard error, leaf-level absence falls
    /// back to a sentinel per record.
    pub fn interpret_response(v: &JsonValue) -> (r: Result<Vec<AsnInfo>, LookupError>)
        ensures
            match r {
                Ok(recs) => ripe_interpret_spec(*v) == Ok::<Seq<AsnInfoView>, LookupErrorView>(
                    recs.deep_view(),
                ),
                Err(e) => ripe_interpret_spec(*v) == Err::<Seq<AsnInfoView>, LookupErrorView>(e@),
            },
    {
        let data = match v.get("data") {
            Some(d) => d,
            None => {
                return Err(
                    LookupError::new(
                        ErrorKind::InvalidData,
                        String::from_str("Missing 'data' field in response"),
                    ),
                );
            },
        };
        let elems = match data.get("asns") {
            Some(a) => match a {
                JsonValue::Array(elems) => elems,
                _ => {
                    return Err(
                        LookupError::new(
                            ErrorKind::InvalidData,
                            String::from_str("Missing or invalid 'asns' field in response"),
                        ),
                    );
                },
            },
            None => {
                return Err(
                    LookupError::new(
                        ErrorKind::InvalidData,
                        String::from_str("Missing or invalid 'asns' field in response"),
                    ),
                );
            },
        };
        let n: usize = elems.len();
        let mut out: Vec<AsnInfo> = Vec::new();
        let mut i: usize = 0;
        while i < n
            invariant
                0 <= i <= n,
                n == elems@.len(),
                out.deep_view().len() == i,
                forall|j: int| 0 <= j < i ==> out.deep_view()[j] == ripe_record(elems@[j]),
            decreases n - i,
        {
            let ghost prev_deep = out.deep_view();
            let ghost prev = out@;
            let rec = Self::record_of(&elems[i]);
            out.push(rec);
            proof {
                assert forall|j: int| 0 <= j < i + 1 implies out.deep_view()[j] == ripe_record(
                    elems@[j],
                ) by {
                    assert(out.deep_view()[j] == out@[j].deep_view());
                    if j < i {
                        assert(prev_deep[j] == prev[j].deep_view());
                        assert(out@[j] == prev[j]);
                    }
                }
            }
            i = i + 1;
        }
        proof {
            assert(out.deep_view() =~= elems@.map_values(|e: JsonValue| ripe_record(e)));
        }
        Ok(out)
    }

    /// Reads a raw response body, following `ripe_body_outcome`.
    pub fn parse_body(body: &str) -> (r: Result<Vec<AsnInfo>, LookupError>)
        ensures
            match r {
                Ok(recs) => ripe_body_outcome(body@) == Ok::<Seq<AsnInfoView>, LookupErrorView>(
                    recs.deep_view(),
                ),
                Err(e) => ripe_body_outcome(body@) == Err::<Seq<AsnInfoView>, LookupErrorView>(e@),
            },
    {
        match parse_json(body) {
            Some(v) => Self::interpret_response(&v),
            None => Err(
                LookupError::new(
                    ErrorKind::Other,
                    String::from_str("Failed to decode response body as JSON"),
                ),
            ),
        }
    }

    /// Resolves the records for `ip` (textual IPv4 or IPv6): one GET of the
    /// configured URL, the body read as JSON and interpreted by
    /// `ripe_interpret_spec`. Whatever the network returns, a success is
    /// the faithful reading of some response tree, and every failure is
    /// either a classified transport failure or one of this provider's
    /// stated data errors.
    pub fn lookup_asn(&self, ip: &str) -> (r: Result<Vec<AsnInfo>, LookupError>)
        ensures
            r matches Ok(recs) ==> exists|v: JsonValue|
                #[trigger] ripe_interpret_spec(v) == Ok::<Seq<AsnInfoView>, LookupErrorView>(
                    recs.deep_view(),
                ),
            r matches Err(e) ==> e@.kind == ErrorKind::Timeout || e@.kind
                == ErrorKind::ConnectionRefused || e@.kind == ErrorKind::Other || e@
                == missing_data_err() || e@ == missing_asns_err(),
    {
        let url = self.request_url(ip);
        let resp = match http_get(&self.client, url.as_str()) {
            Ok(resp) => resp,
            Err(e) => {
                return Err(map_reqwest_error(e));
            },
        };
        let body = match response_body_text(resp) {
            Ok(text) => text,
            Err(e) => {
                return Err(map_reqwest_error(e));
            },
        };
        let result = Self::parse_body(body.as_str());
        proof {
            match &result {
                Ok(recs) => {
                    match parsed_json(body@) {
                        Some(v) => {
                            assert(ripe_interpret_spec(v) == Ok::<
                                Seq<AsnInfoView>,
                                LookupErrorView,
                            >(recs.deep_view()));
                        },
                        None => {
                            assert(false);
                        },
                    }
                },
                Err(_) => {},
            }
        }
        result
    }
}

impl Asn for Ripe {
    fn lookup_asn(&self, ip: &str) -> Result<Vec<AsnInfo>, LookupError> {
        Ripe::lookup_asn(self, ip)
    }
}

} // verus!
