//! The canonical record produced by every provider, and the error taxonomy
//! that every failure is normalized into.

use vstd::prelude::*;

verus! {

/// Information about an Autonomous System Number (ASN): the ASN identifier
/// (usually its decimal digits, e.g. "15169") and the organization that
/// holds it. An immutable value, compared by content.
#[derive(Debug, Clone)]
pub struct AsnInfo {
    /// The ASN identifier (e.g., "15169", or a sentinel such as "N/A")
    pub asn: String,
    /// The organization or entity that holds this ASN
    pub holder: String,
}

/// The mathematical content of an `AsnInfo`: both fields as character
/// sequences.
pub struct AsnInfoView {
    pub asn: Seq<char>,
    pub holder: Seq<char>,
}

impl View for AsnInfo {
    type V = AsnInfoView;

    open spec fn view(&self) -> AsnInfoView {
        AsnInfoView { asn: self.asn@, holder: self.holder@ }
    }
}

impl DeepView for AsnInfo {
    type V = AsnInfoView;

    open spec fn deep_view(&self) -> AsnInfoView {
        self.view()
    }
}

impl PartialEq for AsnInfo {
    fn eq(&self, other: &AsnInfo) -> (r: bool) {
        self.asn == other.asn && self.holder == other.holder
    }
}

impl vstd::std_specs::cmp::PartialEqSpecImpl for AsnInfo {
    open spec fn obeys_eq_spec() -> bool {
        true
    }

    open spec fn eq_spec(&self, other: &AsnInfo) -> bool {
        self@.asn == other@.asn && self@.holder == other@.holder
    }
}

/// The classification of a failed lookup: the four stable kinds that every
/// transport-level or data-level failure is mapped to.
#[derive(Debug, Clone, Copy, PartialEq, Eq, Structural)]
pub enum ErrorKind {
    /// The upstream call exceeded its configured time bound
    Timeout,
    /// The upstream host refused the connection
    ConnectionRefused,
    /// The upstream answered, but its answer breaks the expected shape
    InvalidData,
    /// Any other failure (DNS, TLS, HTTP status, subprocess trouble, ...)
    Other,
}

/// A classified lookup failure with a human-readable message. Messages
/// emitted by a provider itself (as opposed to a low-level transport
/// failure) are prefixed with the provider's name in square brackets.
#[derive(Debug, Clone)]
pub struct LookupError {
    pub kind: ErrorKind,
    pub message: String,
}

/// The mathematical content of a `LookupError`.
pub struct LookupErrorView {
    pub kind: ErrorKind,
    pub message: Seq<char>,
}

impl View for LookupError {
    type V = LookupErrorView;

    open spec fn view(&self) -> LookupErrorView {
        LookupErrorView { kind: self.kind, message: self.message@ }
    }
}

impl DeepView for LookupError {
    type V = LookupErrorView;

    open spec fn deep_view(&self) -> LookupErrorView {
        self.view()
    }
}

impl LookupError {
    /// Builds an error of the given kind carrying the given message.
    pub fn new(kind: ErrorKind, message: String) -> (r: LookupError)
        ensures
            r@.kind == kind,
            r@.message == message@,
    {
        LookupError { kind, message }
    }

    /// The classification of this error.
    pub fn kind(&self) -> (k: ErrorKind)
        ensures
            k == self@.kind,
    {
        self.kind
    }

    /// The human-readable message, for callers that want to display it.
    pub fn message_text(&self) -> (m: &String)
        ensures
            m@ == self@.message,
    {
        &self.message
    }
}

} // verus!
