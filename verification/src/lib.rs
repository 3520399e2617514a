//! Resolves the Autonomous System Number (ASN) and holder organization for an
//! IP address by querying one of several upstream data sources: two REST/JSON
//! HTTP services with incompatible schemas and one whois-style subprocess
//! protocol. Each backend normalizes its answers into one canonical record
//! shape and one error taxonomy; the interpretation of every upstream answer
//! is verified against the contracts stated here.

pub mod client;
pub mod ipapi;
pub mod json;
pub mod ripe;
pub mod select;
pub mod strings;
pub mod teamcymru;
pub mod types;

pub use client::Asn;
pub use client::format_provider_error;
pub use client::map_reqwest_error;
pub use ipapi::IPApi;
pub use json::JsonValue;
pub use ripe::Ripe;
pub use select::ProviderChoice;
pub use select::select_provider;
pub use teamcymru::CommandOutcome;
pub use teamcymru::TeamCymruWhois;
pub use types::AsnInfo;
pub use types::ErrorKind;
pub use types::LookupError;
