//! The provider selector: a pure, case-sensitive mapping from a
//! caller-supplied source identifier to a provider, with a silent fallback
//! to the default provider for unrecognized identifiers.

use vstd::prelude::*;
use crate::strings::str_eq;

verus! {

/// The three concrete providers a source identifier can name.
#[derive(Debug, Clone, Copy, PartialEq, Eq, Structural)]
pub enum ProviderChoice {
    Ripe,
    IPApi,
    CymruWhois,
}

/// The provider chosen for a source identifier, and whether the choice fell
/// back to the default for an unrecognized identifier (the caller then owes
/// the user an advisory notice).
pub open spec fn select_provider_spec(source: Seq<char>) -> (ProviderChoice, bool) {
    if source == "ipapi"@ {
        (ProviderChoice::IPApi, false)
    } else if source == "cymru-whois"@ {
        (ProviderChoice::CymruWhois, false)
    } else if source == "ripe"@ {
        (ProviderChoice::Ripe, false)
    } else {
        (ProviderChoice::Ripe, true)
    }
}

/// Maps a source identifier to its provider, following
/// `select_provider_spec`: `ipapi` and `cymru-whois` name their providers;
/// `ripe` and every unrecognized identifier resolve to the default
/// provider, the latter with the fallback flag set.
pub fn select_provider(source: &str) -> (r: (ProviderChoice, bool))
    ensures
        r == select_provider_spec(source@),
{
    if str_eq(source, "ipapi") {
        (ProviderChoice::IPApi, false)
    } else if str_eq(source, "cymru-whois") {
        (ProviderChoice::CymruWhois, false)
    } else if str_eq(source, "ripe") {
        (ProviderChoice::Ripe, false)
    } else {
        (ProviderChoice::Ripe, true)
    }
}

/// Law: an unrecognized source identifier resolves to the default provider
/// without error, only flagging the fallback.
pub proof fn lemma_unrecognized_falls_back(source: Seq<char>)
    requires
        source != "ipapi"@,
        source != "cymru-whois"@,
    ensures
        select_provider_spec(source).0 == ProviderChoice::Ripe,
{
}

} // verus!
