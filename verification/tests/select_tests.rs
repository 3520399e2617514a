use asn_fetcher::ProviderChoice;
use asn_fetcher::select_provider;

#[test]
fn test_select_ipapi() {
    assert_eq!(select_provider("ipapi"), (ProviderChoice::IPApi, false));
}

#[test]
fn test_select_cymru_whois() {
    assert_eq!(
        select_provider("cymru-whois"),
        (ProviderChoice::CymruWhois, false)
    );
}

#[test]
fn test_select_ripe() {
    assert_eq!(select_provider("ripe"), (ProviderChoice::Ripe, false));
}

#[test]
fn test_select_unrecognized_falls_back() {
    assert_eq!(select_provider("bogus"), (ProviderChoice::Ripe, true));
}

#[test]
fn test_select_is_case_sensitive() {
    assert_eq!(select_provider("IPAPI"), (ProviderChoice::Ripe, true));
}

#[test]
fn test_select_empty_falls_back() {
    assert_eq!(select_provider(""), (ProviderChoice::Ripe, true));
}
