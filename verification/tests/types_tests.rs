use asn_fetcher::AsnInfo;

#[test]
fn test_asn_info_creation() {
    let info = AsnInfo {
        asn: "AS15169".to_string(),
        holder: "Google LLC".to_string(),
    };
    assert_eq!(info.asn, "AS15169");
    assert_eq!(info.holder, "Google LLC");
}

#[test]
fn test_asn_info_debug() {
    let info = AsnInfo {
        asn: "AS15169".to_string(),
        holder: "Google LLC".to_string(),
    };
    let debug_str = format!("{:?}", info);
    assert!(debug_str.contains("AS15169"));
    assert!(debug_str.contains("Google LLC"));
}

#[test]
fn test_asn_info_equality_by_content() {
    let a = AsnInfo {
        asn: "15169".to_string(),
        holder: "Google LLC".to_string(),
    };
    let b = AsnInfo {
        asn: "15169".to_string(),
        holder: "Google LLC".to_string(),
    };
    let c = AsnInfo {
        asn: "13335".to_string(),
        holder: "Google LLC".to_string(),
    };
    assert!(a == b);
    assert!(a != c);
}
