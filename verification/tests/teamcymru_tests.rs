use asn_fetcher::CommandOutcome;
use asn_fetcher::ErrorKind;
use asn_fetcher::TeamCymruWhois;

#[test]
fn test_teamcymru_default() {
    // Verify that default construction works
    let whois = TeamCymruWhois;
    // Ensure the instance is usable (no panic during construction)
    let _ = whois;

    // Verify the associated constants remain as expected
    assert_eq!(TeamCymruWhois::CMD, "whois");
    assert_eq!(TeamCymruWhois::SERVER, "whois.cymru.com");
}

#[test]
fn test_parse_asn_info_valid() {
    let line = "3561    | 216.90.108.31    | CENTURYLINK-LEGACY-SAVVIS, US".to_string();
    let result = TeamCymruWhois::parse_asn_info(line);

    assert!(result.is_some());
    let asn_info = result.unwrap();
    assert_eq!(asn_info.asn, "3561");
    assert_eq!(asn_info.holder, "CENTURYLINK-LEGACY-SAVVIS, US");
}

#[test]
fn test_parse_asn_info_with_spaces() {
    let line = "  15169  |  8.8.8.8  |  GOOGLE, US  ".to_string();
    let result = TeamCymruWhois::parse_asn_info(line);

    assert!(result.is_some());
    let asn_info = result.unwrap();
    assert_eq!(asn_info.asn, "15169");
    assert_eq!(asn_info.holder, "GOOGLE, US");
}

#[test]
fn test_parse_asn_info_invalid_format() {
    let line = "invalid line without pipes".to_string();
    let result = TeamCymruWhois::parse_asn_info(line);
    assert!(result.is_none());
}

#[test]
fn test_parse_asn_info_too_few_parts() {
    let line = "3561 | 216.90.108.31".to_string();
    let result = TeamCymruWhois::parse_asn_info(line);
    assert!(result.is_none());
}

#[test]
fn test_parse_asn_info_empty_string() {
    let line = "".to_string();
    let result = TeamCymruWhois::parse_asn_info(line);
    assert!(result.is_none());
}

#[test]
fn test_parse_asn_info_with_special_characters() {
    let line = "64512 | 192.168.1.1 | TEST-ASN (Example), US/CA".to_string();
    let result = TeamCymruWhois::parse_asn_info(line);

    assert!(result.is_some());
    let asn_info = result.unwrap();
    assert_eq!(asn_info.asn, "64512");
    assert_eq!(asn_info.holder, "TEST-ASN (Example), US/CA");
}

#[test]
fn test_parse_output_header_and_record() {
    let stdout = "AS | IP | AS Name\n3561    | 216.90.108.31    | CENTURYLINK-LEGACY-SAVVIS, US";
    let records = TeamCymruWhois::parse_output(stdout);
    assert_eq!(records.len(), 1);
    assert_eq!(records[0].asn, "3561");
    assert_eq!(records[0].holder, "CENTURYLINK-LEGACY-SAVVIS, US");
}

#[test]
fn test_parse_output_drops_short_line() {
    let stdout =
        "AS | IP | AS Name\n3561    | 216.90.108.31    | CENTURYLINK-LEGACY-SAVVIS, US\n3561 | 216.90.108.31";
    let records = TeamCymruWhois::parse_output(stdout);
    assert_eq!(records.len(), 1);
    assert_eq!(records[0].asn, "3561");
    assert_eq!(records[0].holder, "CENTURYLINK-LEGACY-SAVVIS, US");
}

#[test]
fn test_parse_output_empty() {
    let records = TeamCymruWhois::parse_output("");
    assert_eq!(records.len(), 0);
}

#[test]
fn test_parse_output_header_only() {
    let records = TeamCymruWhois::parse_output("AS | IP | AS Name\n");
    assert_eq!(records.len(), 0);
}

#[test]
fn test_parse_output_crlf_lines() {
    let stdout = "AS | IP | AS Name\r\n15169 | 8.8.8.8 | GOOGLE, US\r\n";
    let records = TeamCymruWhois::parse_output(stdout);
    assert_eq!(records.len(), 1);
    assert_eq!(records[0].asn, "15169");
    assert_eq!(records[0].holder, "GOOGLE, US");
}

#[test]
fn test_interpret_command_spawn_failed() {
    let outcome = CommandOutcome::SpawnFailed {
        os_error: "No such file or directory (os error 2)".to_string(),
    };
    let result = TeamCymruWhois::interpret_command(&outcome);
    assert!(result.is_err());
    let err = result.unwrap_err();
    assert_eq!(err.kind(), ErrorKind::Other);
    assert_eq!(
        err.message_text().as_str(),
        "[TeamCymruWhois] Command failed: No such file or directory (os error 2), is whois installed?"
    );
}

#[test]
fn test_interpret_command_nonzero_exit() {
    let outcome = CommandOutcome::Finished {
        success: false,
        stdout: String::new(),
        stderr: "  fgets: connection refused\n".to_string(),
    };
    let result = TeamCymruWhois::interpret_command(&outcome);
    assert!(result.is_err());
    let err = result.unwrap_err();
    assert_eq!(err.kind(), ErrorKind::Other);
    assert_eq!(
        err.message_text().as_str(),
        "[TeamCymruWhois] Command failed: fgets: connection refused"
    );
}

#[test]
fn test_interpret_command_success() {
    let outcome = CommandOutcome::Finished {
        success: true,
        stdout: "AS | IP | AS Name\n13335 | 1.1.1.1 | CLOUDFLARENET, US\n".to_string(),
        stderr: String::new(),
    };
    let result = TeamCymruWhois::interpret_command(&outcome);
    assert!(result.is_ok());
    let records = result.unwrap();
    assert_eq!(records.len(), 1);
    assert_eq!(records[0].asn, "13335");
    assert_eq!(records[0].holder, "CLOUDFLARENET, US");
}
