use port_scanner::settings::{parse_count, parse_yes_no, prompt_settings, SettingsError};

#[test]
fn valid_answers_give_settings() {
    let s = prompt_settings("100", "3", "y", "No", "YES", "out.txt").unwrap();
    assert_eq!(s.concurrency, 100);
    assert_eq!(s.timeout_secs, 3);
    assert!(s.show_only_open);
    assert!(!s.verbose);
    assert!(s.scan_udp_enabled);
    assert_eq!(s.output_file, "out.txt");
}

#[test]
fn each_bad_answer_names_its_error() {
    assert_eq!(prompt_settings("0", "3", "y", "n", "n", "o").unwrap_err(), SettingsError::Concurrency);
    assert_eq!(prompt_settings("x", "3", "y", "n", "n", "o").unwrap_err(), SettingsError::Concurrency);
    assert_eq!(prompt_settings("5", "0", "y", "n", "n", "o").unwrap_err(), SettingsError::Timeout);
    assert_eq!(prompt_settings("5", "", "y", "n", "n", "o").unwrap_err(), SettingsError::Timeout);
    assert_eq!(prompt_settings("5", "1", "maybe", "n", "n", "o").unwrap_err(), SettingsError::ShowOnlyOpen);
    assert_eq!(prompt_settings("5", "1", "y", "", "n", "o").unwrap_err(), SettingsError::Verbose);
    assert_eq!(prompt_settings("5", "1", "y", "n", "yess", "o").unwrap_err(), SettingsError::ScanUdp);
    assert_eq!(prompt_settings("5", "1", "y", "n", "n", "").unwrap_err(), SettingsError::OutputFile);
}

#[test]
fn counts_parse_in_range_only() {
    assert_eq!(parse_count("1", 10), Some(1));
    assert_eq!(parse_count("10", 10), Some(10));
    assert_eq!(parse_count("11", 10), None);
    assert_eq!(parse_count("007", 10), Some(7));
    assert_eq!(parse_count("0", 10), None);
    assert_eq!(parse_count("", 10), None);
    assert_eq!(parse_count("-1", 10), None);
    assert_eq!(parse_count("1 ", 10), None);
    assert_eq!(parse_count("18446744073709551615", u64::MAX), Some(u64::MAX));
    assert_eq!(parse_count("18446744073709551616", u64::MAX), None);
}

#[test]
fn yes_no_answers() {
    for a in ["y", "Y", "yes", "YeS"] {
        assert_eq!(parse_yes_no(a), Some(true));
    }
    for a in ["n", "N", "no", "nO"] {
        assert_eq!(parse_yes_no(a), Some(false));
    }
    for a in ["", "ye", "nope", "x", "yes "] {
        assert_eq!(parse_yes_no(a), None);
    }
}
