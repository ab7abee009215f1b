use redbookmaster::metadata::{CdText, Isrc, Mcn};

#[test]
fn test_isrc_valid() {
    let isrc = Isrc::new("US-ABC-24-12345").unwrap();
    assert_eq!(isrc.country(), "US");
    assert_eq!(isrc.registrant(), "ABC");
    assert_eq!(isrc.year(), "24");
    assert_eq!(isrc.designation(), "12345");
    assert_eq!(isrc.formatted(), "US-ABC-24-12345");
}

#[test]
fn test_isrc_invalid_length() {
    assert!(Isrc::new("US-ABC-24-1234").is_err());
}

#[test]
fn test_isrc_invalid_country() {
    assert!(Isrc::new("12-ABC-24-12345").is_err());
}

#[test]
fn test_mcn_valid() {
    // Example EAN-13: 5901234123457
    let mcn = Mcn::new("5901234123457").unwrap();
    assert_eq!(mcn.as_str(), "5901234123457");
}

#[test]
fn test_mcn_invalid_check_digit() {
    assert!(Mcn::new("5901234123456").is_err());
}

#[test]
fn test_cd_text_empty() {
    let cdtext = CdText::new();
    assert!(cdtext.is_empty());
}

#[test]
fn isrc_lowercase_input_is_uppercased() {
    let isrc = Isrc::new("us-abc-24-12345").unwrap();
    assert_eq!(isrc.as_str(), "USABC2412345");
    assert_eq!(isrc.to_display_string(), "US-ABC-24-12345");
}

#[test]
fn isrc_invalid_registrant_and_year() {
    assert!(Isrc::new("US-A_C-24-12345").is_err());
    assert!(Isrc::new("US-ABC-2X-12345").is_err());
    assert!(Isrc::new("US-ABC-24-1234X").is_err());
}

#[test]
fn isrc_try_new_matches_new() {
    match Isrc::try_new("GB-XYZ-99-00001") {
        Some(Ok(i)) => assert_eq!(i.formatted(), "GB-XYZ-99-00001"),
        _ => panic!("expected a valid code"),
    }
    match Isrc::try_new("GB-XYZ-99-0000") {
        Some(Err(_)) => {}
        _ => panic!("expected an invalid code"),
    }
}

#[test]
fn mcn_wrong_length_and_letters() {
    assert!(Mcn::new("590123412345").is_err());
    assert!(Mcn::new("590123412345A").is_err());
    assert!(Mcn::new("0000000000000").is_ok());
    assert_eq!(Mcn::new("4006381333931").unwrap().to_display_string(), "4006381333931");
}

#[test]
fn cd_text_with_title_is_not_empty() {
    let mut t = CdText::new();
    t.title = Some("Title".to_string());
    assert!(!t.is_empty());
}

#[test]
fn isrc_cutting_checks() {
    let ok = Isrc::new("US-ABC-24-12345").unwrap();
    assert!(ok.is_sliceable());
    assert!(ok.is_checkable());
    let short = Isrc::from_raw("US".to_string());
    assert!(!short.is_sliceable());
    assert!(short.is_checkable());
    // 12 bytes with a two-byte character across the country/registrant cut.
    let odd = Isrc::from_raw("Aé345678901".to_string());
    assert!(!odd.is_checkable());
    assert!(Isrc::try_new("Aé345678901").is_none());
}

#[test]
fn formatted_isrc_reads_back_as_the_same_code() {
    for code in ["US-ABC-24-12345", "gbxyz9900001", "fr-a1b-00-99999"] {
        let isrc = Isrc::new(code).unwrap();
        let f = isrc.formatted();
        assert_eq!(f.len(), 15);
        assert_eq!(f.as_bytes()[2], b'-');
        assert_eq!(f.as_bytes()[6], b'-');
        assert_eq!(f.as_bytes()[9], b'-');
        assert_eq!(f.replace('-', ""), isrc.as_str());
        assert_eq!(Isrc::new(&f).unwrap(), isrc);
    }
}
