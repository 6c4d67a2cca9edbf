use nature_iq::config::ConfigurationError;
use nature_iq::config::api_key_header;
use nature_iq::config::base_url;
use nature_iq::config::is_valid_header_value;
use nature_iq::config::make_api_key;

#[test]
fn missing_credential_is_configuration_error() {
    let r = make_api_key(None);
    assert_eq!(r.err(), Some(ConfigurationError::MissingKey));
}

#[test]
fn illegal_credential_is_configuration_error() {
    let r = make_api_key(Some(String::from("bad\nvalue")));
    assert_eq!(r.err(), Some(ConfigurationError::InvalidHeaderValue));
}

#[test]
fn good_credential_is_kept_unchanged() {
    let r = make_api_key(Some(String::from("abc-123 DEF")));
    let key = r.ok().expect("a plain credential should be accepted");
    assert_eq!(key.value, "abc-123 DEF");
}

#[test]
fn header_value_legality_matches_the_header_rule() {
    assert!(is_valid_header_value(""));
    assert!(is_valid_header_value("token"));
    assert!(is_valid_header_value("with\ttab"));
    assert!(is_valid_header_value("caf\u{e9}"));
    assert!(!is_valid_header_value("line\nbreak"));
    assert!(!is_valid_header_value("carriage\rreturn"));
    assert!(!is_valid_header_value("del\u{7f}char"));
    assert!(!is_valid_header_value("\u{0}"));
}

#[test]
fn accepted_credentials_are_valid_reqwest_header_values() {
    for candidate in ["plain", "with\ttab", "caf\u{e9}", "line\nbreak", "del\u{7f}char"] {
        let ours = make_api_key(Some(String::from(candidate))).is_ok();
        let theirs = reqwest::header::HeaderValue::from_str(candidate).is_ok();
        assert_eq!(ours, theirs, "disagreement on {candidate:?}");
    }
}

#[test]
fn endpoint_constants_are_fixed() {
    assert_eq!(base_url(), "https://api.openaq.org/");
    assert_eq!(api_key_header(), "X-API-Key");
}
