use invite_auth::errors::ServiceError;
use invite_auth::password::{
    accept_verdict, hash_password, hashed_or_internal, hashing_cost, parse_work_factor,
    verify_password, DEFAULT_COST,
};

#[test]
fn hashed_password_verifies() {
    let hashed = hash_password("correct horse", 4).unwrap();
    assert!(verify_password("correct horse", &hashed));
}

#[test]
fn other_password_does_not_verify() {
    let hashed = hash_password("correct horse", 4).unwrap();
    assert!(!verify_password("battery staple", &hashed));
    assert!(!verify_password("", &hashed));
}

#[test]
fn hash_is_not_the_plaintext_and_is_salted() {
    let first = hash_password("hunter2", 4).unwrap();
    let second = hash_password("hunter2", 4).unwrap();
    assert_ne!(first, "hunter2");
    assert_ne!(first, second);
    assert_eq!(first.len(), 60);
    assert!(verify_password("hunter2", &first));
    assert!(verify_password("hunter2", &second));
}

#[test]
fn known_credentials_verify() {
    let stored = "$2a$04$UuTkLRZZ6QofpDOlMz32MuuxEHA43WOemOYHPz6.SjsVsyO1tDU96";
    assert!(verify_password("password", stored));
    assert!(!verify_password("Password", stored));
    let other = "$2b$04$EGdrhbKUv8Oc9vGiXX0HQOxSg445d458Muh7DAHskb6QbtCvdxcie";
    assert!(verify_password("correctbatteryhorsestapler", other));
    assert!(!verify_password("password", other));
}

#[test]
fn corrupt_credential_counts_as_mismatch() {
    assert!(!verify_password("password", ""));
    assert!(!verify_password("password", "password"));
    assert!(!verify_password("password", "$2a$04$tooshort"));
    assert!(!verify_password(
        "password",
        "$9z$04$UuTkLRZZ6QofpDOlMz32MuuxEHA43WOemOYHPz6.SjsVsyO1tDU96"
    ));
}

#[test]
fn cost_out_of_range_is_internal_error() {
    assert_eq!(hash_password("pw", 3), Err(ServiceError::InternalError));
    assert_eq!(hash_password("pw", 32), Err(ServiceError::InternalError));
    assert_eq!(hash_password("pw", 0), Err(ServiceError::InternalError));
}

#[test]
fn cost_defaults_when_not_configured() {
    assert_eq!(DEFAULT_COST, 12);
    assert_eq!(hashing_cost(None), 12);
    assert_eq!(hashing_cost(Some("6")), 6);
    assert_eq!(hashing_cost(Some("0")), 0);
    assert_eq!(hashing_cost(Some("ten")), 12);
    assert_eq!(hashing_cost(Some("")), 12);
    assert_eq!(hashing_cost(Some("4294967296")), 12);
}

#[test]
fn work_factor_is_read_as_a_decimal_number() {
    assert_eq!(parse_work_factor("10"), Some(10));
    assert_eq!(parse_work_factor("+10"), Some(10));
    assert_eq!(parse_work_factor("007"), Some(7));
    assert_eq!(parse_work_factor("0"), Some(0));
    assert_eq!(parse_work_factor("4294967295"), Some(4_294_967_295));
    assert_eq!(parse_work_factor("4294967296"), None);
    assert_eq!(parse_work_factor("99999999999999999999999"), None);
    assert_eq!(parse_work_factor(""), None);
    assert_eq!(parse_work_factor("+"), None);
    assert_eq!(parse_work_factor("++1"), None);
    assert_eq!(parse_work_factor("-1"), None);
    assert_eq!(parse_work_factor(" 5"), None);
    assert_eq!(parse_work_factor("5 "), None);
    assert_eq!(parse_work_factor("1e3"), None);
    assert_eq!(parse_work_factor("1\u{663}"), None);
}

#[test]
fn work_factor_is_read_as_the_standard_parser_reads_it() {
    for text in ["12", "+4", "031", "", "+", "-3", "4294967295", "4294967296", "x", "1_000"] {
        assert_eq!(parse_work_factor(text), text.parse::<u32>().ok());
    }
}

#[test]
fn only_a_positive_verdict_is_accepted() {
    assert!(accept_verdict(Some(true)));
    assert!(!accept_verdict(Some(false)));
    assert!(!accept_verdict(None));
}

#[test]
fn hashing_failure_becomes_internal_error() {
    assert_eq!(hashed_or_internal(None), Err(ServiceError::InternalError));
    assert_eq!(hashed_or_internal(Some("abc".to_string())), Ok("abc".to_string()));
}
