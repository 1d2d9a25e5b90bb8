use auth_service::constants::{make_key, ACTIVE_TOKEN_KEY_PREFIX, BANNED_TOKEN_KEY_PREFIX};
use auth_service::data_stores::{LoginAttemptId, TwoFACode};
use auth_service::obfuscate::{mask_secret, MaskSecret};
use auth_service::smoker::{Helper, Smoker};

#[test]
fn two_fa_code_round_trip() {
    let code = TwoFACode::new();
    let reparsed = TwoFACode::parse(code.as_str().clone()).unwrap();
    assert!(reparsed.is_match(&code));
    assert!(reparsed == code);
}

#[test]
fn two_fa_code_shape() {
    let code = TwoFACode::new();
    assert_eq!(code.as_str().len(), 6);
    assert!(code.as_str().chars().all(|c| c.is_ascii_digit()));
}

#[test]
fn two_fa_code_parse_rejects_bad_shapes() {
    assert!(TwoFACode::parse("12345".to_owned()).is_err());
    assert!(TwoFACode::parse("1234567".to_owned()).is_err());
    assert!(TwoFACode::parse("12345a".to_owned()).is_err());
    assert!(TwoFACode::parse("".to_owned()).is_err());
    let ok = TwoFACode::parse("012345".to_owned()).unwrap();
    assert!(ok.is_match_str("012345"));
}

#[test]
fn login_attempt_id_round_trip_and_normalization() {
    let id = LoginAttemptId::new();
    let reparsed = LoginAttemptId::parse(id.as_str().clone()).unwrap();
    assert!(reparsed.is_match(&id));

    let upper = "67E55044-10B1-426F-9247-BB680E5FE0C8".to_owned();
    let parsed = LoginAttemptId::parse(upper).unwrap();
    assert!(parsed.is_match_str("67e55044-10b1-426f-9247-bb680e5fe0c8"));

    assert!(LoginAttemptId::parse("not-a-uuid".to_owned()).is_err());
}

#[test]
fn fresh_login_attempt_ids_differ() {
    let first = LoginAttemptId::new();
    let second = LoginAttemptId::new();
    assert!(!first.is_match(&second));
}

#[test]
fn make_key_joins_prefix_and_suffix() {
    assert_eq!(make_key(ACTIVE_TOKEN_KEY_PREFIX, "a@b.com"), "2FA:Tokens:Active:a@b.com");
    assert_eq!(make_key(BANNED_TOKEN_KEY_PREFIX, "tok"), "2FA:Tokens:Banned:tok");
}

#[test]
fn mask_secret_keeps_last_four() {
    assert_eq!(mask_secret("abcdefgh"), "****efgh");
    assert_eq!(mask_secret("abcd"), "****");
    assert_eq!(mask_secret("ab"), "**");
    assert_eq!(mask_secret(""), "");
}

#[test]
fn masked_keeps_first_four() {
    assert_eq!("abcdefgh".to_owned().masked(), "abcd****");
    assert_eq!("abc".to_owned().masked(), "***");
}

#[test]
fn smoker_star_displays() {
    let secret = "0123456789abcdefghij".to_owned();
    assert_eq!(secret.number_of_characters_to_reveal(&secret), 7);
    assert_eq!(secret.stars_exact_length(), "*".repeat(20));
    assert_eq!(secret.stars_standard(), "*".repeat(40));
    assert_eq!(secret.stars_leading(), format!("{}{}", "*".repeat(34), "defghij"));
    assert_eq!(secret.stars_trailing(), format!("{}{}", "0123456", "*".repeat(34)));
}
