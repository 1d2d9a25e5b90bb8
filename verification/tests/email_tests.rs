use auth_service::email::{Email, EmailError};

#[test]
pub fn email_missing_at_symbol_is_invalid() {
    let input = "abc.com".to_owned();
    let output = Email::parse(input);
    match output {
        Ok(_) => {
            panic!("Email should be invalid");
        }
        Err(e) => {
            assert_eq!(e, EmailError::MissingAtSymbol);
        }
    }
}

#[test]
pub fn email_tests_parse_empty_string_fails_as_expected() {
    let input = "".to_owned();
    let output = Email::parse(input);
    match output {
        Ok(_) => {
            panic!("Email should be invalid");
        }
        Err(e) => {
            assert_eq!(e, EmailError::EmptyValue);
        }
    }
}

#[test]
pub fn parse_string_with_whitespace_fails() {
    let input = "john doe@foo.com".to_owned();
    let output = Email::parse(input);
    match output {
        Ok(_) => {
            panic!("Email should be invalid");
        }
        Err(e) => {
            assert_eq!(e, EmailError::BadFormat);
        }
    }
}

#[test]
pub fn email_missing_subject_is_rejected() {
    let input = "@doe@com".to_owned();
    let output = Email::parse(input);
    match output {
        Ok(_) => {
            panic!("Email should be invalid");
        }
        Err(e) => {
            assert_eq!(e, EmailError::BadFormat);
        }
    }
}

#[test]
pub fn parse_string_with_two_at_symbols_fails() {
    let input = "john@doe@com".to_owned();
    let output = Email::parse(input);
    match output {
        Ok(_) => {
            panic!("Email should be invalid");
        }
        Err(e) => {
            assert_eq!(e, EmailError::BadFormat);
        }
    }
}

#[test]
pub fn parse_name_ending_with_period_fails() {
    let input = "john.@doe.com.".to_owned();
    let output = Email::parse(input);
    match output {
        Ok(_) => {
            panic!("Email should be invalid");
        }
        Err(e) => {
            assert_eq!(e, EmailError::BadFormat);
        }
    }
}

#[test]
pub fn parse_string_starting_with_period_fails() {
    let input = ".john@doe.com".to_owned();
    let output = Email::parse(input);
    match output {
        Ok(_) => {
            panic!("Email should be invalid");
        }
        Err(e) => {
            assert_eq!(e, EmailError::BadFormat);
        }
    }
}

#[test]
pub fn parse_where_domain_starts_with_period_fails() {
    let input = "john@.doe.com".to_owned();
    let output = Email::parse(input);
    match output {
        Ok(_) => {
            panic!("Email should be invalid");
        }
        Err(e) => {
            assert_eq!(e, EmailError::BadFormat);
        }
    }
}

#[test]
pub fn parse_where_domain_ends_with_period_fails() {
    let input = "john@doe.com.".to_owned();
    let output = Email::parse(input);
    match output {
        Ok(_) => {
            panic!("Email should be invalid");
        }
        Err(e) => {
            assert_eq!(e, EmailError::BadFormat);
        }
    }
}

#[test]
pub fn parse_unicode_local_part_rejected_by_validator() {
    let mut input = String::new();
    for c in [
        '\u{00FC}', '\u{00F1}', '\u{00EE}', '\u{00E7}', '\u{00F8}', '\u{00F0}', '\u{00E9}',
    ] {
        input.push(c);
    }
    input.push_str("@example.com");
    let output = Email::parse(input);
    match output {
        Ok(_) => {
            panic!("Email should be invalid");
        }
        Err(e) => {
            assert_eq!(e, EmailError::BadFormat);
        }
    }
}

#[test]
pub fn parse_plain_address_succeeds() {
    let email = Email::parse("john@doe.com".to_owned()).unwrap();
    assert_eq!(email.expose_secret(), "john@doe.com");
}

#[test]
pub fn hash_secret_is_stable_hex() {
    let a = Email::parse("a@b.com".to_owned()).unwrap();
    let b = Email::parse("a@b.com".to_owned()).unwrap();
    let c = Email::parse("c@d.com".to_owned()).unwrap();
    let ha = a.hash_secret_twox128();
    assert_eq!(ha.len(), 32);
    assert!(ha.chars().all(|ch| ch.is_ascii_hexdigit()));
    assert!(ha.starts_with("0000000000000000"));
    assert_eq!(ha, b.hash_secret_twox128());
    assert_ne!(ha, c.hash_secret_twox128());
    assert_ne!(ha, "a@b.com");
}
