use auth_service::password::{Password, PasswordError, PasswordPolicy};

#[test]
pub fn password_tests_parse_empty_string_fails_as_expected() {
    let input = "";
    let output = Password::parse(input.to_owned(), PasswordPolicy::Production);
    match output {
        Ok(_) => {
            panic!("Password should be invalid");
        }
        Err(e) => {
            assert_eq!(e, PasswordError::BlankValue);
        }
    }
}

#[test]
pub fn password_of_7_characters_is_too_short() {
    let input = "1a3b5c7";
    let output = Password::parse(input.to_owned(), PasswordPolicy::Production);
    match output {
        Ok(_) => {
            panic!("Password should be invalid");
        }
        Err(e) => {
            assert_eq!(e, PasswordError::TooShort);
        }
    }
}

#[test]
pub fn password_without_uppercase_is_insecure() {
    let input = "abcd1234@@";
    let output = Password::parse(input.to_owned(), PasswordPolicy::Production);
    match output {
        Ok(_) => {
            panic!("Password should be invalid");
        }
        Err(e) => {
            assert_eq!(e, PasswordError::Insecure);
        }
    }
}

#[test]
pub fn password_without_lowercase_is_insecure() {
    let input = "ABCD1234@@";
    let output = Password::parse(input.to_owned(), PasswordPolicy::Production);
    match output {
        Ok(_) => {
            panic!("Password should be invalid");
        }
        Err(e) => {
            assert_eq!(e, PasswordError::Insecure);
        }
    }
}

#[test]
pub fn password_without_digits_is_insecure() {
    let input = "ABCDabcd@@";
    let output = Password::parse(input.to_owned(), PasswordPolicy::Production);
    match output {
        Ok(_) => {
            panic!("Password should be invalid");
        }
        Err(e) => {
            assert_eq!(e, PasswordError::Insecure);
        }
    }
}

#[test]
pub fn password_without_symbols_is_insecure() {
    let input = "ABCDabcd1234";
    let output = Password::parse(input.to_owned(), PasswordPolicy::Production);
    match output {
        Ok(_) => {
            panic!("Password should be invalid");
        }
        Err(e) => {
            assert_eq!(e, PasswordError::Insecure);
        }
    }
}

#[test]
pub fn secure_password_is_accepted() {
    let parsed = Password::parse("Passw0rd!".to_owned(), PasswordPolicy::Production).unwrap();
    assert_eq!(parsed.expose(), "Passw0rd!");
}

#[test]
pub fn short_password_is_accepted_under_development_policy() {
    let parsed = Password::parse("abcd".to_owned(), PasswordPolicy::Development).unwrap();
    assert_eq!(parsed.expose(), "abcd");
    let rejected = Password::parse("abc".to_owned(), PasswordPolicy::Development);
    match rejected {
        Ok(_) => {
            panic!("Password should be too short");
        }
        Err(e) => {
            assert_eq!(e, PasswordError::TooShort);
        }
    }
}
