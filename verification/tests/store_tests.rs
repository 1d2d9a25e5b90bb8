use auth_service::data_stores::{
    LoginAttemptId, TokenStore, TokenStoreError, TwoFACode, TwoFACodeStore, TwoFACodeStoreError,
    UserStore, UserStoreError,
};
use auth_service::email::Email;
use auth_service::hashmap_2fa_code_store::HashmapTwoFACodeStore;
use auth_service::hashmap_user_store::HashmapUserStore;
use auth_service::hashset_token_store::HashSetTokenStore;
use auth_service::password::{Password, PasswordPolicy};
use auth_service::user::User;

fn construct_store_with_test_user() -> (Email, HashmapUserStore) {
    let mut store = HashmapUserStore::default();
    let email = Email::parse("joe@boo.io".to_owned()).unwrap();
    let password = Password::parse("Horse1234!".to_owned(), PasswordPolicy::Production).unwrap();
    let user = User::new(email.clone(), password, false);
    let _ = store.add_user(user);
    (email, store)
}

#[test]
fn test_add_user() {
    let (email, store) = construct_store_with_test_user();
    let hydrate = store.get_user(&email);
    match hydrate {
        Ok(user) => {
            assert!(user.email == email);
            assert_eq!(user.requires_2fa, false);
        }
        Err(_) => {
            panic!("User not found");
        }
    }
}

#[test]
fn test_failed_lookup_returns_user_not_found() {
    let store = HashmapUserStore::default();
    let email = Email::parse("somebody@missing.com".to_owned()).unwrap();
    let missing = store.get_user(&email);
    match missing {
        Err(UserStoreError::UserNotFound) => {
            println!("Correctly failed to find missing user");
        }
        Err(e) => {
            panic!("Unexpected error: {:?}", e);
        }
        Ok(_) => {
            panic!("Missing user located");
        }
    }
}

#[test]
fn test_user_can_be_retrieved_from_store() {
    let (email, store) = construct_store_with_test_user();
    let present = store.get_user(&email);
    match present {
        Err(_) => {
            panic!("User not found");
        }
        Ok(user) => {
            assert!(user.email == email);
        }
    }
}

#[test]
fn test_validate_user() {
    let mut store = HashmapUserStore::default();
    let email = Email::parse("joe@boo.io".to_owned()).unwrap();
    let password = Password::parse("Horse1234!".to_owned(), PasswordPolicy::Production).unwrap();
    let user = User::new(email.clone(), password.clone(), false);
    let _ = store.add_user(user);
    let result = store.validate_user(&email, &password);
    match result {
        Ok(()) => {
            println!("Validated user");
        }
        Err(_) => {
            panic!("User not found");
        }
    }
}

#[test]
fn adding_the_same_email_twice_fails() {
    let (email, mut store) = construct_store_with_test_user();
    let password = Password::parse("Other1234!".to_owned(), PasswordPolicy::Production).unwrap();
    let dup = User::new(email, password, true);
    let result = store.add_user(dup);
    assert_eq!(result, Err(UserStoreError::UserAlreadyExists));
}

#[test]
fn validate_user_with_wrong_password_fails() {
    let (email, store) = construct_store_with_test_user();
    let wrong = Password::parse("Wrong1234!".to_owned(), PasswordPolicy::Production).unwrap();
    let result = store.validate_user(&email, &wrong);
    assert_eq!(result, Err(UserStoreError::InvalidCredentials));
}

#[test]
fn test_new_token_store_has_no_tokens() {
    let store = HashSetTokenStore::new();
    let count = store.count().unwrap();
    assert_eq!(count, 0)
}

#[test]
fn test_storing_an_empty_token_is_an_error() {
    let mut store = HashSetTokenStore::new();
    let empty = "".to_string();
    let error = store.add_token(&empty).err().unwrap();
    assert_eq!(error, TokenStoreError::BlankToken);
}

#[test]
fn test_random_token_is_not_found_in_empty_store() {
    let store = HashSetTokenStore::new();
    let rando = "sOmE-rAnDoM-tOkEn".to_string();
    let exists = store.contains_token(&rando);
    assert_eq!(exists, false);
}

#[test]
fn test_a_stored_token_exists() {
    let mut store = HashSetTokenStore::new();
    let token = "Dingle".to_string();
    store.add_token(&token).unwrap();
    let count = store.count().unwrap();
    let exists = store.contains_token(&token);
    assert_eq!(count, 1);
    assert_eq!(exists, true);
}

#[test]
fn storing_a_token_twice_does_not_increase_count() {
    let mut store = HashSetTokenStore::new();
    let token = "Dingle".to_string();
    store.add_token(&token).unwrap();
    store.add_token(&token).unwrap();
    let count = store.count().unwrap();
    let exists = store.contains_token(&token);
    assert_eq!(count, 1);
    assert_eq!(exists, true);
}

#[test]
fn deleting_a_token_decreases_count() {
    let mut store = HashSetTokenStore::new();
    let token = "Dingle".to_string();
    store.add_token(&token).unwrap();
    let was_there = store.contains_token(&token);
    let before = store.count().unwrap();
    store.delete_token(&token).unwrap();
    let after = store.count().unwrap();
    let is_there = store.contains_token(&token);
    assert_eq!(before, 1);
    assert_eq!(after, 0);
    assert_eq!(was_there, true);
    assert_eq!(is_there, false);
}

#[test]
fn clearing_the_token_store_empties_it() {
    let mut store = HashSetTokenStore::new();
    let token = "Dingle".to_string();
    store.add_token(&token).unwrap();
    store.clear().unwrap();
    assert_eq!(store.count().unwrap(), 0);
    assert_eq!(store.contains_token(&token), false);
}

#[test]
fn lookup_returns_not_found_for_empty_store() {
    let store = HashmapTwoFACodeStore::default();
    let email = Email::parse("a@b.com".to_owned()).unwrap();
    let missing = store.get_code(&email);
    match missing {
        Err(TwoFACodeStoreError::LoginAttemptIdNotFound) => {
            println!("Correctly failed to find code");
        }
        Err(e) => {
            panic!("Unexpected error: {:?}", e);
        }
        Ok(_) => {
            panic!("Missing entry located");
        }
    }
}

#[test]
fn lookup_after_adding_code_returns_code() {
    let mut store = HashmapTwoFACodeStore::default();
    let email = Email::parse("a@b.com".to_owned()).unwrap();
    let code = TwoFACode::default();
    let id = LoginAttemptId::default();
    let add_result = store.add_code(email.clone(), id.clone(), code.clone());
    assert!(add_result.is_ok());

    let returned = store.get_code(&email);
    assert!(returned.is_ok());
    let returned = returned.unwrap();
    assert!(returned.0 == id);
    assert!(returned.1 == code);
}

#[test]
fn lookup_after_add_then_remove_returns_not_found() {
    let mut store = HashmapTwoFACodeStore::default();
    let email = Email::parse("a@b.com".to_owned()).unwrap();
    let code = TwoFACode::default();
    let id = LoginAttemptId::default();
    let add_result = store.add_code(email.clone(), id.clone(), code.clone());
    assert!(add_result.is_ok());
    let del_result = store.remove_code(&email);
    assert!(del_result.is_ok());
    let returned = store.get_code(&email);
    assert!(returned.is_err());
}

#[test]
fn adding_a_code_overwrites_the_pending_one() {
    let mut store = HashmapTwoFACodeStore::new();
    let email = Email::parse("a@b.com".to_owned()).unwrap();
    let id1 = LoginAttemptId::new();
    let id2 = LoginAttemptId::new();
    let code1 = TwoFACode::parse("111111".to_owned()).unwrap();
    let code2 = TwoFACode::parse("222222".to_owned()).unwrap();
    store.add_code(email.clone(), id1, code1).unwrap();
    store.add_code(email.clone(), id2.clone(), code2.clone()).unwrap();
    let stored = store.get_code(&email).unwrap();
    assert!(stored.0 == id2);
    assert!(stored.1 == code2);
}
