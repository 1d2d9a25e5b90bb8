use auth_service::app_state::AppState;
use auth_service::data_stores::TwoFACodeStore;
use auth_service::email::Email;
use auth_service::email_client::MockEmailClient;
use auth_service::error::AuthAPIError;
use auth_service::hashmap_2fa_code_store::HashmapTwoFACodeStore;
use auth_service::hashmap_user_store::HashmapUserStore;
use auth_service::hashset_token_store::HashSetTokenStore;
use auth_service::login::{login, LoginRequest, LoginResponse};
use auth_service::logout::logout;
use auth_service::password::PasswordPolicy;
use auth_service::signup::{signup, SignupRequest};
use auth_service::verify_2fa::{verify_2fa, Verify2FARequest};
use auth_service::verify_token::{verify_token, VerifyTokenRequest};

type TestState =
    AppState<HashmapUserStore, HashSetTokenStore, HashmapTwoFACodeStore, MockEmailClient>;

fn test_state() -> TestState {
    AppState::new(
        HashmapUserStore::default(),
        HashSetTokenStore::new(),
        HashmapTwoFACodeStore::new(),
        MockEmailClient::new(),
        PasswordPolicy::Production,
        "a-test-signing-secret-of-decent-length".to_owned(),
    )
}

fn signup_request(email: &str, password: &str, requires_2fa: bool) -> SignupRequest {
    SignupRequest {
        email: email.to_owned(),
        password: password.to_owned(),
        requires_2fa,
    }
}

fn login_request(email: &str, password: &str) -> LoginRequest {
    LoginRequest {
        email: email.to_owned(),
        password: password.to_owned(),
    }
}

#[test]
fn should_return_201_if_valid_input() {
    let mut state = test_state();
    let result = signup(&mut state, signup_request("a@b.com", "Passw0rd!", false)).unwrap();
    assert_eq!(result.0, 201);
    assert_eq!(result.1.message, "User created successfully!");
}

#[test]
fn should_return_409_if_email_already_exists() {
    let mut state = test_state();
    signup(&mut state, signup_request("a@b.com", "Passw0rd!", false)).unwrap();
    let second = signup(&mut state, signup_request("a@b.com", "Passw0rd!", false));
    assert_eq!(second.unwrap_err(), AuthAPIError::UserAlreadyExists);
    assert_eq!(AuthAPIError::UserAlreadyExists.status_code(), 409);
}

#[test]
fn should_return_400_if_invalid_input() {
    let mut state = test_state();
    let bad_email = signup(&mut state, signup_request("not-an-email", "Passw0rd!", false));
    assert_eq!(bad_email.unwrap_err(), AuthAPIError::InvalidCredentials);
    let bad_password = signup(&mut state, signup_request("a@b.com", "weak", false));
    assert_eq!(bad_password.unwrap_err(), AuthAPIError::InvalidCredentials);
    assert_eq!(AuthAPIError::InvalidCredentials.status_code(), 400);
}

#[test]
fn should_return_200_if_valid_credentials_and_2fa_disabled() {
    let mut state = test_state();
    signup(&mut state, signup_request("a@b.com", "Passw0rd!", false)).unwrap();
    let (cookie, outcome) = login(&mut state, login_request("a@b.com", "Passw0rd!"));
    let (status, body) = outcome.unwrap();
    assert_eq!(status, 200);
    assert!(matches!(body, LoginResponse::RegularAuth));
    let cookie = cookie.unwrap();
    assert_eq!(cookie.name, "jwt");
    assert_eq!(cookie.path, "/");
    assert!(cookie.http_only);
    assert!(cookie.same_site_lax);
}

#[test]
fn should_return_401_if_user_does_not_exist() {
    let mut state = test_state();
    let (cookie, outcome) = login(&mut state, login_request("a@b.com", "Passw0rd!"));
    assert!(cookie.is_none());
    assert_eq!(outcome.unwrap_err(), AuthAPIError::IncorrectCredentials);
    assert_eq!(AuthAPIError::IncorrectCredentials.status_code(), 401);
}

#[test]
fn should_return_401_if_password_is_wrong() {
    let mut state = test_state();
    signup(&mut state, signup_request("a@b.com", "Passw0rd!", false)).unwrap();
    let (cookie, outcome) = login(&mut state, login_request("a@b.com", "Wrong0rd!"));
    assert!(cookie.is_none());
    assert_eq!(outcome.unwrap_err(), AuthAPIError::IncorrectCredentials);
}

#[test]
fn should_return_206_if_valid_credentials_and_2fa_enabled() {
    let mut state = test_state();
    signup(&mut state, signup_request("a@b.com", "Passw0rd!", true)).unwrap();
    let (cookie, outcome) = login(&mut state, login_request("a@b.com", "Passw0rd!"));
    assert!(cookie.is_none());
    let (status, body) = outcome.unwrap();
    assert_eq!(status, 206);
    let response = match body {
        LoginResponse::TwoFactorAuth(r) => r,
        LoginResponse::RegularAuth => panic!("expected a two-factor response"),
    };
    assert_eq!(response.message, "2FA required");

    // The stored challenge carries the id the client was answered with,
    // beside a six-digit code.
    let email = Email::parse("a@b.com".to_owned()).unwrap();
    let (stored_id, stored_code) = state.two_fa_code_store.get_code(&email).unwrap();
    assert!(stored_id.is_match_str(&response.login_attempt_id));
    assert_eq!(stored_code.as_str().len(), 6);
    assert!(stored_code.as_str().chars().all(|c| c.is_ascii_digit()));
}

#[test]
fn end_to_end_without_second_factor() {
    let mut state = test_state();
    let created = signup(&mut state, signup_request("a@b.com", "Passw0rd!", false)).unwrap();
    assert_eq!(created.0, 201);

    let (cookie, outcome) = login(&mut state, login_request("a@b.com", "Passw0rd!"));
    assert_eq!(outcome.unwrap().0, 200);
    let token = cookie.unwrap().value;

    let ok = verify_token(&state, VerifyTokenRequest { token: token.clone() });
    assert_eq!(ok, 200);

    let out = logout(&mut state, Some(&token)).unwrap();
    assert_eq!(out, 200);

    let rejected = verify_token(&state, VerifyTokenRequest { token });
    assert_eq!(rejected, 401);
}

#[test]
fn end_to_end_with_second_factor() {
    let mut state = test_state();
    signup(&mut state, signup_request("a@b.com", "Passw0rd!", true)).unwrap();
    let (_, outcome) = login(&mut state, login_request("a@b.com", "Passw0rd!"));
    let (status, body) = outcome.unwrap();
    assert_eq!(status, 206);
    let response = match body {
        LoginResponse::TwoFactorAuth(r) => r,
        LoginResponse::RegularAuth => panic!("expected a two-factor response"),
    };

    let email = Email::parse("a@b.com".to_owned()).unwrap();
    let (_, stored_code) = state.two_fa_code_store.get_code(&email).unwrap();
    let request = Verify2FARequest {
        email: "a@b.com".to_owned(),
        login_attempt_id: response.login_attempt_id,
        code: stored_code.as_str().clone(),
    };
    let (status, cookie) = verify_2fa(&mut state, request).unwrap();
    assert_eq!(status, 200);
    assert_eq!(cookie.name, "jwt");
    let ok = verify_token(&state, VerifyTokenRequest { token: cookie.value });
    assert_eq!(ok, 200);
}

#[test]
fn should_return_400_if_logout_called_twice_in_a_row() {
    let mut state = test_state();
    signup(&mut state, signup_request("a@b.com", "Passw0rd!", false)).unwrap();
    let (cookie, _) = login(&mut state, login_request("a@b.com", "Passw0rd!"));
    let token = cookie.unwrap().value;

    let first = logout(&mut state, Some(&token)).unwrap();
    assert_eq!(first, 200);
    let second = logout(&mut state, Some(&token));
    assert_eq!(second.unwrap_err(), AuthAPIError::InvalidToken);
    assert_eq!(AuthAPIError::InvalidToken.status_code(), 401);
}

#[test]
fn should_return_400_if_jwt_cookie_missing() {
    let mut state = test_state();
    let out = logout(&mut state, None);
    assert_eq!(out.unwrap_err(), AuthAPIError::MissingToken);
    assert_eq!(AuthAPIError::MissingToken.status_code(), 400);
}

#[test]
fn should_return_401_if_invalid_token() {
    let mut state = test_state();
    let bogus = "not-a-real-token".to_owned();
    let out = logout(&mut state, Some(&bogus));
    assert_eq!(out.unwrap_err(), AuthAPIError::InvalidToken);
    let code = verify_token(&state, VerifyTokenRequest { token: bogus });
    assert_eq!(code, 401);
}

#[test]
fn should_return_401_if_same_code_twice() {
    let mut state = test_state();
    signup(&mut state, signup_request("a@b.com", "Passw0rd!", true)).unwrap();
    let (_, outcome) = login(&mut state, login_request("a@b.com", "Passw0rd!"));
    let response = match outcome.unwrap().1 {
        LoginResponse::TwoFactorAuth(r) => r,
        LoginResponse::RegularAuth => panic!("expected a two-factor response"),
    };
    let email = Email::parse("a@b.com".to_owned()).unwrap();
    let (_, stored_code) = state.two_fa_code_store.get_code(&email).unwrap();
    let request = Verify2FARequest {
        email: "a@b.com".to_owned(),
        login_attempt_id: response.login_attempt_id.clone(),
        code: stored_code.as_str().clone(),
    };
    let (status, _) = verify_2fa(&mut state, request).unwrap();
    assert_eq!(status, 200);

    let repeat = Verify2FARequest {
        email: "a@b.com".to_owned(),
        login_attempt_id: response.login_attempt_id,
        code: stored_code.as_str().clone(),
    };
    let again = verify_2fa(&mut state, repeat);
    assert_eq!(again.unwrap_err(), AuthAPIError::IncorrectCredentials);
}

#[test]
fn should_return_401_if_old_code() {
    let mut state = test_state();
    signup(&mut state, signup_request("a@b.com", "Passw0rd!", true)).unwrap();

    let (_, first_outcome) = login(&mut state, login_request("a@b.com", "Passw0rd!"));
    let first_response = match first_outcome.unwrap().1 {
        LoginResponse::TwoFactorAuth(r) => r,
        LoginResponse::RegularAuth => panic!("expected a two-factor response"),
    };
    let email = Email::parse("a@b.com".to_owned()).unwrap();
    let (_, first_code) = state.two_fa_code_store.get_code(&email).unwrap();

    let (_, second_outcome) = login(&mut state, login_request("a@b.com", "Passw0rd!"));
    let second_response = match second_outcome.unwrap().1 {
        LoginResponse::TwoFactorAuth(r) => r,
        LoginResponse::RegularAuth => panic!("expected a two-factor response"),
    };

    // Two consecutive logins produce two different attempt ids.
    assert_ne!(first_response.login_attempt_id, second_response.login_attempt_id);

    // Verifying against the earlier id fails once it is overwritten.
    let stale = Verify2FARequest {
        email: "a@b.com".to_owned(),
        login_attempt_id: first_response.login_attempt_id,
        code: first_code.as_str().clone(),
    };
    let out = verify_2fa(&mut state, stale);
    assert_eq!(out.unwrap_err(), AuthAPIError::IncorrectCredentials);
}

#[test]
fn should_return_400_if_email_is_malformed() {
    let mut state = test_state();
    let request = Verify2FARequest {
        email: "not-an-email".to_owned(),
        login_attempt_id: "67e55044-10b1-426f-9247-bb680e5fe0c8".to_owned(),
        code: "123456".to_owned(),
    };
    let out = verify_2fa(&mut state, request);
    assert_eq!(out.unwrap_err(), AuthAPIError::InvalidCredentials);
}

#[test]
fn should_return_401_if_incorrect_credentials() {
    let mut state = test_state();
    signup(&mut state, signup_request("a@b.com", "Passw0rd!", true)).unwrap();
    let request = Verify2FARequest {
        email: "a@b.com".to_owned(),
        login_attempt_id: "67e55044-10b1-426f-9247-bb680e5fe0c8".to_owned(),
        code: "123456".to_owned(),
    };
    let out = verify_2fa(&mut state, request);
    assert_eq!(out.unwrap_err(), AuthAPIError::IncorrectCredentials);
}

#[test]
fn error_responses_carry_stable_messages() {
    assert_eq!(AuthAPIError::IncorrectCredentials.message(), "Authorization failure");
    assert_eq!(AuthAPIError::InvalidCredentials.message(), "Invalid credentials");
    assert_eq!(AuthAPIError::InvalidToken.message(), "Invalid token ");
    assert_eq!(AuthAPIError::MissingToken.message(), "Missing token");
    assert_eq!(AuthAPIError::UnexpectedError.message(), "Unexpected error");
    assert_eq!(AuthAPIError::UserAlreadyExists.message(), "User already exists");
    assert_eq!(AuthAPIError::UnexpectedError.status_code(), 500);
}
