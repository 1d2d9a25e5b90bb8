use vstd::prelude::*;
use crate::app_state::AppState;
use crate::data_stores::{TokenStore, TwoFACodeStore, UserStore, UserStoreError};
use crate::email::{email_valid, Email};
use crate::email_client::EmailClient;
use crate::error::AuthAPIError;
use crate::password::{password_ok, Password};
use crate::user::User;

verus! {

/// A signup request, already lifted out of its transport shape.
pub struct SignupRequest {
    pub email: String,
    pub password: String,
    pub requires_2fa: bool,
}

/// The body returned on a successful signup.
#[derive(Debug)]
pub struct SignupResponse {
    pub message: String,
}

/// Registers a new user: both credentials must validate, the email must
/// be free, and the record is stored with the requested second-factor
/// flag. Success is 201 Created.
pub fn signup<U: UserStore, T: TokenStore, C: TwoFACodeStore, E: EmailClient>(
    state: &mut AppState<U, T, C, E>,
    request: SignupRequest,
) -> (r: Result<(u16, SignupResponse), AuthAPIError>)
    requires
        old(state).wf(),
    ensures
        final(state).wf(),
        final(state).banned_tokens.tokens() == old(state).banned_tokens.tokens(),
        final(state).two_fa_code_store.codes() == old(state).two_fa_code_store.codes(),
        final(state).password_policy == old(state).password_policy,
        final(state).jwt_secret == old(state).jwt_secret,
        !email_valid(request.email@) ==> r matches Err(AuthAPIError::InvalidCredentials),
        email_valid(request.email@) && !password_ok(
            old(state).password_policy,
            request.password@,
        ) ==> r matches Err(AuthAPIError::InvalidCredentials),
        email_valid(request.email@) && password_ok(old(state).password_policy, request.password@)
            && old(state).user_store.users().contains_key(request.email@) ==> (r matches Err(
            AuthAPIError::UserAlreadyExists,
        ) || r matches Err(AuthAPIError::UnexpectedError)),
        email_valid(request.email@) && password_ok(old(state).password_policy, request.password@)
            && !old(state).user_store.users().contains_key(request.email@) ==> (r is Ok
            || r matches Err(AuthAPIError::UnexpectedError)),
        r matches Ok(v) ==> v.0 == 201 && v.1.message@ == "User created successfully!"@
            && email_valid(request.email@) && password_ok(
            old(state).password_policy,
            request.password@,
        ) && !old(state).user_store.users().contains_key(request.email@) && final(state).user_store.users().contains_key(request.email@) && final(state).user_store.users()[request.email@].password@ == request.password@ && final(state).user_store.users()[request.email@].requires_2fa == request.requires_2fa && final(state).user_store.users() == old(state).user_store.users().insert(
            request.email@,
            final(state).user_store.users()[request.email@],
        ),
        r is Err ==> final(state).user_store.users() == old(state).user_store.users(),
        r matches Err(e) ==> e == AuthAPIError::InvalidCredentials
            || e == AuthAPIError::UserAlreadyExists || e == AuthAPIError::UnexpectedError,
        r matches Err(AuthAPIError::InvalidCredentials) ==> !email_valid(request.email@)
            || !password_ok(old(state).password_policy, request.password@),
        r matches Err(AuthAPIError::UserAlreadyExists) ==> old(state).user_store.users().contains_key(request.email@),
{
    let email = match Email::parse(request.email) {
        Ok(e) => e,
        Err(_) => {
            return Err(AuthAPIError::InvalidCredentials);
        },
    };
    let password = match Password::parse(request.password, state.password_policy) {
        Ok(p) => p,
        Err(_) => {
            return Err(AuthAPIError::InvalidCredentials);
        },
    };

    match state.user_store.get_user(&email) {
        Ok(_) => {
            return Err(AuthAPIError::UserAlreadyExists);
        },
        Err(_) => {},
    }

    let user = User::new(email, password, request.requires_2fa);
    match state.user_store.add_user(user) {
        Ok(()) => {
            let message = "User created successfully!".to_owned();
            Ok((201, SignupResponse { message }))
        },
        Err(_) => Err(AuthAPIError::UnexpectedError),
    }
}

} // verus!
