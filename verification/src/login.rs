use vstd::prelude::*;
use vstd::string::StringExecFns;
use crate::app_state::AppState;
use crate::auth::{auth_cookie_for, generate_auth_cookie, AuthCookie};
use crate::data_stores::{two_fa_code_ok, uuid_canon, LoginAttemptId, TokenStore, TwoFACode,
    TwoFACodeStore, UserStore};
use crate::email::{email_valid, Email};
use crate::email_client::EmailClient;
use crate::error::AuthAPIError;
use crate::password::{password_ok, Password};

verus! {

/// A login request, already lifted out of its transport shape.
pub struct LoginRequest {
    pub email: String,
    pub password: String,
}

/// The two success responses of login: a plain authentication, or a
/// partial one that awaits the second factor.
#[derive(Debug)]
pub enum LoginResponse {
    RegularAuth,
    TwoFactorAuth(TwoFactorAuthResponse),
}

/// The body returned when a second factor is required.
#[derive(Debug)]
pub struct TwoFactorAuthResponse {
    pub message: String,
    pub login_attempt_id: String,
}

impl TwoFactorAuthResponse {
    pub fn new(id: LoginAttemptId) -> (r: Self)
        ensures
            r.message@ == "2FA required"@,
            r.login_attempt_id@ == id@,
    {
        let message = "2FA required".to_owned();
        let login_attempt_id = id.as_str().clone();
        TwoFactorAuthResponse { message, login_attempt_id }
    }
}

/// The store holds a record for this email whose credential matches the
/// presented password, in whatever sense the backend gives matching.
pub open spec fn creds_valid<U: UserStore>(store: U, email: Seq<char>, password: Seq<char>) -> bool {
    store.users().contains_key(email) && store.credential_ok(email, password)
}

/// Authenticates a user. With the second factor disabled, success is 200
/// with a fresh session cookie; with it enabled, success is 206 with a
/// fresh login attempt id, and the challenge store now holds that id
/// beside a six-digit code, overwriting any pending challenge.
pub fn login<U: UserStore, T: TokenStore, C: TwoFACodeStore, E: EmailClient>(
    state: &mut AppState<U, T, C, E>,
    request: LoginRequest,
) -> (r: (Option<AuthCookie>, Result<(u16, LoginResponse), AuthAPIError>))
    requires
        old(state).wf(),
    ensures
        final(state).wf(),
        final(state).user_store.users() == old(state).user_store.users(),
        final(state).banned_tokens.tokens() == old(state).banned_tokens.tokens(),
        final(state).password_policy == old(state).password_policy,
        final(state).jwt_secret == old(state).jwt_secret,
        (!email_valid(request.email@) || !password_ok(
            old(state).password_policy,
            request.password@,
        )) ==> r.1 matches Err(AuthAPIError::InvalidCredentials),
        email_valid(request.email@) && password_ok(old(state).password_policy, request.password@)
            && !creds_valid(old(state).user_store, request.email@, request.password@)
            ==> r.1 matches Err(AuthAPIError::IncorrectCredentials),
        r.1 matches Ok(v) ==> email_valid(request.email@) && password_ok(
            old(state).password_policy,
            request.password@,
        ) && creds_valid(old(state).user_store, request.email@, request.password@),
        r.1 matches Ok(v) ==> ((v.1 is RegularAuth && v.0 == 200) || (v.1 is TwoFactorAuth && v.0
            == 206)),
        r.1 matches Ok(v) ==> (v.1 is RegularAuth ==> !old(state).user_store.users()[request.email@].requires_2fa && final(state).two_fa_code_store.codes() == old(state).two_fa_code_store.codes() && (r.0 matches Some(
            c,
        ) && auth_cookie_for(c, request.email@, old(state).jwt_secret@))),
        r.1 matches Ok(v) ==> (v.1 matches LoginResponse::TwoFactorAuth(resp) ==> old(state).user_store.users()[request.email@].requires_2fa && r.0 is None && resp.message@
            == "2FA required"@ && uuid_canon(resp.login_attempt_id@) == Some(
            resp.login_attempt_id@,
        ) && final(state).two_fa_code_store.codes().contains_key(request.email@) && final(state).two_fa_code_store.codes()[request.email@].0@ == resp.login_attempt_id@ && two_fa_code_ok(
            final(state).two_fa_code_store.codes()[request.email@].1@,
        ) && final(state).two_fa_code_store.codes() == old(state).two_fa_code_store.codes().insert(
            request.email@,
            final(state).two_fa_code_store.codes()[request.email@],
        )),
        r.1 is Err ==> r.0 is None,
        r.1 matches Err(e) ==> e == AuthAPIError::InvalidCredentials
            || e == AuthAPIError::IncorrectCredentials || e == AuthAPIError::UnexpectedError,
        r.1 matches Err(AuthAPIError::InvalidCredentials) ==> (!email_valid(request.email@)
            || !password_ok(old(state).password_policy, request.password@)) && final(state).two_fa_code_store.codes() == old(state).two_fa_code_store.codes(),
        r.1 matches Err(AuthAPIError::IncorrectCredentials) ==> final(state).two_fa_code_store.codes() == old(state).two_fa_code_store.codes(),
        r.1 matches Err(AuthAPIError::UnexpectedError) ==> (final(state).two_fa_code_store.codes()
            == old(state).two_fa_code_store.codes() || exists|id: LoginAttemptId, code: TwoFACode|
            final(state).two_fa_code_store.codes() == old(state).two_fa_code_store.codes().insert(request.email@, (id, code))),
{
    let password = match Password::parse(request.password, state.password_policy) {
        Ok(p) => p,
        Err(_) => {
            return (None, Err(AuthAPIError::InvalidCredentials));
        },
    };
    let email = match Email::parse(request.email) {
        Ok(e) => e,
        Err(_) => {
            return (None, Err(AuthAPIError::InvalidCredentials));
        },
    };

    match state.user_store.validate_user(&email, &password) {
        Ok(()) => {},
        Err(_) => {
            return (None, Err(AuthAPIError::IncorrectCredentials));
        },
    }
    let user = match state.user_store.get_user(&email) {
        Ok(u) => u,
        Err(_) => {
            return (None, Err(AuthAPIError::IncorrectCredentials));
        },
    };

    if user.requires_2fa {
        handle_2fa(state, &email)
    } else {
        handle_no_2fa(state, &user.email)
    }
}

/// The plain path: issue a token and set the session cookie.
fn handle_no_2fa<U: UserStore, T: TokenStore, C: TwoFACodeStore, E: EmailClient>(
    state: &AppState<U, T, C, E>,
    email: &Email,
) -> (r: (Option<AuthCookie>, Result<(u16, LoginResponse), AuthAPIError>))
    ensures
        r.1 matches Ok(v) ==> v.0 == 200 && v.1 is RegularAuth && (r.0 matches Some(c)
            && auth_cookie_for(c, email@, state.jwt_secret@)),
        r.1 is Err ==> r.0 is None && r.1 matches Err(AuthAPIError::UnexpectedError),
{
    match generate_auth_cookie(email, state.jwt_secret.as_str()) {
        Ok(cookie) => (Some(cookie), Ok((200, LoginResponse::RegularAuth))),
        Err(_) => (None, Err(AuthAPIError::UnexpectedError)),
    }
}

/// The second-factor path: store a fresh challenge (overwriting any
/// pending one), send it to the user, and answer 206 with the attempt id.
fn handle_2fa<U: UserStore, T: TokenStore, C: TwoFACodeStore, E: EmailClient>(
    state: &mut AppState<U, T, C, E>,
    email: &Email,
) -> (r: (Option<AuthCookie>, Result<(u16, LoginResponse), AuthAPIError>))
    requires
        old(state).wf(),
    ensures
        final(state).wf(),
        final(state).user_store.users() == old(state).user_store.users(),
        final(state).banned_tokens.tokens() == old(state).banned_tokens.tokens(),
        final(state).password_policy == old(state).password_policy,
        final(state).jwt_secret == old(state).jwt_secret,
        r.0 is None,
        r.1 matches Ok(v) ==> v.0 == 206 && (v.1 matches LoginResponse::TwoFactorAuth(resp)
            && resp.message@ == "2FA required"@ && uuid_canon(resp.login_attempt_id@) == Some(
            resp.login_attempt_id@,
        ) && final(state).two_fa_code_store.codes().contains_key(email@) && final(state).two_fa_code_store.codes()[email@].0@ == resp.login_attempt_id@ && two_fa_code_ok(
            final(state).two_fa_code_store.codes()[email@].1@,
        ) && final(state).two_fa_code_store.codes() == old(state).two_fa_code_store.codes().insert(
            email@,
            final(state).two_fa_code_store.codes()[email@],
        )),
        r.1 matches Err(e) ==> e == AuthAPIError::UnexpectedError,
        r.1 is Err ==> (final(state).two_fa_code_store.codes() == old(state).two_fa_code_store.codes() || exists|id: LoginAttemptId, code: TwoFACode|
            final(state).two_fa_code_store.codes() == old(state).two_fa_code_store.codes().insert(
                email@,
                (id, code),
            )),
{
    let code = TwoFACode::new();
    let login_attempt_id = LoginAttemptId::new();
    match state.two_fa_code_store.add_code(
        email.clone(),
        login_attempt_id.clone(),
        code.clone(),
    ) {
        Ok(()) => {},
        Err(_) => {
            return (None, Err(AuthAPIError::UnexpectedError));
        },
    }

    let content = two_fa_email_content(&login_attempt_id, &code);
    let subject = "Login requires 2FA code";
    match state.email_client.send_email(email, subject, content.as_str()) {
        Ok(()) => {},
        Err(_) => {
            proof {
                assert(state.two_fa_code_store.codes() == old(state).two_fa_code_store.codes().insert(email@, (login_attempt_id, code)));
            }
            return (None, Err(AuthAPIError::UnexpectedError));
        },
    }

    let response = TwoFactorAuthResponse::new(login_attempt_id);
    (None, Ok((206, LoginResponse::TwoFactorAuth(response))))
}

/// The body of the challenge mail: the code, then the attempt id, spelled
/// out so the recipient can answer the verification call.
fn two_fa_email_content(login_attempt_id: &LoginAttemptId, code: &TwoFACode) -> (r: String)
    ensures
        r@ == "Code ["@ + code@ + "], Login Attempt ID: "@ + login_attempt_id@ + "\n"@,
{
    let mut content = "Code [".to_owned();
    content.append(code.as_str().as_str());
    content.append("], Login Attempt ID: ");
    content.append(login_attempt_id.as_str().as_str());
    content.append("\n");
    proof {
        assert(content@ =~= "Code ["@ + code@ + "], Login Attempt ID: "@ + login_attempt_id@
            + "\n"@);
    }
    content
}

} // verus!
