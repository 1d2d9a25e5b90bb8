use vstd::prelude::*;
use crate::app_state::AppState;
use crate::auth::{auth_cookie_for, generate_auth_cookie, AuthCookie};
use crate::data_stores::{two_fa_code_ok, uuid_canon, LoginAttemptId, TokenStore, TwoFACode,
    TwoFACodeStore, UserStore};
use crate::email::{email_valid, Email};
use crate::email_client::EmailClient;
use crate::error::AuthAPIError;

verus! {

/// A second-factor verification request, already lifted out of its
/// transport shape.
pub struct Verify2FARequest {
    pub email: String,
    pub login_attempt_id: String,
    pub code: String,
}

/// The stored challenge for this email matches the presented attempt id
/// (after normalization) and code.
pub open spec fn challenge_matches(
    codes: Map<Seq<char>, (LoginAttemptId, TwoFACode)>,
    email: Seq<char>,
    login_attempt_id: Seq<char>,
    code: Seq<char>,
) -> bool {
    &&& codes.contains_key(email)
    &&& uuid_canon(login_attempt_id) == Some(codes[email].0@)
    &&& codes[email].1@ == code
}

/// Checks a pending second-factor challenge. On the one matching attempt
/// the challenge is consumed and a fresh session cookie issued (200); a
/// missing or mismatched challenge is an authentication failure (401)
/// that leaves the challenge pending; a malformed field is a validation
/// failure (400), and nothing else is.
pub fn verify_2fa<U: UserStore, T: TokenStore, C: TwoFACodeStore, E: EmailClient>(
    state: &mut AppState<U, T, C, E>,
    request: Verify2FARequest,
) -> (r: Result<(u16, AuthCookie), AuthAPIError>)
    requires
        old(state).wf(),
    ensures
        final(state).wf(),
        final(state).user_store.users() == old(state).user_store.users(),
        final(state).banned_tokens.tokens() == old(state).banned_tokens.tokens(),
        final(state).password_policy == old(state).password_policy,
        final(state).jwt_secret == old(state).jwt_secret,
        (!email_valid(request.email@) || uuid_canon(request.login_attempt_id@) is None
            || !two_fa_code_ok(request.code@)) ==> r matches Err(
            AuthAPIError::InvalidCredentials,
        ),
        email_valid(request.email@) && uuid_canon(request.login_attempt_id@) is Some
            && two_fa_code_ok(request.code@) && !old(
            state,
        ).two_fa_code_store.codes().contains_key(request.email@) ==> r matches Err(
            AuthAPIError::IncorrectCredentials,
        ),
        email_valid(request.email@) && uuid_canon(request.login_attempt_id@) is Some
            && two_fa_code_ok(request.code@) && old(state).two_fa_code_store.codes().contains_key(
            request.email@,
        ) && !challenge_matches(
            old(state).two_fa_code_store.codes(),
            request.email@,
            request.login_attempt_id@,
            request.code@,
        ) ==> r matches Err(AuthAPIError::IncorrectCredentials),
        r matches Ok(v) ==> v.0 == 200 && challenge_matches(
            old(state).two_fa_code_store.codes(),
            request.email@,
            request.login_attempt_id@,
            request.code@,
        ) && final(state).two_fa_code_store.codes() == old(
            state,
        ).two_fa_code_store.codes().remove(request.email@) && auth_cookie_for(
            v.1,
            request.email@,
            old(state).jwt_secret@,
        ),
        r matches Err(e) ==> e == AuthAPIError::InvalidCredentials
            || e == AuthAPIError::IncorrectCredentials || e == AuthAPIError::UnexpectedError,
        r matches Err(AuthAPIError::InvalidCredentials) ==> !email_valid(request.email@)
            || uuid_canon(request.login_attempt_id@) is None || !two_fa_code_ok(request.code@),
        r matches Err(AuthAPIError::IncorrectCredentials) ==> email_valid(request.email@)
            && uuid_canon(request.login_attempt_id@) is Some && two_fa_code_ok(request.code@),
        (r matches Err(AuthAPIError::InvalidCredentials) || r matches Err(
            AuthAPIError::IncorrectCredentials,
        )) ==> final(state).two_fa_code_store.codes() == old(state).two_fa_code_store.codes(),
        r matches Err(AuthAPIError::UnexpectedError) ==> final(state).two_fa_code_store.codes()
            == old(state).two_fa_code_store.codes().remove(request.email@),
{
    let email = match Email::parse(request.email) {
        Ok(e) => e,
        Err(_) => {
            return Err(AuthAPIError::InvalidCredentials);
        },
    };
    let login_attempt_id = match LoginAttemptId::parse(request.login_attempt_id) {
        Ok(v) => v,
        Err(_) => {
            return Err(AuthAPIError::InvalidCredentials);
        },
    };
    let two_fa_code = match TwoFACode::parse(request.code) {
        Ok(c) => c,
        Err(_) => {
            return Err(AuthAPIError::InvalidCredentials);
        },
    };

    let stored = match state.two_fa_code_store.get_code(&email) {
        Ok(v) => v,
        Err(_) => {
            return Err(AuthAPIError::IncorrectCredentials);
        },
    };
    if !stored.0.is_match(&login_attempt_id) {
        return Err(AuthAPIError::IncorrectCredentials);
    }
    if !stored.1.is_match(&two_fa_code) {
        return Err(AuthAPIError::IncorrectCredentials);
    }

    match state.two_fa_code_store.remove_code(&email) {
        Ok(()) => {},
        Err(_) => {
            return Err(AuthAPIError::IncorrectCredentials);
        },
    }
    let cookie = match generate_auth_cookie(&email, state.jwt_secret.as_str()) {
        Ok(c) => c,
        Err(_) => {
            return Err(AuthAPIError::UnexpectedError);
        },
    };
    Ok((200, cookie))
}

/// A challenge is single-use: a successful verification removes the
/// pending entry, and `verify_2fa`'s contract answers
/// `IncorrectCredentials` (401) whenever none is pending, so repeating
/// the same id and code cannot succeed twice.
pub proof fn lemma_challenge_single_use(
    codes: Map<Seq<char>, (LoginAttemptId, TwoFACode)>,
    email: Seq<char>,
)
    ensures
        !codes.remove(email).contains_key(email),
{
}

/// The last challenge wins: once a later login has overwritten the
/// pending entry, an attempt presenting an id other than the new one
/// cannot match, so `verify_2fa`'s contract answers
/// `IncorrectCredentials` (401).
pub proof fn lemma_overwritten_challenge_rejected(
    codes: Map<Seq<char>, (LoginAttemptId, TwoFACode)>,
    email: Seq<char>,
    entry: (LoginAttemptId, TwoFACode),
    stale_id: Seq<char>,
    code: Seq<char>,
)
    requires
        uuid_canon(stale_id) != Some(entry.0@),
    ensures
        !challenge_matches(codes.insert(email, entry), email, stale_id, code),
{
}

} // verus!
