use vstd::prelude::*;
use crate::app_state::AppState;
use crate::auth::{jwt_claims_of, validate_token};
use crate::data_stores::{TokenStore, TwoFACodeStore, UserStore};
use crate::email_client::EmailClient;
use crate::error::AuthAPIError;

verus! {

/// Revokes the session token carried by the request's cookie, if one is
/// there. A token that is already revoked (or otherwise invalid) is a
/// 401, not a 400, so a second logout with the same token fails; a
/// missing cookie is a 400. On success (200) the token carried valid,
/// unexpired claims, it is now revoked for at least its remaining
/// lifetime, and the caller removes the cookie.
pub fn logout<U: UserStore, T: TokenStore, C: TwoFACodeStore, E: EmailClient>(
    state: &mut AppState<U, T, C, E>,
    cookie_token: Option<&String>,
) -> (r: Result<u16, AuthAPIError>)
    requires
        old(state).wf(),
    ensures
        final(state).wf(),
        final(state).user_store.users() == old(state).user_store.users(),
        final(state).two_fa_code_store.codes() == old(state).two_fa_code_store.codes(),
        final(state).password_policy == old(state).password_policy,
        final(state).jwt_secret == old(state).jwt_secret,
        cookie_token is None ==> r matches Err(AuthAPIError::MissingToken),
        cookie_token matches Some(t) ==> (old(state).banned_tokens.tokens().contains(t@)
            ==> r matches Err(AuthAPIError::InvalidToken)),
        cookie_token matches Some(t) ==> (r matches Ok(st) ==> st == 200 && !old(
            state,
        ).banned_tokens.tokens().contains(t@) && final(state).banned_tokens.tokens() == old(
            state,
        ).banned_tokens.tokens().insert(t@) && jwt_claims_of(t@, old(state).jwt_secret@) is Some),
        r is Err ==> final(state).banned_tokens.tokens() == old(state).banned_tokens.tokens(),
        r matches Err(e) ==> e == AuthAPIError::MissingToken || e == AuthAPIError::InvalidToken
            || e == AuthAPIError::UnexpectedError,
        r matches Err(AuthAPIError::MissingToken) ==> cookie_token is None,
{
    let token = match cookie_token {
        Some(t) => t,
        None => {
            return Err(AuthAPIError::MissingToken);
        },
    };

    match validate_token(token, &state.banned_tokens, state.jwt_secret.as_str()) {
        Ok(_) => {},
        Err(_) => {
            return Err(AuthAPIError::InvalidToken);
        },
    }

    match state.banned_tokens.add_token(token) {
        Ok(()) => {},
        Err(_) => {
            return Err(AuthAPIError::UnexpectedError);
        },
    }
    Ok(200)
}

/// Logging out twice with the same token cannot succeed twice, by
/// design: a successful logout puts the token into the revocation set,
/// and `logout`'s contract rejects any token found there with
/// `InvalidToken` (401), never with `MissingToken` (400).
pub proof fn lemma_second_logout_rejected(tokens: Set<Seq<char>>, t: Seq<char>)
    ensures
        tokens.insert(t).contains(t),
{
}

} // verus!
