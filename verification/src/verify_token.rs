use vstd::prelude::*;
use crate::app_state::AppState;
use crate::auth::{jwt_claims_of, validate_token};
use crate::data_stores::{TokenStore, TwoFACodeStore, UserStore};
use crate::email_client::EmailClient;
use crate::error::AuthAPIError;

verus! {

/// A token verification request, already lifted out of its transport
/// shape.
pub struct VerifyTokenRequest {
    pub token: String,
}

/// Checks a bare session token against the revocation store and then
/// cryptographically: 200 where it is honored, 401 where it must be
/// rejected. A revoked token is never honored.
pub fn verify_token<U: UserStore, T: TokenStore, C: TwoFACodeStore, E: EmailClient>(
    state: &AppState<U, T, C, E>,
    request: VerifyTokenRequest,
) -> (r: u16)
    requires
        state.wf(),
    ensures
        r == 200 || r == 401,
        state.banned_tokens.tokens().contains(request.token@) ==> r == 401,
        r == 200 ==> !state.banned_tokens.tokens().contains(request.token@) && jwt_claims_of(
            request.token@,
            state.jwt_secret@,
        ) is Some,
{
    match validate_token(&request.token, &state.banned_tokens, state.jwt_secret.as_str()) {
        Ok(_) => 200,
        Err(_) => 401,
    }
}

} // verus!
