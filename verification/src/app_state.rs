use vstd::prelude::*;
use crate::data_stores::{TokenStore, TwoFACodeStore, UserStore};
use crate::email_client::EmailClient;
use crate::password::PasswordPolicy;

verus! {

/// The process-wide application context: one store of each kind, the
/// email client, and the read-only configuration (validation policy and
/// signing secret). Every request handler works through this state and
/// never reaches into a store's representation.
pub struct AppState<U: UserStore, T: TokenStore, C: TwoFACodeStore, E: EmailClient> {
    pub user_store: U,
    pub banned_tokens: T,
    pub two_fa_code_store: C,
    pub email_client: E,
    pub password_policy: PasswordPolicy,
    pub jwt_secret: String,
}

impl<U: UserStore, T: TokenStore, C: TwoFACodeStore, E: EmailClient> AppState<U, T, C, E> {
    /// Every store satisfies its own invariant.
    pub open spec fn wf(&self) -> bool {
        &&& self.user_store.wf()
        &&& self.banned_tokens.wf()
        &&& self.two_fa_code_store.wf()
    }

    pub fn new(
        user_store: U,
        banned_tokens: T,
        two_fa_code_store: C,
        email_client: E,
        password_policy: PasswordPolicy,
        jwt_secret: String,
    ) -> (s: Self)
        ensures
            s == (AppState {
                user_store,
                banned_tokens,
                two_fa_code_store,
                email_client,
                password_policy,
                jwt_secret,
            }),
    {
        AppState { user_store, banned_tokens, two_fa_code_store, email_client, password_policy, jwt_secret }
    }
}

} // verus!
