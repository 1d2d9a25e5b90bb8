use vstd::prelude::*;
use crate::data_stores::UserStoreError;
use crate::email::{email_valid, Email};
use crate::password::{password_ok, Password, PasswordPolicy};
use crate::user::User;

verus! {

/// A user record as the relational backend returns it: plain columns,
/// not yet validated into the domain types.
pub struct UserRecord {
    pub email: String,
    pub password_hash: String,
    pub requires_2fa: bool,
}

impl UserRecord {
    /// Re-validates the raw columns into a domain record. A stored row
    /// that no longer passes validation is a backend fault, not a
    /// client error.
    pub fn into_user(self, policy: PasswordPolicy) -> (r: Result<User, UserStoreError>)
        ensures
            r is Ok <==> email_valid(self.email@) && password_ok(policy, self.password_hash@),
            r matches Ok(u) ==> u.email@ == self.email@ && u.password@ == self.password_hash@
                && u.requires_2fa == self.requires_2fa,
            r matches Err(e) ==> e == UserStoreError::UnexpectedError,
    {
        let email = match Email::parse(self.email) {
            Ok(e) => e,
            Err(_) => {
                return Err(UserStoreError::UnexpectedError);
            },
        };
        let password = match Password::parse(self.password_hash, policy) {
            Ok(p) => p,
            Err(_) => {
                return Err(UserStoreError::UnexpectedError);
            },
        };
        Ok(User::new(email, password, self.requires_2fa))
    }
}

} // verus!
