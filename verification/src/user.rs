use vstd::prelude::*;
use crate::email::Email;
use crate::password::Password;

verus! {

/// A stored user record: the email that keys it, the credential, and
/// whether logins must pass a second factor. Created on signup and
/// immutable thereafter.
pub struct User {
    pub email: Email,
    pub password: Password,
    pub requires_2fa: bool,
}

impl User {
    pub fn new(email: Email, password: Password, requires_2fa: bool) -> (u: User)
        ensures
            u.email == email,
            u.password == password,
            u.requires_2fa == requires_2fa,
    {
        User { email, password, requires_2fa }
    }
}

impl Clone for User {
    fn clone(&self) -> (r: Self)
        ensures
            r == *self,
    {
        User {
            email: self.email.clone(),
            password: self.password.clone(),
            requires_2fa: self.requires_2fa,
        }
    }
}

} // verus!
