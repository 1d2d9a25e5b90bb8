use vstd::prelude::*;
use rand::Rng;
use crate::email::Email;
use crate::password::Password;
use crate::user::User;
use crate::strings::{all_ascii_digits, char_is_ascii_digit, chars_of, is_ascii_digit_char,
    string_of_chars};

verus! {

/// Failures of the credential store.
#[derive(Clone, Copy, Debug, PartialEq, Eq, Structural)]
pub enum UserStoreError {
    InvalidCredentials,
    UnexpectedError,
    UserAlreadyExists,
    UserNotFound,
}

/// Failures of the revocation store.
#[derive(Clone, Copy, Debug, PartialEq, Eq, Structural)]
pub enum TokenStoreError {
    BlankToken,
    UnexpectedError,
}

/// Failures of the challenge store.
#[derive(Clone, Copy, Debug, PartialEq, Eq, Structural)]
pub enum TwoFACodeStoreError {
    LoginAttemptIdNotFound,
    UnexpectedError,
}

/// The capability contract of a credential store: a durable mapping from
/// email to user record, polymorphic over backends.
pub trait UserStore: Sized {
    /// The stored mapping from email to user record.
    spec fn users(&self) -> Map<Seq<char>, User>;

    /// The backend's own invariant, established at construction and
    /// preserved by every operation.
    spec fn wf(&self) -> bool;

    /// Whether the presented password matches the credential stored for
    /// the email. Each backend fixes what matching means: the in-memory
    /// store compares the stored value, a hashing backend verifies the
    /// presented password against the stored one-way hash.
    spec fn credential_ok(&self, email: Seq<char>, password: Seq<char>) -> bool;

    /// Adds a record, failing if the email already has one; a failed add
    /// leaves the store unchanged. A record just added matches the
    /// password it was created with.
    fn add_user(&mut self, user: User) -> (r: Result<(), UserStoreError>)
        requires
            old(self).wf(),
        ensures
            final(self).wf(),
            r matches Ok(()) ==> !old(self).users().contains_key(user.email@) && final(self).users() == old(self).users().insert(user.email@, user) && final(self).credential_ok(
                user.email@,
                user.password@,
            ),
            r is Err ==> final(self).users() == old(self).users(),
            r matches Err(e) ==> e == UserStoreError::UserAlreadyExists
                || e == UserStoreError::UnexpectedError,
            r matches Err(UserStoreError::UserAlreadyExists) ==> old(self).users().contains_key(
                user.email@,
            ),
    ;

    /// Looks a record up by email.
    fn get_user(&self, email: &Email) -> (r: Result<User, UserStoreError>)
        requires
            self.wf(),
        ensures
            r matches Ok(u) ==> self.users().contains_key(email@) && u == self.users()[email@]
                && u.email@ == email@,
            !self.users().contains_key(email@) ==> r is Err,
            r matches Err(e) ==> e == UserStoreError::UserNotFound
                || e == UserStoreError::UnexpectedError,
            r matches Err(UserStoreError::UserNotFound) ==> !self.users().contains_key(email@),
    ;

    /// Checks the presented password against the stored credential,
    /// without reconstructing or storing any plaintext beyond the call.
    fn validate_user(&self, email: &Email, password: &Password) -> (r: Result<
        (),
        UserStoreError,
    >)
        requires
            self.wf(),
        ensures
            r matches Ok(()) ==> self.users().contains_key(email@) && self.credential_ok(
                email@,
                password@,
            ),
            !self.users().contains_key(email@) ==> r is Err,
            self.users().contains_key(email@) && !self.credential_ok(email@, password@)
                ==> r is Err,
            r matches Err(e) ==> e == UserStoreError::InvalidCredentials
                || e == UserStoreError::UserNotFound || e == UserStoreError::UnexpectedError,
            r matches Err(UserStoreError::UserNotFound) ==> !self.users().contains_key(email@),
            r matches Err(UserStoreError::InvalidCredentials) ==> self.users().contains_key(
                email@,
            ) && !self.credential_ok(email@, password@),
    ;
}

/// The capability contract of a revocation store: the set of tokens that
/// must be rejected even if cryptographically valid.
pub trait TokenStore: Sized {
    /// The set of revoked tokens.
    spec fn tokens(&self) -> Set<Seq<char>>;

    /// The backend's own invariant; it keeps the token set finite.
    spec fn wf(&self) -> bool;

    /// Marks a token revoked; empty tokens are rejected. A failed add
    /// leaves the store unchanged.
    fn add_token(&mut self, token: &String) -> (r: Result<(), TokenStoreError>)
        requires
            old(self).wf(),
        ensures
            final(self).wf(),
            r matches Ok(()) ==> token@.len() > 0 && final(self).tokens() == old(self).tokens().insert(token@),
            r is Err ==> final(self).tokens() == old(self).tokens(),
            token@.len() == 0 ==> r matches Err(TokenStoreError::BlankToken),
            r matches Err(TokenStoreError::BlankToken) ==> token@.len() == 0,
    ;

    /// Forgets every revoked token; a backend may instead declare the
    /// operation unsupported by failing, leaving the store unchanged.
    fn clear(&mut self) -> (r: Result<(), TokenStoreError>)
        requires
            old(self).wf(),
        ensures
            final(self).wf(),
            r matches Ok(()) ==> final(self).tokens() == Set::<Seq<char>>::empty(),
            r is Err ==> final(self).tokens() == old(self).tokens(),
    ;

    /// How many tokens are currently revoked.
    fn count(&self) -> (r: Result<u64, TokenStoreError>)
        requires
            self.wf(),
        ensures
            r matches Ok(n) ==> n as nat == self.tokens().len(),
    ;

    /// Unmarks a token; empty tokens are rejected. A failed delete leaves
    /// the store unchanged.
    fn delete_token(&mut self, token: &String) -> (r: Result<(), TokenStoreError>)
        requires
            old(self).wf(),
        ensures
            final(self).wf(),
            r matches Ok(()) ==> token@.len() > 0 && final(self).tokens() == old(self).tokens().remove(token@),
            r is Err ==> final(self).tokens() == old(self).tokens(),
            token@.len() == 0 ==> r matches Err(TokenStoreError::BlankToken),
            r matches Err(TokenStoreError::BlankToken) ==> token@.len() == 0,
    ;

    /// Whether the token must be treated as invalid regardless of its
    /// signature and expiry.
    fn contains_token(&self, token: &String) -> (r: bool)
        requires
            self.wf(),
        ensures
            r == self.tokens().contains(token@),
    ;
}

/// What `uuid::Uuid::parse_str` followed by `Uuid::to_string` yields on a
/// string: `None` where parsing rejects it, otherwise the canonical
/// hyphenated lower-case form; a function of the characters alone.
pub uninterp spec fn uuid_canon(s: Seq<char>) -> Option<Seq<char>>;

/// Relies on `uuid::Uuid::parse_str` and `Uuid::to_string`: parsing
/// accepts exactly the textual UUID forms, and printing the parsed value
/// gives the canonical hyphenated lower-case form.
#[verifier::external_body]
fn uuid_normalize(s: &str) -> (r: Option<String>)
    ensures
        r is Some <==> uuid_canon(s@) is Some,
        r matches Some(t) ==> uuid_canon(s@) == Some(t@),
{
    match uuid::Uuid::parse_str(s) {
        Ok(u) => Some(u.to_string()),
        Err(_) => None,
    }
}

/// Relies on `uuid::Uuid::new_v4` and `Uuid::to_string`: a fresh random
/// UUID printed in canonical hyphenated lower-case form, 36 characters,
/// which `parse_str` followed by `to_string` maps to itself.
#[verifier::external_body]
fn fresh_uuid_string() -> (r: String)
    ensures
        r@.len() == 36,
        uuid_canon(r@) == Some(r@),
{
    uuid::Uuid::new_v4().to_string()
}

/// Relies on `rand::thread_rng` and `Rng::gen_range`: a value drawn below
/// the bound; nothing more is promised of a random draw.
#[verifier::external_body]
fn random_below(bound: u32) -> (r: u32)
    requires
        bound > 0,
    ensures
        r < bound,
{
    rand::thread_rng().gen_range(0..bound)
}

/// The shape of a login attempt identifier was rejected.
#[derive(Clone, Copy, Debug, PartialEq, Eq, Structural)]
pub struct LoginAttemptIdParseError;

/// An opaque unique identifier for one login attempt that requires a
/// second factor; comparable for exact equality only.
pub struct LoginAttemptId {
    value: String,
}

impl View for LoginAttemptId {
    type V = Seq<char>;

    closed spec fn view(&self) -> Seq<char> {
        self.value@
    }
}

impl Clone for LoginAttemptId {
    fn clone(&self) -> (r: Self)
        ensures
            r == *self,
    {
        LoginAttemptId { value: self.value.clone() }
    }
}

impl PartialEq for LoginAttemptId {
    fn eq(&self, other: &Self) -> (r: bool) {
        self.value == other.value
    }
}

impl vstd::std_specs::cmp::PartialEqSpecImpl for LoginAttemptId {
    open spec fn obeys_eq_spec() -> bool {
        true
    }

    open spec fn eq_spec(&self, other: &Self) -> bool {
        self@ == other@
    }
}

impl LoginAttemptId {
    /// Generates a fresh random identifier in canonical form.
    pub fn new() -> (r: Self)
        ensures
            r@.len() == 36,
            uuid_canon(r@) == Some(r@),
    {
        let id = fresh_uuid_string();
        LoginAttemptId { value: id }
    }

    /// Validates the identifier's shape, normalizing it to canonical form.
    pub fn parse(id: String) -> (r: Result<Self, LoginAttemptIdParseError>)
        ensures
            r is Ok <==> uuid_canon(id@) is Some,
            r matches Ok(v) ==> uuid_canon(id@) == Some(v@),
    {
        match uuid_normalize(id.as_str()) {
            Some(canonical) => Ok(LoginAttemptId { value: canonical }),
            None => Err(LoginAttemptIdParseError),
        }
    }

    /// Exact equality with another identifier.
    pub fn is_match(&self, other: &LoginAttemptId) -> (r: bool)
        ensures
            r == (self@ == other@),
    {
        self.value == other.value
    }

    /// Exact equality with a raw string.
    pub fn is_match_str(&self, v: &str) -> (r: bool)
        ensures
            r == (self@ == v@),
    {
        let o = v.to_owned();
        self.value == o
    }

    /// Read access to the underlying identifier.
    pub fn as_str(&self) -> (r: &String)
        ensures
            r@ == self@,
    {
        &self.value
    }
}

impl Default for LoginAttemptId {
    /// A fresh random identifier.
    fn default() -> (r: Self)
        ensures
            r@.len() == 36,
            uuid_canon(r@) == Some(r@),
    {
        LoginAttemptId::new()
    }
}

/// The shape of a two-factor code was rejected.
#[derive(Clone, Copy, Debug, PartialEq, Eq, Structural)]
pub struct TwoFACodeParseError;

/// A code is exactly six ASCII digits.
pub open spec fn two_fa_code_ok(s: Seq<char>) -> bool {
    s.len() == 6 && all_ascii_digits(s)
}

/// A six-digit numeric one-time code; comparable for exact equality only.
pub struct TwoFACode {
    value: String,
}

impl View for TwoFACode {
    type V = Seq<char>;

    closed spec fn view(&self) -> Seq<char> {
        self.value@
    }
}

impl Clone for TwoFACode {
    fn clone(&self) -> (r: Self)
        ensures
            r == *self,
    {
        TwoFACode { value: self.value.clone() }
    }
}

impl PartialEq for TwoFACode {
    fn eq(&self, other: &Self) -> (r: bool) {
        self.value == other.value
    }
}

impl vstd::std_specs::cmp::PartialEqSpecImpl for TwoFACode {
    open spec fn obeys_eq_spec() -> bool {
        true
    }

    open spec fn eq_spec(&self, other: &Self) -> bool {
        self@ == other@
    }
}

/// The decimal digit standing for one value below 10.
pub open spec fn digit_char_of(d: int) -> char {
    if d == 0 {
        '0'
    } else if d == 1 {
        '1'
    } else if d == 2 {
        '2'
    } else if d == 3 {
        '3'
    } else if d == 4 {
        '4'
    } else if d == 5 {
        '5'
    } else if d == 6 {
        '6'
    } else if d == 7 {
        '7'
    } else if d == 8 {
        '8'
    } else {
        '9'
    }
}

fn digit_char(d: u32) -> (c: char)
    requires
        d < 10,
    ensures
        c == digit_char_of(d as int),
        is_ascii_digit_char(c),
{
    if d == 0 {
        '0'
    } else if d == 1 {
        '1'
    } else if d == 2 {
        '2'
    } else if d == 3 {
        '3'
    } else if d == 4 {
        '4'
    } else if d == 5 {
        '5'
    } else if d == 6 {
        '6'
    } else if d == 7 {
        '7'
    } else if d == 8 {
        '8'
    } else {
        '9'
    }
}

impl TwoFACode {
    /// Generates a uniformly random six-digit code, zero-padded.
    pub fn new() -> (r: Self)
        ensures
            two_fa_code_ok(r@),
    {
        let n = random_below(1000000);
        let mut digits: Vec<char> = Vec::new();
        digits.push(digit_char((n / 100000) % 10));
        digits.push(digit_char((n / 10000) % 10));
        digits.push(digit_char((n / 1000) % 10));
        digits.push(digit_char((n / 100) % 10));
        digits.push(digit_char((n / 10) % 10));
        digits.push(digit_char(n % 10));
        let code = string_of_chars(&digits);
        assert(forall|i: int| 0 <= i < code@.len() ==> is_ascii_digit_char(#[trigger] code@[i]));
        TwoFACode { value: code }
    }

    /// Requires exactly six ASCII digits.
    pub fn parse(code: String) -> (r: Result<Self, TwoFACodeParseError>)
        ensures
            r is Ok <==> two_fa_code_ok(code@),
            r matches Ok(c) ==> c@ == code@,
    {
        let cs = chars_of(code.as_str());
        let mut i: usize = 0;
        while i < cs.len()
            invariant
                i <= cs@.len(),
                cs@ == code@,
                forall|j: int| 0 <= j < i ==> is_ascii_digit_char(#[trigger] cs@[j]),
            decreases cs@.len() - i,
        {
            if !char_is_ascii_digit(cs[i]) {
                return Err(TwoFACodeParseError);
            }
            i = i + 1;
        }
        if cs.len() != 6 {
            return Err(TwoFACodeParseError);
        }
        Ok(TwoFACode { value: code })
    }

    /// Exact equality with another code.
    pub fn is_match(&self, other: &TwoFACode) -> (r: bool)
        ensures
            r == (self@ == other@),
    {
        self.value == other.value
    }

    /// Exact equality with a raw string.
    pub fn is_match_str(&self, v: &str) -> (r: bool)
        ensures
            r == (self@ == v@),
    {
        let o = v.to_owned();
        self.value == o
    }

    /// Read access to the underlying code.
    pub fn as_str(&self) -> (r: &String)
        ensures
            r@ == self@,
    {
        &self.value
    }
}

impl Default for TwoFACode {
    /// A fresh random code.
    fn default() -> (r: Self)
        ensures
            two_fa_code_ok(r@),
    {
        TwoFACode::new()
    }
}

/// The capability contract of a challenge store: at most one pending
/// two-factor challenge per email, and a new one silently replaces it.
pub trait TwoFACodeStore: Sized {
    /// The pending challenge per email.
    spec fn codes(&self) -> Map<Seq<char>, (LoginAttemptId, TwoFACode)>;

    /// The backend's own invariant, established at construction and
    /// preserved by every operation.
    spec fn wf(&self) -> bool;

    /// Stores a challenge, unconditionally overwriting any pending one
    /// for that email; a failed add leaves the store unchanged.
    fn add_code(&mut self, email: Email, login_attempt_id: LoginAttemptId, code: TwoFACode) -> (r:
        Result<(), TwoFACodeStoreError>)
        requires
            old(self).wf(),
        ensures
            final(self).wf(),
            r matches Ok(()) ==> final(self).codes() == old(self).codes().insert(
                email@,
                (login_attempt_id, code),
            ),
            r is Err ==> final(self).codes() == old(self).codes() && r matches Err(
                TwoFACodeStoreError::UnexpectedError,
            ),
    ;

    /// Removes the pending challenge; failing if none is pending. A
    /// failed remove leaves the store unchanged.
    fn remove_code(&mut self, email: &Email) -> (r: Result<(), TwoFACodeStoreError>)
        requires
            old(self).wf(),
        ensures
            final(self).wf(),
            r matches Ok(()) ==> old(self).codes().contains_key(email@) && final(self).codes()
                == old(self).codes().remove(email@),
            r is Err ==> final(self).codes() == old(self).codes(),
            !old(self).codes().contains_key(email@) ==> r is Err,
            r matches Err(TwoFACodeStoreError::LoginAttemptIdNotFound) ==> !old(
                self,
            ).codes().contains_key(email@),
    ;

    /// Reads the pending challenge, if one is pending.
    fn get_code(&self, email: &Email) -> (r: Result<
        (LoginAttemptId, TwoFACode),
        TwoFACodeStoreError,
    >)
        requires
            self.wf(),
        ensures
            r matches Ok(v) ==> self.codes().contains_key(email@) && v == self.codes()[email@],
            !self.codes().contains_key(email@) ==> r is Err,
            r matches Err(TwoFACodeStoreError::LoginAttemptIdNotFound) ==> !self.codes(
            ).contains_key(email@),
    ;
}

} // verus!
