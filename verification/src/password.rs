use vstd::prelude::*;
use crate::strings::{chars_of, char_is_ascii_digit, is_ascii_digit_char};
use vstd::string::StrSliceExecFns;

verus! {

/// Why a string was rejected as a password.
#[derive(Clone, Copy, Debug, PartialEq, Eq, Structural)]
pub enum PasswordError {
    BlankValue,
    Insecure,
    TooShort,
}

/// Which validation policy is in force. The policy is a configuration
/// value of the running service, not something a caller picks per request.
#[derive(Clone, Copy, Debug, PartialEq, Eq, Structural)]
pub enum PasswordPolicy {
    /// Non-empty and a small minimum length; for development setups.
    Development,
    /// Minimum length 8 and one character of each class: upper, lower,
    /// digit, symbol.
    Production,
}

/// What `char::is_uppercase` returns: the Unicode `Uppercase` property,
/// a function of the character alone.
pub uninterp spec fn uppercase_char(c: char) -> bool;

/// What `char::is_lowercase` returns: the Unicode `Lowercase` property,
/// a function of the character alone.
pub uninterp spec fn lowercase_char(c: char) -> bool;

/// Relies on `char::is_uppercase`: the Unicode `Uppercase` property,
/// which on ASCII holds exactly of 'A' to 'Z'.
#[verifier::external_body]
fn char_is_uppercase(c: char) -> (r: bool)
    ensures
        r == uppercase_char(c),
        ((c as u32) < 128) ==> (r <==> (0x41 <= c as u32 && c as u32 <= 0x5A)),
{
    c.is_uppercase()
}

/// Relies on `char::is_lowercase`: the Unicode `Lowercase` property,
/// which on ASCII holds exactly of 'a' to 'z'.
#[verifier::external_body]
fn char_is_lowercase(c: char) -> (r: bool)
    ensures
        r == lowercase_char(c),
        ((c as u32) < 128) ==> (r <==> (0x61 <= c as u32 && c as u32 <= 0x7A)),
{
    c.is_lowercase()
}

/// The punctuation characters the production policy counts as symbols.
pub open spec fn is_symbol_char(c: char) -> bool {
    c == '!' || c == '@' || c == '#' || c == '$' || c == '%' || c == '^' || c == '&' || c == '*'
        || c == '(' || c == ')' || c == '_' || c == '+' || c == '-' || c == '=' || c == '[' || c
        == ']' || c == '{' || c == '}' || c == '|' || c == ';' || c == '\'' || c == ':' || c == '"'
        || c == ',' || c == '.' || c == '<' || c == '>' || c == '?' || c == '/' || c == '`' || c
        == '~'
}

fn char_is_symbol(c: char) -> (r: bool)
    ensures
        r == is_symbol_char(c),
{
    c == '!' || c == '@' || c == '#' || c == '$' || c == '%' || c == '^' || c == '&' || c == '*'
        || c == '(' || c == ')' || c == '_' || c == '+' || c == '-' || c == '=' || c == '[' || c
        == ']' || c == '{' || c == '}' || c == '|' || c == ';' || c == '\'' || c == ':' || c == '"'
        || c == ',' || c == '.' || c == '<' || c == '>' || c == '?' || c == '/' || c == '`' || c
        == '~'
}

/// The development policy accepts any password of at least 4 characters.
pub open spec fn acceptable_password(s: Seq<char>) -> bool {
    s.len() >= 4
}

/// The error the development policy reports for a rejected password.
pub open spec fn acceptable_error_of(s: Seq<char>) -> PasswordError {
    if s.len() == 0 {
        PasswordError::BlankValue
    } else {
        PasswordError::TooShort
    }
}

/// The production policy asks for length 8 and one character of each
/// of the four classes.
pub open spec fn secure_password(s: Seq<char>) -> bool {
    &&& s.len() >= 8
    &&& exists|i: int| 0 <= i < s.len() && uppercase_char(#[trigger] s[i])
    &&& exists|i: int| 0 <= i < s.len() && lowercase_char(#[trigger] s[i])
    &&& exists|i: int| 0 <= i < s.len() && is_ascii_digit_char(#[trigger] s[i])
    &&& exists|i: int| 0 <= i < s.len() && is_symbol_char(#[trigger] s[i])
}

/// The error the production policy reports for a rejected password.
pub open spec fn secure_error_of(s: Seq<char>) -> PasswordError {
    if s.len() == 0 {
        PasswordError::BlankValue
    } else if s.len() < 8 {
        PasswordError::TooShort
    } else {
        PasswordError::Insecure
    }
}

/// Whether the given policy accepts the password.
pub open spec fn password_ok(policy: PasswordPolicy, s: Seq<char>) -> bool {
    match policy {
        PasswordPolicy::Development => acceptable_password(s),
        PasswordPolicy::Production => secure_password(s),
    }
}

/// The error the given policy reports for a rejected password.
pub open spec fn password_error_of(policy: PasswordPolicy, s: Seq<char>) -> PasswordError {
    match policy {
        PasswordPolicy::Development => acceptable_error_of(s),
        PasswordPolicy::Production => secure_error_of(s),
    }
}

/// A validated secret string. The underlying value is reachable only
/// through an explicit accessor and carries no formatting impls, so it
/// cannot leak into logs by accident.
pub struct Password {
    value: String,
}

impl View for Password {
    type V = Seq<char>;

    closed spec fn view(&self) -> Seq<char> {
        self.value@
    }
}

impl Clone for Password {
    fn clone(&self) -> (r: Self)
        ensures
            r == *self,
    {
        Password { value: self.value.clone() }
    }
}

impl PartialEq for Password {
    fn eq(&self, other: &Self) -> (r: bool) {
        self.value == other.value
    }
}

impl vstd::std_specs::cmp::PartialEqSpecImpl for Password {
    open spec fn obeys_eq_spec() -> bool {
        true
    }

    open spec fn eq_spec(&self, other: &Self) -> bool {
        self@ == other@
    }
}

impl Password {
    /// Validates a raw string under the given policy. The policy accepts
    /// the password exactly when its length and character-class rules hold.
    pub fn parse(s: String, policy: PasswordPolicy) -> (r: Result<Password, PasswordError>)
        ensures
            r is Ok <==> password_ok(policy, s@),
            r matches Ok(p) ==> p@ == s@,
            r matches Err(e) ==> e == password_error_of(policy, s@),
    {
        let check = match policy {
            PasswordPolicy::Development => Password::is_acceptable(s.as_str()),
            PasswordPolicy::Production => Password::is_secure(s.as_str()),
        };
        match check {
            Ok(()) => Ok(Password { value: s }),
            Err(e) => Err(e),
        }
    }

    /// Read access to the underlying secret.
    pub fn expose(&self) -> (r: &String)
        ensures
            r@ == self@,
    {
        &self.value
    }

    /// The development policy: non-empty and at least 4 characters.
    /// Lengths count Unicode characters, not bytes, so a multi-byte
    /// character counts once.
    pub fn is_acceptable(password: &str) -> (r: Result<(), PasswordError>)
        ensures
            r is Ok <==> acceptable_password(password@),
            r matches Err(e) ==> e == acceptable_error_of(password@),
    {
        let n = password.unicode_len();
        if n == 0 {
            Err(PasswordError::BlankValue)
        } else if n < 4 {
            Err(PasswordError::TooShort)
        } else {
            Ok(())
        }
    }

    /// The production policy: at least 8 characters, with at least one
    /// uppercase letter, one lowercase letter, one digit and one symbol.
    /// Lengths count Unicode characters, not bytes, so a multi-byte
    /// character counts once.
    pub fn is_secure(password: &str) -> (r: Result<(), PasswordError>)
        ensures
            r is Ok <==> secure_password(password@),
            r matches Err(e) ==> e == secure_error_of(password@),
    {
        let cs = chars_of(password);
        let n = cs.len();
        if n == 0 {
            return Err(PasswordError::BlankValue);
        }
        if n < 8 {
            return Err(PasswordError::TooShort);
        }
        if !Password::has_class(&cs, CharClass::Upper) {
            return Err(PasswordError::Insecure);
        }
        if !Password::has_class(&cs, CharClass::Lower) {
            return Err(PasswordError::Insecure);
        }
        if !Password::has_class(&cs, CharClass::Digit) {
            return Err(PasswordError::Insecure);
        }
        if !Password::has_class(&cs, CharClass::Symbol) {
            return Err(PasswordError::Insecure);
        }
        Ok(())
    }

    /// Whether some character of the password falls in the class.
    fn has_class(cs: &Vec<char>, class: CharClass) -> (r: bool)
        ensures
            r == exists|i: int| 0 <= i < cs@.len() && char_in_class(#[trigger] cs@[i], class),
    {
        let mut i: usize = 0;
        while i < cs.len()
            invariant
                i <= cs@.len(),
                forall|j: int| 0 <= j < i ==> !char_in_class(#[trigger] cs@[j], class),
            decreases cs@.len() - i,
        {
            let c = cs[i];
            let hit = match class {
                CharClass::Upper => char_is_uppercase(c),
                CharClass::Lower => char_is_lowercase(c),
                CharClass::Digit => char_is_ascii_digit(c),
                CharClass::Symbol => char_is_symbol(c),
            };
            if hit {
                return true;
            }
            i = i + 1;
        }
        false
    }
}

/// The four character classes the production policy looks for.
#[derive(Clone, Copy, Debug, PartialEq, Eq, Structural)]
enum CharClass {
    Upper,
    Lower,
    Digit,
    Symbol,
}

/// Membership of a character in one of the four classes.
spec fn char_in_class(c: char, class: CharClass) -> bool {
    match class {
        CharClass::Upper => uppercase_char(c),
        CharClass::Lower => lowercase_char(c),
        CharClass::Digit => is_ascii_digit_char(c),
        CharClass::Symbol => is_symbol_char(c),
    }
}

} // verus!
