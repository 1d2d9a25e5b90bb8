use vstd::prelude::*;
use crate::strings::{
    chars_of, char_is_whitespace, contains_char, has_whitespace, is_whitespace_char,
    string_of_chars,
};

verus! {

/// Why a string was rejected as an email address.
#[derive(Clone, Copy, Debug, PartialEq, Eq, Structural)]
pub enum EmailError {
    BadFormat,
    EmptyValue,
    MissingAtSymbol,
}

/// What `validator::validate_email` returns on a given string: the
/// HTML5 email-format check, a function of the characters alone.
pub uninterp spec fn email_format_ok(s: Seq<char>) -> bool;

/// Relies on `validator::validate_email`: validates the string against the
/// HTML5 email format; the result depends on the characters alone.
#[verifier::external_body]
fn email_format_check(s: &str) -> (r: bool)
    ensures
        r == email_format_ok(s@),
{
    validator::validate_email(s)
}

/// What `twox_hash::Xxh3Hash128` (seed 0), fed the string through
/// `Hash::hash` and read back with `Hasher::finish`, returns: a
/// 64-bit digest that depends on the characters alone.
pub uninterp spec fn xxh3_64_of(s: Seq<char>) -> u64;

/// Relies on `twox_hash::Xxh3Hash128` with seed 0: a deterministic digest
/// of the string's bytes, read back as its low 64 bits.
#[verifier::external_body]
fn xxh3_64(s: &str) -> (r: u64)
    ensures
        r == xxh3_64_of(s@),
{
    let mut hasher = twox_hash::Xxh3Hash128::with_seed(0);
    std::hash::Hash::hash(s, &mut hasher);
    std::hash::Hasher::finish(&hasher)
}

/// The string holds exactly one `@`, and it stands at index `i`.
pub open spec fn at_exactly(s: Seq<char>, i: int) -> bool {
    &&& 0 <= i < s.len()
    &&& s[i] == '@'
    &&& forall|j: int| 0 <= j < s.len() && #[trigger] s[j] == '@' ==> j == i
}

/// The checks on the two parts around the `@` at index `i`: the local
/// part is not bounded by `.`, and the domain part holds a `.` and is
/// not bounded by one.
pub open spec fn local_domain_ok(s: Seq<char>, i: int) -> bool {
    &&& (i > 0 ==> s[0] != '.' && s[i - 1] != '.')
    &&& contains_char(s.subrange(i + 1, s.len() as int), '.')
    &&& (i + 1 < s.len() ==> s[i + 1] != '.' && s[s.len() - 1] != '.')
}

/// The structural part of email validity: non-empty, no whitespace,
/// exactly one `@`, and both parts around it sound.
pub open spec fn email_structure_ok(s: Seq<char>) -> bool {
    &&& s.len() > 0
    &&& !has_whitespace(s)
    &&& exists|i: int| #[trigger] at_exactly(s, i) && local_domain_ok(s, i)
}

/// Once the position of the single `@` is fixed, the structural check
/// reduces to the checks at that position.
pub proof fn lemma_structure_at(s: Seq<char>, k: int)
    requires
        at_exactly(s, k),
    ensures
        email_structure_ok(s) <==> (s.len() > 0 && !has_whitespace(s) && local_domain_ok(s, k)),
{
    if email_structure_ok(s) {
        let i = choose|i: int| #[trigger] at_exactly(s, i) && local_domain_ok(s, i);
        assert(s[k] == '@');
        assert(i == k);
    }
    if s.len() > 0 && !has_whitespace(s) && local_domain_ok(s, k) {
        assert(at_exactly(s, k) && local_domain_ok(s, k));
    }
}

/// A string is accepted as an email exactly when it is structurally
/// sound and passes the general email-format check.
pub open spec fn email_valid(s: Seq<char>) -> bool {
    email_structure_ok(s) && email_format_ok(s)
}

/// The error reported for a rejected string: the first failing check
/// decides, and every failure past the missing-`@` check is `BadFormat`.
pub open spec fn email_error_of(s: Seq<char>) -> EmailError {
    if s.len() == 0 {
        EmailError::EmptyValue
    } else if has_whitespace(s) {
        EmailError::BadFormat
    } else if !contains_char(s, '@') {
        EmailError::MissingAtSymbol
    } else {
        EmailError::BadFormat
    }
}

/// Every string without an `@`, unless empty or holding whitespace, is
/// rejected specifically as `MissingAtSymbol`.
pub proof fn lemma_missing_at_symbol(s: Seq<char>)
    requires
        s.len() > 0,
        !has_whitespace(s),
        !contains_char(s, '@'),
    ensures
        !email_valid(s),
        email_error_of(s) == EmailError::MissingAtSymbol,
{
}

/// A validated email address. The underlying string is reachable only
/// through an explicit accessor, so it cannot leak into logs by accident.
pub struct Email {
    value: String,
}

impl View for Email {
    type V = Seq<char>;

    closed spec fn view(&self) -> Seq<char> {
        self.value@
    }
}

impl Clone for Email {
    fn clone(&self) -> (r: Self)
        ensures
            r == *self,
    {
        Email { value: self.value.clone() }
    }
}

impl PartialEq for Email {
    fn eq(&self, other: &Self) -> (r: bool) {
        self.value == other.value
    }
}

impl vstd::std_specs::cmp::PartialEqSpecImpl for Email {
    open spec fn obeys_eq_spec() -> bool {
        true
    }

    open spec fn eq_spec(&self, other: &Self) -> bool {
        self@ == other@
    }
}

impl Email {
    /// Validates a raw string as an email address. The checks run in a
    /// fixed order and the first failing one decides the error.
    pub fn parse(email: String) -> (r: Result<Email, EmailError>)
        ensures
            r is Ok <==> email_valid(email@),
            r matches Ok(e) ==> e@ == email@,
            r matches Err(er) ==> er == email_error_of(email@),
    {
        let cs = chars_of(email.as_str());
        let n = cs.len();
        if n == 0 {
            return Err(EmailError::EmptyValue);
        }
        let mut i: usize = 0;
        while i < n
            invariant
                n == cs@.len(),
                cs@ == email@,
                i <= n,
                forall|j: int| 0 <= j < i ==> !is_whitespace_char(cs@[j]),
            decreases n - i,
        {
            if char_is_whitespace(cs[i]) {
                assert(has_whitespace(email@));
                return Err(EmailError::BadFormat);
            }
            i = i + 1;
        }
        assert(!has_whitespace(email@));

        // Find the unique position of '@', if any.
        let mut has_at = false;
        let mut k: usize = 0;
        let mut dup = false;
        let ghost mut other: int = 0;
        let mut i: usize = 0;
        while i < n
            invariant
                n == cs@.len(),
                cs@ == email@,
                i <= n,
                !has_at ==> forall|j: int| 0 <= j < i ==> cs@[j] != '@',
                has_at ==> k < i && cs@[k as int] == '@',
                has_at && !dup ==> forall|j: int| 0 <= j < i && cs@[j] == '@' ==> j == k,
                dup ==> has_at && 0 <= other < i && other != k && cs@[other] == '@',
            decreases n - i,
        {
            if cs[i] == '@' {
                if has_at {
                    dup = true;
                    proof {
                        other = i as int;
                    }
                } else {
                    has_at = true;
                    k = i;
                }
            }
            i = i + 1;
        }
        if !has_at {
            assert(!contains_char(email@, '@'));
            assert(!email_structure_ok(email@)) by {
                if exists|i: int| #[trigger] at_exactly(email@, i) && local_domain_ok(email@, i) {
                    let i = choose|i: int|
                        #[trigger] at_exactly(email@, i) && local_domain_ok(email@, i);
                    assert(email@[i] == '@');
                    assert(contains_char(email@, '@'));
                }
            }
            return Err(EmailError::MissingAtSymbol);
        }
        assert(contains_char(email@, '@'));
        if dup {
            assert(!email_structure_ok(email@)) by {
                if exists|i: int| #[trigger] at_exactly(email@, i) && local_domain_ok(email@, i) {
                    let i = choose|i: int|
                        #[trigger] at_exactly(email@, i) && local_domain_ok(email@, i);
                    assert(k as int == i);
                    assert(other == i);
                }
            }
            return Err(EmailError::BadFormat);
        }
        // Exactly one '@' stands at index k.
        assert(at_exactly(email@, k as int));
        proof {
            lemma_structure_at(email@, k as int);
        }

        if k > 0 && (cs[0] == '.' || cs[k - 1] == '.') {
            return Err(EmailError::BadFormat);
        }

        // The domain part must hold a '.', and not at either end.
        let mut has_dot = false;
        let mut i: usize = k + 1;
        while i < n
            invariant
                n == cs@.len(),
                cs@ == email@,
                k < n,
                k + 1 <= i <= n,
                !has_dot ==> forall|j: int| k < j < i ==> cs@[j] != '.',
                has_dot ==> exists|j: int| k < j < n && cs@[j] == '.',
            decreases n - i,
        {
            if cs[i] == '.' {
                has_dot = true;
            }
            i = i + 1;
        }
        proof {
            let d = email@.subrange(k + 1, email@.len() as int);
            if has_dot {
                let j = choose|j: int| k < j < n && cs@[j] == '.';
                assert(d[j - (k + 1)] == '.');
                assert(contains_char(d, '.'));
            } else {
                assert forall|m: int| 0 <= m < d.len() implies d[m] != '.' by {
                    assert(d[m] == email@[m + k + 1]);
                }
                assert(!contains_char(d, '.'));
            }
        }
        if !has_dot {
            return Err(EmailError::BadFormat);
        }
        if k + 1 < n && (cs[k + 1] == '.' || cs[n - 1] == '.') {
            return Err(EmailError::BadFormat);
        }
        assert(email_structure_ok(email@));

        if email_format_check(email.as_str()) {
            Ok(Email { value: email })
        } else {
            Err(EmailError::BadFormat)
        }
    }

    /// Read access to the underlying address.
    pub fn expose_secret(&self) -> (r: &str)
        ensures
            r@ == self@,
    {
        self.value.as_str()
    }

    /// The 128-bit-family digest of the address, printed as 32 hex digits:
    /// 16 leading zeros followed by the 64-bit digest, most significant
    /// nibble first.
    pub fn hash_secret_twox128(&self) -> (r: String)
        ensures
            r@ == hex32_of(xxh3_64_of(self@)),
    {
        let h = xxh3_64(self.value.as_str());
        let mut digits: Vec<char> = Vec::new();
        let mut i: usize = 0;
        while i < 16
            invariant
                i <= 16,
                digits@ == Seq::new(i as nat, |j: int| '0'),
            decreases 16 - i,
        {
            digits.push('0');
            i = i + 1;
            proof {
                assert(digits@ =~= Seq::new(i as nat, |j: int| '0'));
            }
        }
        let mut i: usize = 0;
        while i < 16
            invariant
                i <= 16,
                digits@.len() == 16 + i,
                forall|j: int| 0 <= j < 16 ==> digits@[j] == '0',
                forall|j: int| 16 <= j < 16 + i ==> digits@[j] == hex_digit_of(nibble(h, j - 16)),
            decreases 16 - i,
        {
            let shift: u64 = (60 - 4 * (i as u64)) as u64;
            let d = (h >> shift) & 0xf;
            assert(d == nibble(h, i as int)) by (bit_vector)
                requires
                    shift == 60 - 4 * (i as u64),
                    i < 16,
                    d == (h >> shift) & 0xf,
            ;
            assert(d <= 0xf) by (bit_vector)
                requires
                    d == (h >> shift) & 0xf,
            ;
            digits.push(hex_digit_char(d));
            i = i + 1;
        }
        proof {
            assert(digits@ =~= hex32_of(xxh3_64_of(self@)));
        }
        string_of_chars(&digits)
    }
}

/// The hex digit standing for one value below 16, lower case.
pub open spec fn hex_digit_of(j: int) -> char {
    if j == 0 {
        '0'
    } else if j == 1 {
        '1'
    } else if j == 2 {
        '2'
    } else if j == 3 {
        '3'
    } else if j == 4 {
        '4'
    } else if j == 5 {
        '5'
    } else if j == 6 {
        '6'
    } else if j == 7 {
        '7'
    } else if j == 8 {
        '8'
    } else if j == 9 {
        '9'
    } else if j == 10 {
        'a'
    } else if j == 11 {
        'b'
    } else if j == 12 {
        'c'
    } else if j == 13 {
        'd'
    } else if j == 14 {
        'e'
    } else {
        'f'
    }
}

/// The `j`-th nibble of a 64-bit value, most significant first.
pub open spec fn nibble(h: u64, j: int) -> int {
    ((h >> ((60 - 4 * j) as u64)) & 0xf) as int
}

/// The 32-character lower-case hex form of a 64-bit value with 16
/// leading zeros, as `{:032x}` prints it.
pub open spec fn hex32_of(h: u64) -> Seq<char> {
    Seq::new(32, |i: int| if i < 16 { '0' } else { hex_digit_of(nibble(h, i - 16)) })
}

fn hex_digit_char(d: u64) -> (c: char)
    requires
        d <= 0xf,
    ensures
        c == hex_digit_of(d as int),
{
    if d == 0 {
        '0'
    } else if d == 1 {
        '1'
    } else if d == 2 {
        '2'
    } else if d == 3 {
        '3'
    } else if d == 4 {
        '4'
    } else if d == 5 {
        '5'
    } else if d == 6 {
        '6'
    } else if d == 7 {
        '7'
    } else if d == 8 {
        '8'
    } else if d == 9 {
        '9'
    } else if d == 10 {
        'a'
    } else if d == 11 {
        'b'
    } else if d == 12 {
        'c'
    } else if d == 13 {
        'd'
    } else if d == 14 {
        'e'
    } else {
        'f'
    }
}

} // verus!
