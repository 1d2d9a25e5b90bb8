use vstd::prelude::*;
use vstd::string::StrSliceExecFns;
use crate::strings::{chars_of, push_char, repeat_char};

verus! {

/// How many characters of a secret of the given length may be shown:
/// the longer the secret, the more of it a redacted display reveals.
pub open spec fn reveal_count_of(len: nat) -> nat {
    if len <= 6 {
        0
    } else if len <= 10 {
        1
    } else if len <= 14 {
        3
    } else if len <= 18 {
        5
    } else if len <= 22 {
        7
    } else if len <= 26 {
        9
    } else {
        12
    }
}

/// The reveal count never exceeds the secret's own length.
pub proof fn lemma_reveal_count_bounded(len: nat)
    ensures
        reveal_count_of(len) <= len,
        reveal_count_of(len) <= 12,
{
}

/// Sizing rule behind the redacted displays.
pub trait Helper {
    /// How many characters of the given value may be shown.
    fn number_of_characters_to_reveal(&self, v: &str) -> (n: usize)
        ensures
            n == reveal_count_of(v@.len()),
    {
        let len = v.unicode_len();
        if len <= 6 {
            0
        } else if len <= 10 {
            1
        } else if len <= 14 {
            3
        } else if len <= 18 {
            5
        } else if len <= 22 {
            7
        } else if len <= 26 {
            9
        } else {
            12
        }
    }
}

impl<T> Helper for T {

}

/// A fixed bar of stars with the secret's last characters showing
/// through, as many as the sizing rule allows.
pub open spec fn stars_leading_spec(s: Seq<char>) -> Seq<char> {
    Seq::new((40 - reveal_count_of(s.len()) + 1) as nat, |i: int| '*') + s.subrange(
        s.len() - reveal_count_of(s.len()),
        s.len() as int,
    )
}

/// A fixed bar of stars with the secret's first characters showing
/// through, as many as the sizing rule allows.
pub open spec fn stars_trailing_spec(s: Seq<char>) -> Seq<char> {
    s.subrange(0, reveal_count_of(s.len()) as int) + Seq::new(
        (40 - reveal_count_of(s.len()) + 1) as nat,
        |i: int| '*',
    )
}

/// Redacted displays of a secret value, for configuration summaries
/// and logs.
pub trait Smoker: Helper + Sized {
    /// The characters of the underlying value.
    spec fn raw_view(&self) -> Seq<char>;

    /// Read access to the underlying value.
    fn raw(&self) -> (r: &str)
        ensures
            r@ == self.raw_view(),
    ;

    /// One star for each character of the secret.
    fn stars_exact_length(&self) -> (r: String)
        ensures
            r@ == Seq::new(self.raw_view().len(), |i: int| '*'),
    {
        let raw = self.raw();
        repeat_char('*', raw.unicode_len())
    }

    /// A fixed-width bar of stars, independent of the secret.
    fn stars_standard(&self) -> (r: String)
        ensures
            r@ == Seq::new(40, |i: int| '*'),
    {
        repeat_char('*', 40)
    }

    /// Stars, then the last characters of the secret.
    fn stars_leading(&self) -> (r: String)
        ensures
            r@ == stars_leading_spec(self.raw_view()),
    {
        let raw = self.raw();
        let cs = chars_of(raw);
        let n = cs.len();
        let show = self.number_of_characters_to_reveal(raw);
        proof {
            lemma_reveal_count_bounded(raw@.len());
        }
        let hide = 40 - show;
        let mut out = repeat_char('*', hide + 1);
        let mut i: usize = n - show;
        while i < n
            invariant
                n == cs@.len(),
                cs@ == self.raw_view(),
                show == reveal_count_of(cs@.len()),
                show <= n,
                n - show <= i <= n,
                out@ == Seq::new((40 - show + 1) as nat, |j: int| '*') + cs@.subrange(
                    (n - show) as int,
                    i as int,
                ),
            decreases n - i,
        {
            push_char(&mut out, cs[i]);
            i = i + 1;
            proof {
                assert(out@ =~= Seq::new((40 - show + 1) as nat, |j: int| '*') + cs@.subrange(
                    (n - show) as int,
                    i as int,
                ));
            }
        }
        proof {
            assert(out@ =~= stars_leading_spec(self.raw_view()));
        }
        out
    }

    /// The first characters of the secret, then stars.
    fn stars_trailing(&self) -> (r: String)
        ensures
            r@ == stars_trailing_spec(self.raw_view()),
    {
        let raw = self.raw();
        let cs = chars_of(raw);
        let n = cs.len();
        let show = self.number_of_characters_to_reveal(raw);
        proof {
            lemma_reveal_count_bounded(raw@.len());
        }
        let hide = 40 - show;
        let mut out = String::new();
        let mut i: usize = 0;
        while i < show
            invariant
                n == cs@.len(),
                cs@ == self.raw_view(),
                show == reveal_count_of(cs@.len()),
                show <= n,
                i <= show,
                out@ == cs@.subrange(0, i as int),
            decreases show - i,
        {
            push_char(&mut out, cs[i]);
            i = i + 1;
            proof {
                assert(out@ =~= cs@.subrange(0, i as int));
            }
        }
        let mut j: usize = 0;
        while j < hide + 1
            invariant
                show == reveal_count_of(cs@.len()),
                cs@ == self.raw_view(),
                show <= n,
                n == cs@.len(),
                hide == 40 - show,
                j <= hide + 1,
                out@ == cs@.subrange(0, show as int) + Seq::new(j as nat, |k: int| '*'),
            decreases hide + 1 - j,
        {
            push_char(&mut out, '*');
            j = j + 1;
            proof {
                assert(out@ =~= cs@.subrange(0, show as int) + Seq::new(j as nat, |k: int| '*'));
            }
        }
        proof {
            assert(out@ =~= stars_trailing_spec(self.raw_view()));
        }
        out
    }
}

impl Smoker for String {
    open spec fn raw_view(&self) -> Seq<char> {
        self@
    }

    fn raw(&self) -> (r: &str) {
        self.as_str()
    }
}

} // verus!
