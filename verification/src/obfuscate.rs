use vstd::prelude::*;
use crate::strings::{chars_of, repeat_char, string_of_chars};

verus! {

/// A secret shown with its first four characters only; anything shorter
/// is fully starred.
pub open spec fn masked_spec(s: Seq<char>) -> Seq<char> {
    if s.len() <= 4 {
        Seq::new(s.len(), |i: int| '*')
    } else {
        s.subrange(0, 4) + Seq::new((s.len() - 4) as nat, |i: int| '*')
    }
}

/// A secret shown with its last four characters only; anything shorter
/// is fully starred.
pub open spec fn mask_secret_spec(s: Seq<char>) -> Seq<char> {
    if s.len() <= 4 {
        Seq::new(s.len(), |i: int| '*')
    } else {
        Seq::new((s.len() - 4) as nat, |i: int| '*') + s.subrange(
            s.len() - 4,
            s.len() as int,
        )
    }
}

/// Display of a secret always goes through an explicit masking call, so
/// a leak is a visible call site.
pub trait MaskSecret: View<V = Seq<char>> + Sized {
    /// The secret with all but its first four characters starred out.
    fn masked(&self) -> (r: String)
        ensures
            r@ == masked_spec(self@),
    ;
}

impl MaskSecret for String {
    fn masked(&self) -> (r: String) {
        let cs = chars_of(self.as_str());
        let n = cs.len();
        if n <= 4 {
            repeat_char('*', n)
        } else {
            let mut out: Vec<char> = Vec::new();
            out.push(cs[0]);
            out.push(cs[1]);
            out.push(cs[2]);
            out.push(cs[3]);
            let mut i: usize = 4;
            while i < n
                invariant
                    4 <= i <= n,
                    n == cs@.len(),
                    cs@ == self@,
                    out@ == self@.subrange(0, 4) + Seq::new((i - 4) as nat, |j: int| '*'),
                decreases n - i,
            {
                out.push('*');
                i = i + 1;
                proof {
                    assert(out@ =~= self@.subrange(0, 4) + Seq::new((i - 4) as nat, |j: int| '*'));
                }
            }
            let r = string_of_chars(&out);
            proof {
                assert(out@ =~= self@.subrange(0, 4) + Seq::new((n - 4) as nat, |j: int| '*'));
            }
            r
        }
    }
}

/// The secret with all but its last four characters starred out; for
/// configuration summaries.
pub fn mask_secret(secret: &str) -> (r: String)
    ensures
        r@ == mask_secret_spec(secret@),
{
    let cs = chars_of(secret);
    let n = cs.len();
    if n <= 4 {
        repeat_char('*', n)
    } else {
        let mut out: Vec<char> = Vec::new();
        let mut i: usize = 0;
        while i < n - 4
            invariant
                i <= n - 4,
                4 < n,
                n == cs@.len(),
                cs@ == secret@,
                out@ == Seq::new(i as nat, |j: int| '*'),
            decreases n - i,
        {
            out.push('*');
            i = i + 1;
            proof {
                assert(out@ =~= Seq::new(i as nat, |j: int| '*'));
            }
        }
        while i < n
            invariant
                4 < n,
                n - 4 <= i <= n,
                n == cs@.len(),
                cs@ == secret@,
                out@ == Seq::new((n - 4) as nat, |j: int| '*') + secret@.subrange(
                    (n - 4) as int,
                    i as int,
                ),
            decreases n - i,
        {
            out.push(cs[i]);
            i = i + 1;
            proof {
                assert(out@ =~= Seq::new((n - 4) as nat, |j: int| '*') + secret@.subrange(
                    (n - 4) as int,
                    i as int,
                ));
            }
        }
        string_of_chars(&out)
    }
}

} // verus!
