use vstd::prelude::*;
use crate::data_stores::{LoginAttemptId, TwoFACode, TwoFACodeStore, TwoFACodeStoreError};
use crate::email::Email;

verus! {

/// The index of the entry keyed by `k`, where one exists.
pub open spec fn code_index(s: Seq<(Email, LoginAttemptId, TwoFACode)>, k: Seq<char>) -> int {
    choose|i: int| 0 <= i < s.len() && s[i].0@ == k
}

/// The mapping from email to pending challenge that a sequence of
/// entries holds.
pub open spec fn code_map(s: Seq<(Email, LoginAttemptId, TwoFACode)>) -> Map<
    Seq<char>,
    (LoginAttemptId, TwoFACode),
> {
    Map::new(
        |k: Seq<char>| exists|i: int| 0 <= i < s.len() && (#[trigger] s[i].0@) == k,
        |k: Seq<char>| (s[code_index(s, k)].1, s[code_index(s, k)].2),
    )
}

/// No two entries share an email.
pub open spec fn distinct_code_emails(s: Seq<(Email, LoginAttemptId, TwoFACode)>) -> bool {
    forall|i: int, j: int|
        0 <= i < s.len() && 0 <= j < s.len() && i != j ==> (#[trigger] s[i].0@) != (
        #[trigger] s[j].0@)
}

/// Appending an entry for a fresh email inserts it into the mapping.
proof fn lemma_code_map_push(pre: Seq<(Email, LoginAttemptId, TwoFACode)>, e: (
    Email,
    LoginAttemptId,
    TwoFACode,
))
    requires
        distinct_code_emails(pre),
        forall|i: int| 0 <= i < pre.len() ==> (#[trigger] pre[i].0@) != e.0@,
    ensures
        code_map(pre.push(e)) == code_map(pre).insert(e.0@, (e.1, e.2)),
        distinct_code_emails(pre.push(e)),
{
    let cur = pre.push(e);
    assert forall|k2: Seq<char>|
        code_map(cur).dom().contains(k2) <==> (code_map(pre).dom().contains(k2) || k2
            == e.0@) by {
        if code_map(cur).dom().contains(k2) {
            let i = choose|i: int| 0 <= i < cur.len() && (#[trigger] cur[i].0@) == k2;
            if i < pre.len() {
                assert(pre[i].0@ == k2);
            }
        }
        if code_map(pre).dom().contains(k2) {
            let i = choose|i: int| 0 <= i < pre.len() && (#[trigger] pre[i].0@) == k2;
            assert(cur[i].0@ == k2);
        }
        if k2 == e.0@ {
            assert(cur[pre.len() as int].0@ == k2);
        }
    }
    assert forall|k2: Seq<char>| #[trigger]
        code_map(cur).dom().contains(k2) implies code_map(cur)[k2] == code_map(pre).insert(
        e.0@,
        (e.1, e.2),
    )[k2] by {
        let i = code_index(cur, k2);
        assert(0 <= i < cur.len() && cur[i].0@ == k2);
        if k2 == e.0@ {
            assert forall|j: int| 0 <= j < pre.len() implies (#[trigger] pre[j].0@) != e.0@ by {}
            assert(i == pre.len());
        } else {
            assert(i < pre.len());
            let i2 = code_index(pre, k2);
            assert(pre[i2].0@ == k2);
            assert(i2 == i);
        }
    }
    assert(code_map(cur) =~= code_map(pre).insert(e.0@, (e.1, e.2)));
}

/// Removing the entry at one index removes its email from the mapping.
proof fn lemma_code_map_remove(pre: Seq<(Email, LoginAttemptId, TwoFACode)>, i: int)
    requires
        distinct_code_emails(pre),
        0 <= i < pre.len(),
    ensures
        code_map(pre.remove(i)) == code_map(pre).remove(pre[i].0@),
        distinct_code_emails(pre.remove(i)),
        forall|j: int|
            0 <= j < pre.remove(i).len() ==> (#[trigger] pre.remove(i)[j].0@) != pre[i].0@,
{
    let k = pre[i].0@;
    let cur = pre.remove(i);
    assert forall|j: int| 0 <= j < cur.len() implies (#[trigger] cur[j].0@) != k by {
        if j < i {
            assert(cur[j] == pre[j]);
        } else {
            assert(cur[j] == pre[j + 1]);
        }
    }
    assert forall|k2: Seq<char>|
        code_map(cur).dom().contains(k2) <==> (code_map(pre).dom().contains(k2) && k2 != k) by {
        if code_map(cur).dom().contains(k2) {
            let j = choose|j: int| 0 <= j < cur.len() && (#[trigger] cur[j].0@) == k2;
            assert(cur[j].0@ != k);
            if j < i {
                assert(pre[j].0@ == k2);
            } else {
                assert(pre[j + 1].0@ == k2);
            }
        }
        if code_map(pre).dom().contains(k2) && k2 != k {
            let j = choose|j: int| 0 <= j < pre.len() && (#[trigger] pre[j].0@) == k2;
            assert(j != i);
            if j < i {
                assert(cur[j].0@ == k2);
            } else {
                assert(cur[j - 1].0@ == k2);
            }
        }
    }
    assert forall|k2: Seq<char>| #[trigger]
        code_map(cur).dom().contains(k2) implies code_map(cur)[k2] == code_map(pre)[k2] by {
        let j = code_index(cur, k2);
        assert(0 <= j < cur.len() && cur[j].0@ == k2);
        let j2 = code_index(pre, k2);
        assert(code_map(pre).dom().contains(k2));
        assert(0 <= j2 < pre.len() && pre[j2].0@ == k2);
        if j < i {
            assert(cur[j] == pre[j]);
            assert(j2 == j);
        } else {
            assert(cur[j] == pre[j + 1]);
            assert(j2 == j + 1);
        }
    }
    assert(code_map(cur) =~= code_map(pre).remove(k));
}

/// The in-memory challenge store: a growable list of entries, at most
/// one per email.
pub struct HashmapTwoFACodeStore {
    codes: Vec<(Email, LoginAttemptId, TwoFACode)>,
}

impl Default for HashmapTwoFACodeStore {
    /// An empty store.
    fn default() -> (r: Self)
        ensures
            r.wf(),
            r.codes() == Map::<Seq<char>, (LoginAttemptId, TwoFACode)>::empty(),
    {
        let r = HashmapTwoFACodeStore { codes: Vec::new() };
        proof {
            assert(r.codes() =~= Map::<Seq<char>, (LoginAttemptId, TwoFACode)>::empty());
        }
        r
    }
}

impl HashmapTwoFACodeStore {
    /// An empty store.
    pub fn new() -> (r: Self)
        ensures
            r.wf(),
            r.codes() == Map::<Seq<char>, (LoginAttemptId, TwoFACode)>::empty(),
    {
        Self::default()
    }

    /// The index holding the entry for the given email, if any.
    fn find(&self, email: &Email) -> (r: Option<usize>)
        ensures
            r matches Some(i) ==> i < self.codes@.len() && self.codes@[i as int].0@ == email@,
            r is None ==> forall|i: int|
                0 <= i < self.codes@.len() ==> (#[trigger] self.codes@[i].0@) != email@,
    {
        let mut i: usize = 0;
        while i < self.codes.len()
            invariant
                i <= self.codes@.len(),
                forall|j: int| 0 <= j < i ==> (#[trigger] self.codes@[j].0@) != email@,
            decreases self.codes@.len() - i,
        {
            if self.codes[i].0 == *email {
                return Some(i);
            }
            i = i + 1;
        }
        None
    }
}

impl TwoFACodeStore for HashmapTwoFACodeStore {
    closed spec fn codes(&self) -> Map<Seq<char>, (LoginAttemptId, TwoFACode)> {
        code_map(self.codes@)
    }

    closed spec fn wf(&self) -> bool {
        distinct_code_emails(self.codes@)
    }

    fn add_code(&mut self, email: Email, login_attempt_id: LoginAttemptId, code: TwoFACode) -> (r:
        Result<(), TwoFACodeStoreError>)
        ensures
            r is Ok,
    {
        let ghost pre = self.codes@;
        let ghost k = email@;
        match self.find(&email) {
            Some(i) => {
                proof {
                    lemma_code_map_remove(pre, i as int);
                }
                self.codes.remove(i);
                let ghost mid = self.codes@;
                let entry = (email, login_attempt_id, code);
                self.codes.push(entry);
                proof {
                    lemma_code_map_push(mid, entry);
                    assert(code_map(self.codes@) =~= code_map(pre).insert(
                        k,
                        (login_attempt_id, code),
                    ));
                }
                Ok(())
            },
            None => {
                let entry = (email, login_attempt_id, code);
                self.codes.push(entry);
                proof {
                    lemma_code_map_push(pre, entry);
                }
                Ok(())
            },
        }
    }

    fn remove_code(&mut self, email: &Email) -> (r: Result<(), TwoFACodeStoreError>)
        ensures
            r is Ok <==> old(self).codes().contains_key(email@),
    {
        match self.find(email) {
            Some(i) => {
                proof {
                    lemma_code_map_remove(self.codes@, i as int);
                }
                self.codes.remove(i);
                Ok(())
            },
            None => Err(TwoFACodeStoreError::LoginAttemptIdNotFound),
        }
    }

    fn get_code(&self, email: &Email) -> (r: Result<
        (LoginAttemptId, TwoFACode),
        TwoFACodeStoreError,
    >)
        ensures
            r is Ok <==> self.codes().contains_key(email@),
    {
        match self.find(email) {
            Some(i) => {
                let entry = &self.codes[i];
                proof {
                    let i2 = code_index(self.codes@, email@);
                    assert(self.codes@[i2].0@ == email@);
                    assert(i2 == i as int);
                }
                Ok((entry.1.clone(), entry.2.clone()))
            },
            None => Err(TwoFACodeStoreError::LoginAttemptIdNotFound),
        }
    }
}

} // verus!
