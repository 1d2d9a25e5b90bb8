use vstd::prelude::*;
use crate::data_stores::{UserStore, UserStoreError};
use crate::email::Email;
use crate::user::User;

verus! {

/// The index of the record keyed by `k`, where one exists.
pub open spec fn user_index(s: Seq<User>, k: Seq<char>) -> int {
    choose|i: int| 0 <= i < s.len() && s[i].email@ == k
}

/// The mapping from email to record that a sequence of records holds.
pub open spec fn user_map(s: Seq<User>) -> Map<Seq<char>, User> {
    Map::new(
        |k: Seq<char>| exists|i: int| 0 <= i < s.len() && (#[trigger] s[i].email@) == k,
        |k: Seq<char>| s[user_index(s, k)],
    )
}

/// No two records share an email.
pub open spec fn distinct_emails(s: Seq<User>) -> bool {
    forall|i: int, j: int|
        0 <= i < s.len() && 0 <= j < s.len() && i != j ==> (#[trigger] s[i].email@) != (
        #[trigger] s[j].email@)
}

/// The in-memory credential store: a growable list of user records,
/// at most one per email.
pub struct HashmapUserStore {
    users: Vec<User>,
}

impl Default for HashmapUserStore {
    /// An empty store.
    fn default() -> (r: Self)
        ensures
            r.wf(),
            r.users() == Map::<Seq<char>, User>::empty(),
    {
        let r = HashmapUserStore { users: Vec::new() };
        proof {
            assert(r.users() =~= Map::<Seq<char>, User>::empty());
        }
        r
    }
}

impl HashmapUserStore {
    /// The index holding the record for the given email, if any.
    fn find(&self, email: &Email) -> (r: Option<usize>)
        ensures
            r matches Some(i) ==> i < self.users@.len() && self.users@[i as int].email@ == email@,
            r is None ==> forall|i: int|
                0 <= i < self.users@.len() ==> (#[trigger] self.users@[i].email@) != email@,
    {
        let mut i: usize = 0;
        while i < self.users.len()
            invariant
                i <= self.users@.len(),
                forall|j: int| 0 <= j < i ==> (#[trigger] self.users@[j].email@) != email@,
            decreases self.users@.len() - i,
        {
            if self.users[i].email == *email {
                return Some(i);
            }
            i = i + 1;
        }
        None
    }
}

impl UserStore for HashmapUserStore {
    closed spec fn users(&self) -> Map<Seq<char>, User> {
        user_map(self.users@)
    }

    closed spec fn wf(&self) -> bool {
        distinct_emails(self.users@)
    }

    closed spec fn credential_ok(&self, email: Seq<char>, password: Seq<char>) -> bool {
        self.users().contains_key(email) && self.users()[email].password@ == password
    }

    fn add_user(&mut self, user: User) -> (r: Result<(), UserStoreError>)
        ensures
            r is Ok <==> !old(self).users().contains_key(user.email@),
            r is Err ==> r matches Err(UserStoreError::UserAlreadyExists),
    {
        match self.find(&user.email) {
            Some(_) => Err(UserStoreError::UserAlreadyExists),
            None => {
                let ghost pre = self.users@;
                let ghost k = user.email@;
                self.users.push(user);
                proof {
                    let cur = self.users@;
                    assert(cur =~= pre.push(user));
                    assert forall|k2: Seq<char>|
                        user_map(cur).dom().contains(k2) <==> (user_map(pre).dom().contains(k2)
                            || k2 == k) by {
                        if user_map(cur).dom().contains(k2) {
                            let i = choose|i: int| 0 <= i < cur.len() && (#[trigger] cur[i].email@)
                                == k2;
                            if i < pre.len() {
                                assert(pre[i].email@ == k2);
                            }
                        }
                        if user_map(pre).dom().contains(k2) {
                            let i = choose|i: int| 0 <= i < pre.len() && (#[trigger] pre[i].email@)
                                == k2;
                            assert(cur[i].email@ == k2);
                        }
                        if k2 == k {
                            assert(cur[pre.len() as int].email@ == k2);
                        }
                    }
                    assert forall|k2: Seq<char>| #[trigger]
                        user_map(cur).dom().contains(k2) implies user_map(cur)[k2] == user_map(
                        pre,
                    ).insert(k, user)[k2] by {
                        let i = user_index(cur, k2);
                        assert(0 <= i < cur.len() && cur[i].email@ == k2);
                        if k2 == k {
                            assert forall|j: int|
                                0 <= j < pre.len() implies (#[trigger] pre[j].email@) != k by {}
                            assert(i == pre.len());
                        } else {
                            assert(i < pre.len());
                            let i2 = user_index(pre, k2);
                            assert(pre[i2].email@ == k2);
                            assert(i2 == i);
                        }
                    }
                    assert(user_map(cur) =~= user_map(pre).insert(k, user));
                }
                Ok(())
            },
        }
    }

    fn get_user(&self, email: &Email) -> (r: Result<User, UserStoreError>)
        ensures
            r is Ok <==> self.users().contains_key(email@),
    {
        match self.find(email) {
            Some(i) => {
                let user = self.users[i].clone();
                proof {
                    let i2 = user_index(self.users@, email@);
                    assert(self.users@[i2].email@ == email@);
                    assert(i2 == i as int);
                }
                Ok(user)
            },
            None => Err(UserStoreError::UserNotFound),
        }
    }

    fn validate_user(&self, email: &Email, password: &crate::password::Password) -> (r: Result<
        (),
        UserStoreError,
    >)
        ensures
            r is Ok <==> self.credential_ok(email@, password@),
            !self.users().contains_key(email@) ==> r matches Err(UserStoreError::UserNotFound),
            self.users().contains_key(email@) && !self.credential_ok(email@, password@)
                ==> r matches Err(UserStoreError::InvalidCredentials),
    {
        match self.find(email) {
            Some(i) => {
                proof {
                    let i2 = user_index(self.users@, email@);
                    assert(self.users@[i2].email@ == email@);
                    assert(i2 == i as int);
                }
                if self.users[i].password == *password {
                    Ok(())
                } else {
                    Err(UserStoreError::InvalidCredentials)
                }
            },
            None => Err(UserStoreError::UserNotFound),
        }
    }
}

} // verus!
