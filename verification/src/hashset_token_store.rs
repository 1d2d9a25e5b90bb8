use vstd::prelude::*;
use crate::data_stores::{TokenStore, TokenStoreError};
use vstd::seq_lib::seq_to_set_is_finite;
use vstd::string::StrSliceExecFns;

verus! {

/// The in-memory revocation store: a growable set of token strings.
pub struct HashSetTokenStore {
    tokens: Vec<String>,
}

impl HashSetTokenStore {
    /// The stored tokens, as the sequence of their character views.
    pub closed spec fn views(&self) -> Seq<Seq<char>> {
        self.tokens@.map_values(|t: String| t@)
    }

    pub fn new() -> (r: Self)
        ensures
            r.wf(),
            r.tokens() == Set::<Seq<char>>::empty(),
    {
        let r = HashSetTokenStore { tokens: Vec::new() };
        proof {
            assert(r.views() =~= Seq::<Seq<char>>::empty());
            assert(r.views().to_set() =~= Set::<Seq<char>>::empty());
        }
        r
    }

    /// The index holding the given token, if any.
    fn find(&self, token: &String) -> (r: Option<usize>)
        ensures
            r matches Some(i) ==> i < self.views().len() && self.views()[i as int] == token@,
            r is None ==> !self.views().contains(token@),
    {
        let mut i: usize = 0;
        while i < self.tokens.len()
            invariant
                i <= self.views().len(),
                self.views().len() == self.tokens@.len(),
                forall|j: int| 0 <= j < i ==> self.views()[j] != token@,
            decreases self.tokens@.len() - i,
        {
            if self.tokens[i] == *token {
                return Some(i);
            }
            i = i + 1;
        }
        None
    }
}

impl TokenStore for HashSetTokenStore {
    closed spec fn tokens(&self) -> Set<Seq<char>> {
        self.views().to_set()
    }

    closed spec fn wf(&self) -> bool {
        self.views().no_duplicates()
    }

    fn add_token(&mut self, token: &String) -> (r: Result<(), TokenStoreError>)
        ensures
            r is Ok <==> token@.len() > 0,
    {
        if token.as_str().is_empty() {
            return Err(TokenStoreError::BlankToken);
        }
        match self.find(token) {
            Some(_) => {
                proof {
                    assert(self.tokens() =~= self.tokens().insert(token@));
                }
                Ok(())
            },
            None => {
                let ghost pre = self.views();
                self.tokens.push(token.clone());
                proof {
                    assert(self.views() =~= pre.push(token@));
                    assert forall|x: Seq<char>| #[trigger]
                        self.views().contains(x) <==> (pre.contains(x) || x == token@) by {
                        if self.views().contains(x) {
                            let j = choose|j: int|
                                0 <= j < self.views().len() && self.views()[j] == x;
                            if j < pre.len() {
                                assert(pre[j] == x);
                            }
                        }
                        if pre.contains(x) {
                            let j = choose|j: int| 0 <= j < pre.len() && pre[j] == x;
                            assert(self.views()[j] == x);
                        }
                        if x == token@ {
                            assert(self.views()[pre.len() as int] == x);
                        }
                    }
                    assert(self.tokens() =~= old(self).tokens().insert(token@));
                }
                Ok(())
            },
        }
    }

    fn clear(&mut self) -> (r: Result<(), TokenStoreError>)
        ensures
            r is Ok,
    {
        self.tokens = Vec::new();
        proof {
            assert(self.views() =~= Seq::<Seq<char>>::empty());
            assert(self.tokens() =~= Set::<Seq<char>>::empty());
        }
        Ok(())
    }

    fn count(&self) -> (r: Result<u64, TokenStoreError>)
        ensures
            r is Ok,
    {
        proof {
            self.views().unique_seq_to_set();
        }
        Ok(self.tokens.len() as u64)
    }

    fn delete_token(&mut self, token: &String) -> (r: Result<(), TokenStoreError>)
        ensures
            r is Ok <==> token@.len() > 0,
    {
        if token.as_str().is_empty() {
            return Err(TokenStoreError::BlankToken);
        }
        match self.find(token) {
            None => {
                proof {
                    broadcast use seq_to_set_is_finite;

                    assert(!self.tokens().contains(token@));
                    assert(self.tokens() =~= self.tokens().remove(token@));
                }
                Ok(())
            },
            Some(i) => {
                let ghost pre = self.views();
                self.tokens.remove(i);
                proof {
                    assert(self.views() =~= pre.remove(i as int));
                    let cur = self.views();
                    assert forall|x: Seq<char>| #[trigger]
                        cur.contains(x) <==> (pre.contains(x) && x != token@) by {
                        if cur.contains(x) {
                            let j = choose|j: int| 0 <= j < cur.len() && cur[j] == x;
                            if j < i {
                                assert(pre[j] == x);
                                assert(j != i);
                                assert(x != token@);
                            } else {
                                assert(pre[j + 1] == x);
                                assert(j + 1 != i);
                                assert(x != token@);
                            }
                        }
                        if pre.contains(x) && x != token@ {
                            let j = choose|j: int| 0 <= j < pre.len() && pre[j] == x;
                            assert(j != i);
                            if j < i {
                                assert(cur[j] == x);
                            } else {
                                assert(cur[j - 1] == x);
                            }
                        }
                    }
                    assert(self.tokens() =~= old(self).tokens().remove(token@));
                }
                Ok(())
            },
        }
    }

    fn contains_token(&self, token: &String) -> (r: bool) {
        match self.find(token) {
            Some(_) => true,
            None => false,
        }
    }
}

} // verus!
