//! The in-memory revoked-token store: an unbounded set, acceptable for
//! tests and single-process use (it never shrinks and does not survive a
//! restart).

use vstd::prelude::*;

use crate::data_stores::BannedTokenStore;
use crate::errors::BannedTokenStoreError;

verus! {

/// The set of token texts held by a sequence.
pub open spec fn token_set(s: Seq<String>) -> Set<Seq<char>>
    decreases s.len(),
{
    if s.len() == 0 {
        Set::empty()
    } else {
        token_set(s.drop_last()).insert(s.last()@)
    }
}

/// Whether some entry of the sequence carries the token text.
pub open spec fn has_token(s: Seq<String>, k: Seq<char>) -> bool {
    exists|i: int| 0 <= i < s.len() && (#[trigger] s[i])@ == k
}

proof fn lemma_token_set_contains(s: Seq<String>)
    ensures
        forall|k: Seq<char>| #![auto] token_set(s).contains(k) <==> has_token(s, k),
    decreases s.len(),
{
    if s.len() > 0 {
        let t = s.drop_last();
        lemma_token_set_contains(t);
        assert forall|k: Seq<char>| #![auto] token_set(s).contains(k) <==> has_token(s, k) by {
            if token_set(s).contains(k) {
                if k == s.last()@ {
                    assert(s[s.len() - 1]@ == k);
                } else {
                    assert(token_set(t).contains(k));
                    assert(has_token(t, k));
                    let i = choose|i: int| 0 <= i < t.len() && (#[trigger] t[i])@ == k;
                    assert(s[i]@ == k);
                }
            }
            if has_token(s, k) {
                let i = choose|i: int| 0 <= i < s.len() && (#[trigger] s[i])@ == k;
                if i < s.len() - 1 {
                    assert(t[i]@ == k);
                    assert(has_token(t, k));
                }
            }
        }
    }
}

proof fn lemma_token_set_push(s: Seq<String>, v: String)
    ensures
        token_set(s.push(v)) == token_set(s).insert(v@),
{
    assert(s.push(v).drop_last() =~= s);
    assert(s.push(v).last() == v);
}

/// The in-memory revoked-token store.
pub struct HashSetBannedTokenStore {
    banned_tokens: Vec<String>,
}

impl HashSetBannedTokenStore {
    /// Finds the position of the token, if present.
    fn find_index(&self, token: &String) -> (r: Option<usize>)
        ensures
            r matches Some(i) ==> i < self.banned_tokens@.len() && self.banned_tokens@[i as int]@
                == token@,
            r is None ==> !has_token(self.banned_tokens@, token@),
    {
        let mut i: usize = 0;
        while i < self.banned_tokens.len()
            invariant
                i <= self.banned_tokens@.len(),
                forall|j: int| 0 <= j < i ==> (#[trigger] self.banned_tokens@[j])@ != token@,
            decreases self.banned_tokens@.len() - i,
        {
            if self.banned_tokens[i] == *token {
                return Some(i);
            }
            i += 1;
        }
        None
    }
}

impl Default for HashSetBannedTokenStore {
    /// An empty store.
    fn default() -> (r: Self)
        ensures
            r.banned() == Set::<Seq<char>>::empty(),
    {
        HashSetBannedTokenStore { banned_tokens: Vec::new() }
    }
}

impl BannedTokenStore for HashSetBannedTokenStore {
    closed spec fn banned(&self) -> Set<Seq<char>> {
        token_set(self.banned_tokens@)
    }

    fn add_banned_token(&mut self, token: String) -> (r: Result<(), BannedTokenStoreError>) {
        proof {
            lemma_token_set_contains(self.banned_tokens@);
        }
        match self.find_index(&token) {
            Some(i) => {
                proof {
                    assert(self.banned_tokens@[i as int]@ == token@);
                    assert(has_token(self.banned_tokens@, token@));
                }
                Err(BannedTokenStoreError::TokenAlreadyBanned)
            },
            None => {
                proof {
                    lemma_token_set_push(self.banned_tokens@, token);
                }
                self.banned_tokens.push(token);
                Ok(())
            },
        }
    }

    fn is_banned(&self, token: &str) -> (r: Result<bool, BannedTokenStoreError>) {
        proof {
            lemma_token_set_contains(self.banned_tokens@);
        }
        let owned = String::from_str(token);
        match self.find_index(&owned) {
            Some(i) => {
                proof {
                    assert(self.banned_tokens@[i as int]@ == token@);
                    assert(has_token(self.banned_tokens@, token@));
                }
                Ok(true)
            },
            None => Ok(false),
        }
    }
}

/// The cache key under which a revoked token is filed: a fixed prefix, then
/// the token text.
pub fn get_key(token: &str) -> (r: String)
    ensures
        r@ == "banned_token:"@ + token@,
{
    let prefix = String::from_str("banned_token:");
    prefix.concat(token)
}

} // verus!
