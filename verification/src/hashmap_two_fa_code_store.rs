//! The in-memory second-factor challenge store: at most one pending
//! challenge per account, the last writer winning.

use vstd::prelude::*;

use crate::data_stores::LoginAttemptId;
use crate::data_stores::TwoFACode;
use crate::data_stores::TwoFACodeStore;
use crate::email::Email;
use crate::errors::TwoFACodeStoreError;

verus! {

/// One stored challenge: the account key with the attempt identifier and
/// code.
pub type ChallengeEntry = (Email, (LoginAttemptId, TwoFACode));

/// The pending challenges held by a sequence of entries, keyed by address.
pub open spec fn challenge_map(s: Seq<ChallengeEntry>) -> Map<Seq<char>, (Seq<char>, Seq<char>)>
    decreases s.len(),
{
    if s.len() == 0 {
        Map::empty()
    } else {
        challenge_map(s.drop_last()).insert(s.last().0@, (s.last().1.0@, s.last().1.1@))
    }
}

/// Whether some entry of the sequence carries the address.
pub open spec fn has_key(s: Seq<ChallengeEntry>, k: Seq<char>) -> bool {
    exists|i: int| 0 <= i < s.len() && (#[trigger] s[i]).0@ == k
}

/// No two entries share an address.
pub open spec fn keys_unique(s: Seq<ChallengeEntry>) -> bool {
    forall|i: int, j: int| 0 <= i < j < s.len() ==> s[i].0@ != s[j].0@
}

proof fn lemma_challenge_map_dom(s: Seq<ChallengeEntry>)
    ensures
        forall|k: Seq<char>| #![auto] challenge_map(s).dom().contains(k) <==> has_key(s, k),
    decreases s.len(),
{
    if s.len() > 0 {
        let t = s.drop_last();
        lemma_challenge_map_dom(t);
        assert forall|k: Seq<char>| #![auto] challenge_map(s).dom().contains(k) <==> has_key(
            s,
            k,
        ) by {
            if challenge_map(s).dom().contains(k) {
                if k == s.last().0@ {
                    assert(s[s.len() - 1].0@ == k);
                } else {
                    assert(challenge_map(t).dom().contains(k));
                    assert(has_key(t, k));
                    let i = choose|i: int| 0 <= i < t.len() && (#[trigger] t[i]).0@ == k;
                    assert(s[i].0@ == k);
                }
            }
            if has_key(s, k) {
                let i = choose|i: int| 0 <= i < s.len() && (#[trigger] s[i]).0@ == k;
                if i < s.len() - 1 {
                    assert(t[i].0@ == k);
                    assert(has_key(t, k));
                }
            }
        }
    }
}

proof fn lemma_challenge_map_index(s: Seq<ChallengeEntry>, i: int)
    requires
        keys_unique(s),
        0 <= i < s.len(),
    ensures
        challenge_map(s).dom().contains(s[i].0@),
        challenge_map(s)[s[i].0@] == (s[i].1.0@, s[i].1.1@),
    decreases s.len(),
{
    let t = s.drop_last();
    if i == s.len() - 1 {
    } else {
        lemma_challenge_map_index(t, i);
        assert(s.last().0@ != s[i].0@);
    }
}

proof fn lemma_challenge_map_push(s: Seq<ChallengeEntry>, e: ChallengeEntry)
    ensures
        challenge_map(s.push(e)) == challenge_map(s).insert(e.0@, (e.1.0@, e.1.1@)),
{
    assert(s.push(e).drop_last() =~= s);
    assert(s.push(e).last() == e);
}

proof fn lemma_challenge_map_remove(s: Seq<ChallengeEntry>, i: int)
    requires
        keys_unique(s),
        0 <= i < s.len(),
    ensures
        keys_unique(s.remove(i)),
        challenge_map(s.remove(i)) == challenge_map(s).remove(s[i].0@),
    decreases s.len(),
{
    let k = s[i].0@;
    assert forall|a: int, b: int| 0 <= a < b < s.remove(i).len() implies s.remove(i)[a].0@
        != s.remove(i)[b].0@ by {
        assert(s.remove(i)[a] == if a < i {
            s[a]
        } else {
            s[a + 1]
        });
        assert(s.remove(i)[b] == if b < i {
            s[b]
        } else {
            s[b + 1]
        });
    }
    if i == s.len() - 1 {
        assert(s.remove(i) =~= s.drop_last());
        lemma_challenge_map_dom(s.drop_last());
        assert(!has_key(s.drop_last(), k));
        assert(challenge_map(s.remove(i)) =~= challenge_map(s).remove(k));
    } else {
        let t = s.drop_last();
        lemma_challenge_map_remove(t, i);
        assert(s.remove(i).drop_last() =~= t.remove(i));
        assert(s.remove(i).last() == s.last());
        assert(s.last().0@ != k);
        assert(challenge_map(s.remove(i)) =~= challenge_map(s).remove(k));
    }
}

/// The in-memory challenge store.
pub struct HashmapTwoFACodeStore {
    codes: Vec<ChallengeEntry>,
}

impl HashmapTwoFACodeStore {
    #[verifier::type_invariant]
    spec fn wf(&self) -> bool {
        keys_unique(self.codes@)
    }

    /// Finds the position of the account's entry, if any.
    fn find_index(&self, email: &Email) -> (r: Option<usize>)
        ensures
            r matches Some(i) ==> i < self.codes@.len() && self.codes@[i as int].0@ == email@,
            r is None ==> !has_key(self.codes@, email@),
    {
        let mut i: usize = 0;
        while i < self.codes.len()
            invariant
                i <= self.codes@.len(),
                forall|j: int| 0 <= j < i ==> (#[trigger] self.codes@[j]).0@ != email@,
            decreases self.codes@.len() - i,
        {
            if self.codes[i].0 == *email {
                return Some(i);
            }
            i += 1;
        }
        None
    }

    /// Drops the account's entry if one is present.
    fn drop_entry(&mut self, email: &Email)
        ensures
            final (self).challenges() == old(self).challenges().remove(email@),
    {
        proof {
            use_type_invariant(&*self);
            lemma_challenge_map_dom(self.codes@);
        }
        match self.find_index(email) {
            Some(i) => {
                proof {
                    lemma_challenge_map_remove(self.codes@, i as int);
                }
                let mut codes: Vec<ChallengeEntry> = Vec::new();
                std::mem::swap(&mut codes, &mut self.codes);
                codes.remove(i);
                std::mem::swap(&mut codes, &mut self.codes);
            },
            None => {
                proof {
                    assert(!challenge_map(self.codes@).dom().contains(email@));
                    assert(challenge_map(self.codes@).remove(email@) =~= challenge_map(
                        self.codes@,
                    ));
                }
            },
        }
    }
}

impl Default for HashmapTwoFACodeStore {
    /// An empty store.
    fn default() -> (r: Self)
        ensures
            r.challenges() == Map::<Seq<char>, (Seq<char>, Seq<char>)>::empty(),
    {
        HashmapTwoFACodeStore { codes: Vec::new() }
    }
}

impl TwoFACodeStore for HashmapTwoFACodeStore {
    closed spec fn challenges(&self) -> Map<Seq<char>, (Seq<char>, Seq<char>)> {
        challenge_map(self.codes@)
    }

    fn add_code(&mut self, email: &Email, login_attempt_id: LoginAttemptId, code: TwoFACode) -> (r:
        Result<(), TwoFACodeStoreError>) {
        self.drop_entry(email);
        let entry = (email.clone(), (login_attempt_id, code));
        proof {
            use_type_invariant(&*self);
            lemma_challenge_map_dom(self.codes@);
            assert(!challenge_map(self.codes@).dom().contains(email@));
            assert(!has_key(self.codes@, email@));
            lemma_challenge_map_push(self.codes@, entry);
        }
        let mut codes: Vec<ChallengeEntry> = Vec::new();
        std::mem::swap(&mut codes, &mut self.codes);
        codes.push(entry);
        std::mem::swap(&mut codes, &mut self.codes);
        Ok(())
    }

    fn remove_code(&mut self, email: &Email) -> (r: Result<(), TwoFACodeStoreError>) {
        self.drop_entry(email);
        Ok(())
    }

    fn get_code(&self, email: &Email) -> (r: Result<
        (LoginAttemptId, TwoFACode),
        TwoFACodeStoreError,
    >) {
        proof {
            use_type_invariant(&*self);
            lemma_challenge_map_dom(self.codes@);
        }
        match self.find_index(email) {
            Some(i) => {
                proof {
                    lemma_challenge_map_index(self.codes@, i as int);
                }
                let entry = &self.codes[i];
                Ok((entry.1.0.clone(), entry.1.1.clone()))
            },
            None => Err(TwoFACodeStoreError::LoginAttemptIdNotFound),
        }
    }
}

} // verus!
