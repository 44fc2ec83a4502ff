//! The in-memory user store, for tests and single-process use.

use vstd::prelude::*;

use crate::data_stores::UserStore;
use crate::email::Email;
use crate::errors::UserStoreError;
use crate::password::Password;
use crate::user::User;
use crate::user::UserModel;

verus! {

/// The accounts held by a sequence of records, keyed by address.
pub open spec fn user_map(s: Seq<User>) -> Map<Seq<char>, UserModel>
    decreases s.len(),
{
    if s.len() == 0 {
        Map::empty()
    } else {
        user_map(s.drop_last()).insert(s.last().email@, s.last()@)
    }
}

/// Whether some record of the sequence carries the address.
pub open spec fn has_email(s: Seq<User>, k: Seq<char>) -> bool {
    exists|i: int| 0 <= i < s.len() && (#[trigger] s[i]).email@ == k
}

/// No two records share an address.
pub open spec fn emails_unique(s: Seq<User>) -> bool {
    forall|i: int, j: int| 0 <= i < j < s.len() ==> s[i].email@ != s[j].email@
}

proof fn lemma_user_map_dom(s: Seq<User>)
    ensures
        forall|k: Seq<char>| #![auto] user_map(s).dom().contains(k) <==> has_email(s, k),
    decreases s.len(),
{
    if s.len() > 0 {
        let t = s.drop_last();
        lemma_user_map_dom(t);
        assert forall|k: Seq<char>| #![auto] user_map(s).dom().contains(k) <==> has_email(
            s,
            k,
        ) by {
            if user_map(s).dom().contains(k) {
                if k == s.last().email@ {
                    assert(s[s.len() - 1].email@ == k);
                } else {
                    assert(user_map(s) == user_map(t).insert(s.last().email@, s.last()@));
                    assert(user_map(t).dom().contains(k));
                    assert(has_email(t, k));
                    let i = choose|i: int| 0 <= i < t.len() && (#[trigger] t[i]).email@ == k;
                    assert(0 <= i < t.len() && t[i].email@ == k);
                    assert(s[i].email@ == k);
                }
            }
            if has_email(s, k) {
                let i = choose|i: int| 0 <= i < s.len() && (#[trigger] s[i]).email@ == k;
                if i < s.len() - 1 {
                    assert(t[i].email@ == k);
                    assert(has_email(t, k));
                }
            }
        }
    }
}

proof fn lemma_user_map_index(s: Seq<User>, i: int)
    requires
        emails_unique(s),
        0 <= i < s.len(),
    ensures
        user_map(s).dom().contains(s[i].email@),
        user_map(s)[s[i].email@] == s[i]@,
    decreases s.len(),
{
    let t = s.drop_last();
    if i == s.len() - 1 {
    } else {
        lemma_user_map_index(t, i);
        assert(s.last().email@ != s[i].email@);
    }
}

proof fn lemma_user_map_push(s: Seq<User>, u: User)
    requires
        !has_email(s, u.email@),
    ensures
        user_map(s.push(u)) == user_map(s).insert(u.email@, u@),
{
    assert(s.push(u).drop_last() =~= s);
    assert(s.push(u).last() == u);
}

/// The in-memory account store: a growing record list with pairwise
/// distinct addresses.
pub struct HashmapUserStore {
    users: Vec<User>,
}

impl HashmapUserStore {
    #[verifier::type_invariant]
    spec fn wf(&self) -> bool {
        emails_unique(self.users@)
    }

    /// Finds the position of the record with the address, if any.
    fn find_index(&self, email: &Email) -> (r: Option<usize>)
        ensures
            r matches Some(i) ==> i < self.users@.len() && self.users@[i as int].email@ == email@,
            r is None ==> !has_email(self.users@, email@),
    {
        let mut i: usize = 0;
        while i < self.users.len()
            invariant
                i <= self.users@.len(),
                forall|j: int| 0 <= j < i ==> (#[trigger] self.users@[j]).email@ != email@,
            decreases self.users@.len() - i,
        {
            if self.users[i].email == *email {
                return Some(i);
            }
            i += 1;
        }
        None
    }
}

impl Default for HashmapUserStore {
    /// An empty store.
    fn default() -> (r: Self)
        ensures
            r.users() == Map::<Seq<char>, UserModel>::empty(),
    {
        HashmapUserStore { users: Vec::new() }
    }
}

impl UserStore for HashmapUserStore {
    closed spec fn users(&self) -> Map<Seq<char>, UserModel> {
        user_map(self.users@)
    }

    fn add_user(&mut self, user: User) -> (r: Result<(), UserStoreError>) {
        proof {
            use_type_invariant(&*self);
            lemma_user_map_dom(self.users@);
        }
        match self.find_index(&user.email) {
            Some(_) => {
                proof {
                    assert(has_email(self.users@, user.email@));
                }
                Err(UserStoreError::UserAlreadyExists)
            },
            None => {
                proof {
                    lemma_user_map_push(self.users@, user);
                }
                let mut users: Vec<User> = Vec::new();
                std::mem::swap(&mut users, &mut self.users);
                users.push(user);
                std::mem::swap(&mut users, &mut self.users);
                Ok(())
            },
        }
    }

    fn get_user(&self, email: &Email) -> (r: Result<User, UserStoreError>) {
        proof {
            use_type_invariant(&*self);
            lemma_user_map_dom(self.users@);
        }
        match self.find_index(email) {
            Some(i) => {
                proof {
                    lemma_user_map_index(self.users@, i as int);
                }
                Ok(self.users[i].clone())
            },
            None => Err(UserStoreError::UserNotFound),
        }
    }

    fn validate_user(&self, email: &Email, password: &Password) -> (r: Result<
        (),
        UserStoreError,
    >) {
        proof {
            use_type_invariant(&*self);
            lemma_user_map_dom(self.users@);
        }
        match self.find_index(email) {
            Some(i) => {
                proof {
                    lemma_user_map_index(self.users@, i as int);
                }
                if self.users[i].password == *password {
                    Ok(())
                } else {
                    Err(UserStoreError::InvalidCredentials)
                }
            },
            None => Err(UserStoreError::UserNotFound),
        }
    }
}

} // verus!
