//! The account record: e-mail key, credential, second-factor flag.

use vstd::prelude::*;

use crate::email::Email;
use crate::errors::AuthAPIError;
use crate::password::Password;

verus! {

/// The mathematical content of an account record, as the store models see
/// it: the stored credential and the second-factor flag.  The e-mail address
/// is the key under which the record stands and is modelled separately.
pub ghost struct UserModel {
    pub password: Seq<char>,
    pub requires_2fa: bool,
}

/// An account: created on signup, never mutated afterwards.
pub struct User {
    pub email: Email,
    pub password: Password,
    pub requires_2fa: bool,
}

impl View for User {
    type V = UserModel;

    open spec fn view(&self) -> UserModel {
        UserModel { password: self.password@, requires_2fa: self.requires_2fa }
    }
}

impl User {
    /// Builds the record; every combination of already-parsed values is a
    /// valid account.
    pub fn new(email: Email, password: Password, requires_2fa: bool) -> (r: Result<
        User,
        AuthAPIError,
    >)
        ensures
            r matches Ok(u) && u.email@ == email@ && u.password@ == password@
                && u.requires_2fa == requires_2fa,
    {
        Ok(User { email, password, requires_2fa })
    }
}

impl Clone for User {
    fn clone(&self) -> (r: Self)
        ensures
            r.email@ == self.email@,
            r@ == self@,
    {
        User {
            email: self.email.clone(),
            password: self.password.clone(),
            requires_2fa: self.requires_2fa,
        }
    }
}

impl PartialEq for User {
    fn eq(&self, other: &Self) -> (r: bool) {
        self.email == other.email && self.password == other.password && self.requires_2fa
            == other.requires_2fa
    }
}

impl vstd::std_specs::cmp::PartialEqSpecImpl for User {
    open spec fn obeys_eq_spec() -> bool {
        true
    }

    open spec fn eq_spec(&self, other: &Self) -> bool {
        self.email@ == other.email@ && self@ == other@
    }
}

} // verus!
