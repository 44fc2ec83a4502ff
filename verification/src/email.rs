//! The e-mail address value type: parsed once, never stored as an untyped
//! string.

use vstd::prelude::*;

use crate::data_stores::FromDbString;
use crate::errors::AuthAPIError;

verus! {

/// What the outside e-mail validation accepts.  The exact grammar (an HTML5
/// e-mail address) is the validating crate's; contracts speak of acceptance
/// through this name only.
pub uninterp spec fn email_ok(s: Seq<char>) -> bool;

/// Relies on `validator::ValidateEmail::validate_email`: the result depends
/// on the characters of the candidate alone; the empty string and any string
/// without an `'@'` are rejected.
#[verifier::external_body]
fn email_text_is_valid(s: &str) -> (r: bool)
    ensures
        r == email_ok(s@),
        s@.len() == 0 ==> !r,
        r ==> s@.contains('@'),
{
    validator::ValidateEmail::validate_email(&s)
}

/// A syntactically valid e-mail address, used as the account key.
/// The field stays private so the address is read only through the typed
/// interface.
pub struct Email {
    email: String,
}

impl View for Email {
    type V = Seq<char>;

    closed spec fn view(&self) -> Seq<char> {
        self.email@
    }
}

impl Email {
    /// Accepts exactly the addresses the e-mail validation accepts and
    /// otherwise reports invalid credentials.  The empty string is always
    /// rejected, and every accepted address contains an `'@'`.
    pub fn parse(s: String) -> (r: Result<Email, AuthAPIError>)
        ensures
            r is Ok <==> email_ok(s@),
            r matches Ok(e) ==> e@ == s@,
            s@.len() == 0 ==> r is Err,
            r is Ok ==> s@.contains('@'),
            r is Err ==> r == Err::<Email, AuthAPIError>(AuthAPIError::InvalidCredentials),
    {
        if email_text_is_valid(s.as_str()) {
            Ok(Email { email: s })
        } else {
            Err(AuthAPIError::InvalidCredentials)
        }
    }

    /// The address as text.
    pub fn as_str(&self) -> (r: &str)
        ensures
            r@ == self@,
    {
        self.email.as_str()
    }
}

impl FromDbString for Email {
    /// Rebuilds an address from its stored form without re-validation; the
    /// store is trusted to hold only addresses that were parsed on the way
    /// in.
    fn from_db_string(s: &str) -> (r: Email)
        ensures
            r@ == s@,
    {
        Email { email: String::from_str(s) }
    }
}

impl Clone for Email {
    fn clone(&self) -> (r: Self)
        ensures
            r@ == self@,
    {
        Email { email: self.email.clone() }
    }
}

impl PartialEq for Email {
    fn eq(&self, other: &Self) -> (r: bool) {
        self.email == other.email
    }
}

impl vstd::std_specs::cmp::PartialEqSpecImpl for Email {
    open spec fn obeys_eq_spec() -> bool {
        true
    }

    open spec fn eq_spec(&self, other: &Self) -> bool {
        self@ == other@
    }
}

} // verus!
