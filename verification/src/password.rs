//! The password value type: length-bounded, free of control characters.

use vstd::prelude::*;

use crate::data_stores::FromDbString;
use crate::errors::AuthAPIError;

verus! {

/// Control characters are never accepted in a password.
pub open spec fn is_control_char(c: char) -> bool {
    (c as u32) < 32 || (127 <= (c as u32) && (c as u32) <= 159)
}

/// A password candidate is accepted when its length lies in `[8, 32]` and it
/// holds no control character.
pub open spec fn password_ok(s: Seq<char>) -> bool {
    &&& 8 <= s.len() <= 32
    &&& forall|i: int| 0 <= i < s.len() ==> !is_control_char(#[trigger] s[i])
}

/// Checks a candidate against the password rules.
pub fn validate_password(password: &str) -> (r: bool)
    ensures
        r == password_ok(password@),
{
    let len = password.unicode_len();
    if len < 8 || len > 32 {
        return false;
    }
    let mut i: usize = 0;
    while i < len
        invariant
            len == password@.len(),
            8 <= len <= 32,
            0 <= i <= len,
            forall|j: int| 0 <= j < i ==> !is_control_char(#[trigger] password@[j]),
        decreases len - i,
    {
        let c = password.get_char(i);
        let code = c as u32;
        if code < 32 || (127 <= code && code <= 159) {
            return false;
        }
        i += 1;
    }
    true
}

/// A well-formed password.  The field stays private so the secret is read
/// only through the typed interface, and the type carries no `Debug`, so no
/// derived trait can print it.
pub struct Password {
    password: String,
}

impl View for Password {
    type V = Seq<char>;

    closed spec fn view(&self) -> Seq<char> {
        self.password@
    }
}

impl Password {
    /// Accepts exactly the candidates that satisfy the password rules and
    /// otherwise reports invalid credentials.
    pub fn parse(s: String) -> (r: Result<Password, AuthAPIError>)
        ensures
            r is Ok <==> password_ok(s@),
            r matches Ok(p) ==> p@ == s@,
            r is Err ==> r == Err::<Password, AuthAPIError>(AuthAPIError::InvalidCredentials),
    {
        if validate_password(s.as_str()) {
            Ok(Password { password: s })
        } else {
            Err(AuthAPIError::InvalidCredentials)
        }
    }

    /// The secret as text, for handing to the hasher.
    pub fn as_str(&self) -> (r: &str)
        ensures
            r@ == self@,
    {
        self.password.as_str()
    }
}

impl FromDbString for Password {
    /// Rebuilds a stored credential string without re-validation; a durable
    /// store holds a derived hash rather than a raw password, so the
    /// password rules do not apply to it.
    fn from_db_string(s: &str) -> (r: Password)
        ensures
            r@ == s@,
    {
        Password { password: String::from_str(s) }
    }
}

impl Clone for Password {
    fn clone(&self) -> (r: Self)
        ensures
            r@ == self@,
    {
        Password { password: self.password.clone() }
    }
}

impl PartialEq for Password {
    fn eq(&self, other: &Self) -> (r: bool) {
        self.password == other.password
    }
}

impl vstd::std_specs::cmp::PartialEqSpecImpl for Password {
    open spec fn obeys_eq_spec() -> bool {
        true
    }

    open spec fn eq_spec(&self, other: &Self) -> bool {
        self@ == other@
    }
}

} // verus!
