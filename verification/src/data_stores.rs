//! Login-attempt identifiers, second-factor codes, and the capability
//! traits of the three stores and the notification channel.
//!
//! The traits carry the behavioral contract that every backing
//! implementation must satisfy; the in-memory implementations in this crate
//! are proved against them.

use vstd::prelude::*;

use crate::email::Email;
use crate::errors::AuthAPIError;
use crate::errors::BannedTokenStoreError;
use crate::errors::TwoFACodeStoreError;
use crate::errors::UserStoreError;
use crate::password::Password;
use crate::user::User;
use crate::user::UserModel;

verus! {

/// A lowercase hexadecimal digit.
pub open spec fn is_hex_digit(c: char) -> bool {
    ('0' <= c && c <= '9') || ('a' <= c && c <= 'f')
}

/// The canonical textual shape of a random identifier: 36 characters,
/// hyphens exactly at positions 8, 13, 18 and 23, lowercase hexadecimal
/// digits elsewhere.
pub open spec fn is_uuid_shaped(s: Seq<char>) -> bool {
    &&& s.len() == 36
    &&& forall|i: int|
        0 <= i < 36 && (i == 8 || i == 13 || i == 18 || i == 23) ==> #[trigger] s[i] == '-'
    &&& forall|i: int|
        0 <= i < 36 && !(i == 8 || i == 13 || i == 18 || i == 23) ==> is_hex_digit(
            #[trigger] s[i],
        )
}

/// What the outside identifier parser accepts; it also takes a few
/// non-canonical spellings, so acceptance is wider than `is_uuid_shaped`.
pub uninterp spec fn uuid_accepts(s: Seq<char>) -> bool;

/// Relies on `uuid::Uuid::parse_str` and on the hyphenated display form of
/// the parsed value: parsing accepts the crate's recognized spellings,
/// printing yields the canonical lowercase hyphenated shape, and a string
/// already in that shape is returned unchanged.
#[verifier::external_body]
fn parse_uuid_text(s: &str) -> (r: Option<String>)
    ensures
        r is Some <==> uuid_accepts(s@),
        r is Some ==> is_uuid_shaped(r.unwrap()@),
        is_uuid_shaped(s@) ==> r is Some && r.unwrap()@ == s@,
{
    match uuid::Uuid::parse_str(s) {
        Ok(u) => Some(u.to_string()),
        Err(_) => None,
    }
}

/// Relies on `uuid::Uuid::new_v4` and its hyphenated display form: whatever
/// random value comes back, its text is canonically shaped.
#[verifier::external_body]
fn fresh_uuid_text() -> (r: String)
    ensures
        is_uuid_shaped(r@),
{
    uuid::Uuid::new_v4().to_string()
}

/// An opaque random identifier for one login attempt.
pub struct LoginAttemptId {
    id: String,
}

impl View for LoginAttemptId {
    type V = Seq<char>;

    closed spec fn view(&self) -> Seq<char> {
        self.id@
    }
}

impl LoginAttemptId {
    /// Accepts exactly the identifiers the outside parser accepts and
    /// normalizes them to the canonical shape; a canonically shaped
    /// identifier passes through unchanged.
    pub fn parse(id: String) -> (r: Result<LoginAttemptId, AuthAPIError>)
        ensures
            r is Ok <==> uuid_accepts(id@),
            r matches Ok(a) ==> is_uuid_shaped(a@),
            is_uuid_shaped(id@) ==> (r matches Ok(a) && a@ == id@),
            r is Err ==> r == Err::<LoginAttemptId, AuthAPIError>(AuthAPIError::MalformedRequest),
    {
        match parse_uuid_text(id.as_str()) {
            Some(canonical) => Ok(LoginAttemptId { id: canonical }),
            None => Err(AuthAPIError::MalformedRequest),
        }
    }

    /// The identifier as text.
    pub fn as_str(&self) -> (r: &str)
        ensures
            r@ == self@,
    {
        self.id.as_str()
    }
}

impl Default for LoginAttemptId {
    /// A fresh random identifier in the canonical shape.
    fn default() -> (r: Self)
        ensures
            is_uuid_shaped(r@),
    {
        LoginAttemptId { id: fresh_uuid_text() }
    }
}

impl Clone for LoginAttemptId {
    fn clone(&self) -> (r: Self)
        ensures
            r@ == self@,
    {
        LoginAttemptId { id: self.id.clone() }
    }
}

impl PartialEq for LoginAttemptId {
    fn eq(&self, other: &Self) -> (r: bool) {
        self.id == other.id
    }
}

impl vstd::std_specs::cmp::PartialEqSpecImpl for LoginAttemptId {
    open spec fn obeys_eq_spec() -> bool {
        true
    }

    open spec fn eq_spec(&self, other: &Self) -> bool {
        self@ == other@
    }
}

/// A decimal digit.
pub open spec fn is_code_char(c: char) -> bool {
    '0' <= c && c <= '9'
}

/// A well-formed second-factor code: exactly six decimal digits.
pub open spec fn is_code_text(s: Seq<char>) -> bool {
    &&& s.len() == 6
    &&& forall|i: int| 0 <= i < s.len() ==> is_code_char(#[trigger] s[i])
}

/// The numeric value of a digit character.
pub open spec fn digit_val(c: char) -> int {
    c as int - '0' as int
}

/// The numeric value of a six-digit code text.
pub open spec fn code_value(s: Seq<char>) -> int
    recommends
        s.len() == 6,
{
    digit_val(s[0]) * 100000 + digit_val(s[1]) * 10000 + digit_val(s[2]) * 1000 + digit_val(s[3])
        * 100 + digit_val(s[4]) * 10 + digit_val(s[5])
}

/// The character of a decimal digit.
pub open spec fn digit_char(d: int) -> char {
    if d == 0 {
        '0'
    } else if d == 1 {
        '1'
    } else if d == 2 {
        '2'
    } else if d == 3 {
        '3'
    } else if d == 4 {
        '4'
    } else if d == 5 {
        '5'
    } else if d == 6 {
        '6'
    } else if d == 7 {
        '7'
    } else if d == 8 {
        '8'
    } else {
        '9'
    }
}

/// Relies on `rand::random`: an arbitrary machine-generated value, about
/// which nothing is promised.
#[verifier::external_body]
fn random_u32() -> u32 {
    rand::random::<u32>()
}

/// Appends the character of one decimal digit.
fn append_digit(s: &mut String, d: u32)
    requires
        d < 10,
    ensures
        final (s)@ == old(s)@.push(digit_char(d as int)),
{
    proof {
        reveal_strlit("0");
        reveal_strlit("1");
        reveal_strlit("2");
        reveal_strlit("3");
        reveal_strlit("4");
        reveal_strlit("5");
        reveal_strlit("6");
        reveal_strlit("7");
        reveal_strlit("8");
        reveal_strlit("9");
    }
    if d == 0 {
        s.append("0");
    } else if d == 1 {
        s.append("1");
    } else if d == 2 {
        s.append("2");
    } else if d == 3 {
        s.append("3");
    } else if d == 4 {
        s.append("4");
    } else if d == 5 {
        s.append("5");
    } else if d == 6 {
        s.append("6");
    } else if d == 7 {
        s.append("7");
    } else if d == 8 {
        s.append("8");
    } else {
        s.append("9");
    }
    proof {
        assert(s@ =~= old(s)@.push(digit_char(d as int)));
    }
}

/// Renders a number below one million as six zero-padded decimal digits.
fn code_of_number(n: u32) -> (r: String)
    requires
        n < 1000000,
    ensures
        is_code_text(r@),
        code_value(r@) == n,
{
    let d0 = n / 100000;
    let d1 = (n / 10000) % 10;
    let d2 = (n / 1000) % 10;
    let d3 = (n / 100) % 10;
    let d4 = (n / 10) % 10;
    let d5 = n % 10;
    let mut s = String::new();
    append_digit(&mut s, d0);
    append_digit(&mut s, d1);
    append_digit(&mut s, d2);
    append_digit(&mut s, d3);
    append_digit(&mut s, d4);
    append_digit(&mut s, d5);
    proof {
        assert(code_value(s@) == n) by {
            assert(forall|d: int| 0 <= d < 10 ==> digit_val(digit_char(d)) == d);
            assert(n == (n / 100000) * 100000 + ((n / 10000) % 10) * 10000 + ((n / 1000) % 10)
                * 1000 + ((n / 100) % 10) * 100 + ((n / 10) % 10) * 10 + n % 10) by (nonlinear_arith)
                requires
                    n < 1000000,
            ;
        };
    }
    s
}

/// A single-use second-factor code.
pub struct TwoFACode {
    code: String,
}

impl View for TwoFACode {
    type V = Seq<char>;

    closed spec fn view(&self) -> Seq<char> {
        self.code@
    }
}

impl TwoFACode {
    /// Accepts exactly the well-formed six-digit codes.
    pub fn parse(code: String) -> (r: Result<TwoFACode, AuthAPIError>)
        ensures
            r is Ok <==> is_code_text(code@),
            r matches Ok(c) ==> c@ == code@,
            r is Err ==> r == Err::<TwoFACode, AuthAPIError>(AuthAPIError::MalformedRequest),
    {
        let len = code.as_str().unicode_len();
        if len != 6 {
            return Err(AuthAPIError::MalformedRequest);
        }
        let mut i: usize = 0;
        while i < 6
            invariant
                code@.len() == 6,
                0 <= i <= 6,
                forall|j: int| 0 <= j < i ==> is_code_char(#[trigger] code@[j]),
            decreases 6 - i,
        {
            let c = code.as_str().get_char(i);
            if c < '0' || c > '9' {
                return Err(AuthAPIError::MalformedRequest);
            }
            i += 1;
        }
        Ok(TwoFACode { code })
    }

    /// The code as text.
    pub fn as_str(&self) -> (r: &str)
        ensures
            r@ == self@,
    {
        self.code.as_str()
    }
}

impl Default for TwoFACode {
    /// A fresh code: six zero-padded decimal digits of a random value below
    /// one million.
    fn default() -> (r: Self)
        ensures
            is_code_text(r@),
    {
        let n = random_u32() % 1000000;
        TwoFACode { code: code_of_number(n) }
    }
}

impl Clone for TwoFACode {
    fn clone(&self) -> (r: Self)
        ensures
            r@ == self@,
    {
        TwoFACode { code: self.code.clone() }
    }
}

impl PartialEq for TwoFACode {
    fn eq(&self, other: &Self) -> (r: bool) {
        self.code == other.code
    }
}

impl vstd::std_specs::cmp::PartialEqSpecImpl for TwoFACode {
    open spec fn obeys_eq_spec() -> bool {
        true
    }

    open spec fn eq_spec(&self, other: &Self) -> bool {
        self@ == other@
    }
}

/// Rebuilding a value from its stored textual form, without re-validation;
/// the store is trusted to hold only values that were validated on the way
/// in.
pub trait FromDbString: View<V = Seq<char>> + Sized {
    fn from_db_string(s: &str) -> (r: Self)
        ensures
            r@ == s@,
    ;
}

impl FromDbString for LoginAttemptId {
    fn from_db_string(s: &str) -> (r: Self)
        ensures
            r@ == s@,
    {
        LoginAttemptId { id: String::from_str(s) }
    }
}

/// The durable record of accounts.  Both the in-memory and any durable
/// implementation must show exactly this behaviour, which is what makes
/// them substitutable.
pub trait UserStore: Sized {
    /// The accounts currently stored, keyed by address.  The default body
    /// lets a backing implementation live outside this crate; every
    /// implementation in this crate overrides it with its real contents.
    open spec fn users(&self) -> Map<Seq<char>, UserModel> {
        Map::empty()
    }

    /// Adds an account; rejects a duplicate address and changes nothing
    /// then.
    fn add_user(&mut self, user: User) -> (r: Result<(), UserStoreError>)
        ensures
            old(self).users().dom().contains(user.email@) ==> r == Err::<(), UserStoreError>(
                UserStoreError::UserAlreadyExists,
            ) && final (self).users() == old(self).users(),
            !old(self).users().dom().contains(user.email@) ==> r is Ok && final (self).users()
                == old(self).users().insert(user.email@, user@),
    ;

    /// Looks an account up by address.
    fn get_user(&self, email: &Email) -> (r: Result<User, UserStoreError>)
        ensures
            self.users().dom().contains(email@) ==> (r matches Ok(u) && u.email@ == email@ && u@
                == self.users()[email@]),
            !self.users().dom().contains(email@) ==> r == Err::<User, UserStoreError>(
                UserStoreError::UserNotFound,
            ),
    ;

    /// Checks a credential; an unknown address and a wrong password give
    /// distinct store-level errors, which the session layer collapses.
    fn validate_user(&self, email: &Email, password: &Password) -> (r: Result<(), UserStoreError>)
        ensures
            r is Ok <==> self.users().dom().contains(email@) && self.users()[email@].password
                == password@,
            !self.users().dom().contains(email@) ==> r == Err::<(), UserStoreError>(
                UserStoreError::UserNotFound,
            ),
            self.users().dom().contains(email@) && self.users()[email@].password != password@
                ==> r == Err::<(), UserStoreError>(UserStoreError::InvalidCredentials),
    ;
}

/// The set of revoked tokens.
pub trait BannedTokenStore: Sized {
    /// The tokens currently banned.  The default body lets a backing
    /// implementation live outside this crate; every implementation in
    /// this crate overrides it with its real contents.
    open spec fn banned(&self) -> Set<Seq<char>> {
        Set::empty()
    }

    /// Bans a token; banning the same token twice is reported, not
    /// absorbed.
    fn add_banned_token(&mut self, token: String) -> (r: Result<(), BannedTokenStoreError>)
        ensures
            old(self).banned().contains(token@) ==> r == Err::<(), BannedTokenStoreError>(
                BannedTokenStoreError::TokenAlreadyBanned,
            ) && final (self).banned() == old(self).banned(),
            !old(self).banned().contains(token@) ==> r is Ok && final (self).banned() == old(
                self,
            ).banned().insert(token@),
    ;

    /// Whether a token has been banned.
    fn is_banned(&self, token: &str) -> (r: Result<bool, BannedTokenStoreError>)
        ensures
            r matches Ok(b) && b == self.banned().contains(token@),
    ;
}

/// The pending second-factor challenges: at most one per account, the last
/// writer winning.
pub trait TwoFACodeStore: Sized {
    /// The pending challenges, keyed by address: attempt identifier and
    /// code.  The default body lets a backing implementation live outside
    /// this crate; every implementation in this crate overrides it with
    /// its real contents.
    open spec fn challenges(&self) -> Map<Seq<char>, (Seq<char>, Seq<char>)> {
        Map::empty()
    }

    /// Stores a challenge, overwriting any pending one for the account.
    fn add_code(&mut self, email: &Email, login_attempt_id: LoginAttemptId, code: TwoFACode) -> (r:
        Result<(), TwoFACodeStoreError>)
        ensures
            r is Ok,
            final (self).challenges() == old(self).challenges().insert(
                email@,
                (login_attempt_id@, code@),
            ),
    ;

    /// Drops the account's pending challenge, if any.
    fn remove_code(&mut self, email: &Email) -> (r: Result<(), TwoFACodeStoreError>)
        ensures
            r is Ok,
            final (self).challenges() == old(self).challenges().remove(email@),
    ;

    /// Reads the account's pending challenge.
    fn get_code(&self, email: &Email) -> (r: Result<
        (LoginAttemptId, TwoFACode),
        TwoFACodeStoreError,
    >)
        ensures
            self.challenges().dom().contains(email@) ==> (r matches Ok(p) && (p.0@, p.1@)
                == self.challenges()[email@]),
            !self.challenges().dom().contains(email@) ==> r == Err::<
                (LoginAttemptId, TwoFACode),
                TwoFACodeStoreError,
            >(TwoFACodeStoreError::LoginAttemptIdNotFound),
    ;
}

/// The outbound notification channel that delivers a second-factor code.
/// Delivery may fail; either way the log of sent messages tells exactly
/// what left through the channel.
pub trait EmailClient: Sized {
    /// The messages handed to the channel so far: recipient, subject,
    /// body.  The default body lets a delivering implementation live
    /// outside this crate; the recording implementation in this crate
    /// overrides it.
    open spec fn sent(&self) -> Seq<(Seq<char>, Seq<char>, Seq<char>)> {
        Seq::empty()
    }

    /// Hands one message to the channel.
    fn send_email(&mut self, recipient: &Email, subject: &str, content: &str) -> (r: Result<
        (),
        String,
    >)
        ensures
            r is Ok ==> final (self).sent() == old(self).sent().push(
                (recipient@, subject@, content@),
            ),
            r is Err ==> final (self).sent() == old(self).sent(),
    ;
}

} // verus!
