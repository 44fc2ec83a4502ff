//! The response vocabulary of the HTTP boundary: success messages, error
//! bodies, the status code each maps to, and the server-side error report.

use vstd::prelude::*;

use crate::errors::AuthAPIError;

verus! {

/// A flow's success message.
#[derive(Clone, Copy, Debug, PartialEq, Eq, Structural)]
pub enum AuthMessage {
    UserCreated,
    UserLoggedIn,
    UserLoggedOut,
    User2FAVerified,
    UserTokenVerified,
}

/// A success response body.
pub struct AuthMessageResponse {
    pub message_body: String,
}

/// An error response body.
pub struct ErrorResponse {
    pub error: String,
}

/// The status code of each success message; only account creation differs
/// from plain success.
pub open spec fn auth_message_status(m: AuthMessage) -> u16 {
    match m {
        AuthMessage::UserCreated => 201,
        AuthMessage::UserLoggedIn => 200,
        AuthMessage::UserLoggedOut => 200,
        AuthMessage::User2FAVerified => 200,
        AuthMessage::UserTokenVerified => 200,
    }
}

/// The body text of each success message.
pub open spec fn auth_message_text(m: AuthMessage) -> Seq<char> {
    match m {
        AuthMessage::UserCreated => "User created successfully!"@,
        AuthMessage::UserLoggedIn => "User logged in successfully!"@,
        AuthMessage::UserLoggedOut => "User logged out successfully!"@,
        AuthMessage::User2FAVerified => "2FA verified successfully!"@,
        AuthMessage::UserTokenVerified => "Token verified successfully!"@,
    }
}

impl AuthMessage {
    /// The status code of this message.
    pub fn status(&self) -> (r: u16)
        ensures
            r == auth_message_status(*self),
    {
        match self {
            AuthMessage::UserCreated => 201,
            AuthMessage::UserLoggedIn => 200,
            AuthMessage::UserLoggedOut => 200,
            AuthMessage::User2FAVerified => 200,
            AuthMessage::UserTokenVerified => 200,
        }
    }

    /// The response body of this message.
    pub fn response(&self) -> (r: AuthMessageResponse)
        ensures
            r.message_body@ == auth_message_text(*self),
    {
        match self {
            AuthMessage::UserCreated => AuthMessageResponse {
                message_body: String::from_str("User created successfully!"),
            },
            AuthMessage::UserLoggedIn => AuthMessageResponse {
                message_body: String::from_str("User logged in successfully!"),
            },
            AuthMessage::UserLoggedOut => AuthMessageResponse {
                message_body: String::from_str("User logged out successfully!"),
            },
            AuthMessage::User2FAVerified => AuthMessageResponse {
                message_body: String::from_str("2FA verified successfully!"),
            },
            AuthMessage::UserTokenVerified => AuthMessageResponse {
                message_body: String::from_str("Token verified successfully!"),
            },
        }
    }
}

/// The status code of each flow error.  Duplicate accounts conflict;
/// credential and token failures are unauthorized; missing and malformed
/// input is a bad request; infrastructure failure stays opaque.
pub open spec fn auth_error_status(e: AuthAPIError) -> u16 {
    match e {
        AuthAPIError::UserAlreadyExists => 409,
        AuthAPIError::InvalidCredentials => 401,
        AuthAPIError::MissingToken => 400,
        AuthAPIError::InvalidToken => 401,
        AuthAPIError::MalformedRequest => 400,
        AuthAPIError::UnexpectedError => 500,
    }
}

/// The body text of each flow error.
pub open spec fn auth_error_text(e: AuthAPIError) -> Seq<char> {
    match e {
        AuthAPIError::UserAlreadyExists => "User already exists"@,
        AuthAPIError::InvalidCredentials => "Invalid credentials"@,
        AuthAPIError::MissingToken => "Missing token"@,
        AuthAPIError::InvalidToken => "Invalid token"@,
        AuthAPIError::MalformedRequest => "Malformed request"@,
        AuthAPIError::UnexpectedError => "Unexpected error"@,
    }
}

impl AuthAPIError {
    /// The status code of this error.
    pub fn status(&self) -> (r: u16)
        ensures
            r == auth_error_status(*self),
    {
        match self {
            AuthAPIError::UserAlreadyExists => 409,
            AuthAPIError::InvalidCredentials => 401,
            AuthAPIError::MissingToken => 400,
            AuthAPIError::InvalidToken => 401,
            AuthAPIError::MalformedRequest => 400,
            AuthAPIError::UnexpectedError => 500,
        }
    }

    /// The response body of this error; the text never distinguishes the
    /// causes a status code collapses.
    pub fn response(&self) -> (r: ErrorResponse)
        ensures
            r.error@ == auth_error_text(*self),
    {
        match self {
            AuthAPIError::UserAlreadyExists => ErrorResponse {
                error: String::from_str("User already exists"),
            },
            AuthAPIError::InvalidCredentials => ErrorResponse {
                error: String::from_str("Invalid credentials"),
            },
            AuthAPIError::MissingToken => ErrorResponse {
                error: String::from_str("Missing token"),
            },
            AuthAPIError::InvalidToken => ErrorResponse {
                error: String::from_str("Invalid token"),
            },
            AuthAPIError::MalformedRequest => ErrorResponse {
                error: String::from_str("Malformed request"),
            },
            AuthAPIError::UnexpectedError => ErrorResponse {
                error: String::from_str("Unexpected error"),
            },
        }
    }
}

/// The dividing line of the error report.
pub open spec fn report_separator() -> Seq<char> {
    "\n-----------------------------------------------------------------------------------\n"@
}

/// The heading each recorded cause stands under.
pub open spec fn caused_by_part(c: Seq<char>) -> Seq<char> {
    "\nCaused by:\n\n"@ + c
}

/// The rendered chain of causes, oldest last.
pub open spec fn cause_chain_text(cs: Seq<Seq<char>>) -> Seq<char>
    decreases cs.len(),
{
    if cs.len() == 0 {
        Seq::empty()
    } else {
        cause_chain_text(cs.drop_last()) + caused_by_part(cs.last())
    }
}

/// The full server-side report of an error and its cause chain.
pub open spec fn error_report(e: Seq<char>, cs: Seq<Seq<char>>) -> Seq<char> {
    report_separator() + e + "\n"@ + cause_chain_text(cs) + "\n"@ + report_separator()
}

/// Renders an error and its chain of causes as the report recorded
/// server-side; the opaque message returned to the caller is built
/// elsewhere.
pub fn log_error_chain(error: &str, sources: &Vec<String>) -> (r: String)
    ensures
        r@ == error_report(error@, sources.deep_view()),
{
    let mut report = String::from_str(
        "\n-----------------------------------------------------------------------------------\n",
    );
    report.append(error);
    report.append("\n");
    proof {
        assert(sources.deep_view().subrange(0, 0) =~= Seq::<Seq<char>>::empty());
        assert(report@ =~= report_separator() + error@ + "\n"@ + cause_chain_text(
            sources.deep_view().subrange(0, 0),
        ));
    }
    let mut i: usize = 0;
    while i < sources.len()
        invariant
            0 <= i <= sources@.len(),
            sources@.len() == sources.deep_view().len(),
            report@ == report_separator() + error@ + "\n"@ + cause_chain_text(
                sources.deep_view().subrange(0, i as int),
            ),
        decreases sources@.len() - i,
    {
        report.append("\nCaused by:\n\n");
        report.append(sources[i].as_str());
        proof {
            let cs = sources.deep_view();
            assert(cs[i as int] == sources@[i as int]@);
            assert(cs.subrange(0, i as int + 1).drop_last() =~= cs.subrange(0, i as int));
            assert(cs.subrange(0, i as int + 1).last() == cs[i as int]);
            assert(report@ =~= report_separator() + error@ + "\n"@ + cause_chain_text(
                cs.subrange(0, i as int + 1),
            ));
        }
        i += 1;
    }
    proof {
        assert(sources.deep_view().subrange(0, sources.deep_view().len() as int)
            =~= sources.deep_view());
    }
    report.append("\n");
    report.append(
        "\n-----------------------------------------------------------------------------------\n",
    );
    proof {
        assert(report@ =~= error_report(error@, sources.deep_view()));
    }
    report
}

} // verus!
