//! The errors that the handlers answer with, and what each is answered.
use vstd::prelude::*;
use crate::reply::{plain_reply, RedirectHeader, Reply};
use crate::text::concat_text;

verus! {

/// The text every unexpected failure is answered with.
pub open spec fn retry_later_text() -> Seq<char> {
    "Something went wrong. Please retry later."@
}

fn retry_later() -> (r: String)
    ensures
        r@ == retry_later_text(),
{
    "Something went wrong. Please retry later.".to_owned()
}

/// Failure to show the home page.
#[derive(Debug)]
pub enum HomeError {
    /// Carries a description of the cause, for the logs.
    UnexpectedError(String),
}

impl HomeError {
    /// The error's text.
    pub fn message(&self) -> (r: String)
        ensures
            r@ == retry_later_text(),
    {
        retry_later()
    }

    /// The answer: 500, with the error's text.
    pub fn into_response(&self) -> (r: Reply)
        ensures
            r.status == 500,
            r.header is None,
            r.body@ == retry_later_text(),
    {
        plain_reply(500, self.message())
    }
}

/// Failure to log in.
#[derive(Debug)]
pub enum SigninError {
    /// The email and password do not match a user; carries the cause.
    InvalidCredentials(String),
    /// Carries a description of the cause, for the logs.
    UnexpectedError(String),
}

impl SigninError {
    /// The error's text.
    pub fn message(&self) -> (r: String)
        ensures
            self is InvalidCredentials ==> r@ == "Invalid email or password."@,
            self is UnexpectedError ==> r@ == retry_later_text(),
    {
        match self {
            SigninError::InvalidCredentials(_) => "Invalid email or password.".to_owned(),
            SigninError::UnexpectedError(_) => retry_later(),
        }
    }

    /// The answer: 401 for wrong credentials, 500 otherwise, with the
    /// error's text.
    pub fn into_response(&self) -> (r: Reply)
        ensures
            self is InvalidCredentials ==> r.status == 401 && r.body@
                == "Invalid email or password."@,
            self is UnexpectedError ==> r.status == 500 && r.body@ == retry_later_text(),
            r.header is None,
    {
        let status: u16 = match self {
            SigninError::InvalidCredentials(_) => 401,
            SigninError::UnexpectedError(_) => 500,
        };
        plain_reply(status, self.message())
    }
}

/// Failure to sign up.
#[derive(Debug)]
pub enum SignupError {
    /// The email is already taken; carries the cause.
    Conflict(String),
    /// Carries a description of the cause, for the logs.
    UnexpectedError(String),
}

impl SignupError {
    /// The error for a failed insert of the user record: a conflict where the
    /// database reported a unique violation, an unexpected error otherwise.
    pub fn from_insert_failure(unique_violation: bool, cause: String) -> (r: SignupError)
        ensures
            unique_violation ==> (r matches SignupError::Conflict(c) && c == cause),
            !unique_violation ==> (r matches SignupError::UnexpectedError(c) && c == cause),
    {
        if unique_violation {
            SignupError::Conflict(cause)
        } else {
            SignupError::UnexpectedError(cause)
        }
    }

    /// The error's text.
    pub fn message(&self) -> (r: String)
        ensures
            self is Conflict ==> r@ == "That email is already taken."@,
            self is UnexpectedError ==> r@ == retry_later_text(),
    {
        match self {
            SignupError::Conflict(_) => "That email is already taken.".to_owned(),
            SignupError::UnexpectedError(_) => retry_later(),
        }
    }

    /// The answer: 409 for a taken email, 500 otherwise, with the error's
    /// text.
    pub fn into_response(&self) -> (r: Reply)
        ensures
            self is Conflict ==> r.status == 409 && r.body@ == "That email is already taken."@,
            self is UnexpectedError ==> r.status == 500 && r.body@ == retry_later_text(),
            r.header is None,
    {
        let status: u16 = match self {
            SignupError::Conflict(_) => 409,
            SignupError::UnexpectedError(_) => 500,
        };
        plain_reply(status, self.message())
    }
}

/// Failure to upload or list process definitions.
#[derive(Debug)]
pub enum ProcessUploadError {
    /// The BPMN text does not compile; carries the compiler's report.
    InvalidBpmn(String),
    /// Carries a description of the cause, for the logs.
    UnexpectedError(String),
}

impl ProcessUploadError {
    /// The error's text.
    pub fn message(&self) -> (r: String)
        ensures
            self matches ProcessUploadError::InvalidBpmn(m) ==> r@
                == "The uploaded file is not valid BPMN: "@ + m@,
            self is UnexpectedError ==> r@ == retry_later_text(),
    {
        match self {
            ProcessUploadError::InvalidBpmn(m) => concat_text(
                "The uploaded file is not valid BPMN: ",
                m.as_str(),
            ),
            ProcessUploadError::UnexpectedError(_) => retry_later(),
        }
    }

    /// The answer: 400 for invalid BPMN, 500 otherwise, with the error's
    /// text.
    pub fn into_response(&self) -> (r: Reply)
        ensures
            self matches ProcessUploadError::InvalidBpmn(m) ==> r.status == 400 && r.body@
                == "The uploaded file is not valid BPMN: "@ + m@,
            self is UnexpectedError ==> r.status == 500 && r.body@ == retry_later_text(),
            r.header is None,
    {
        let status: u16 = match self {
            ProcessUploadError::InvalidBpmn(_) => 400,
            ProcessUploadError::UnexpectedError(_) => 500,
        };
        plain_reply(status, self.message())
    }
}

/// Failure to start, show, advance or delete processes and instances.
#[derive(Debug)]
pub enum ProcessStartError {
    /// What was asked for does not exist.
    NotFound,
    /// Carries a description of the cause, for the logs.
    UnexpectedError(String),
}

impl ProcessStartError {
    /// The error's text.
    pub fn message(&self) -> (r: String)
        ensures
            self is NotFound ==> r@ == "Process definition not found, or failed to start."@,
            self is UnexpectedError ==> r@ == retry_later_text(),
    {
        match self {
            ProcessStartError::NotFound => "Process definition not found, or failed to start.".to_owned(),
            ProcessStartError::UnexpectedError(_) => retry_later(),
        }
    }

    /// The answer: 404 for what does not exist, 500 otherwise, with the
    /// error's text.
    pub fn into_response(&self) -> (r: Reply)
        ensures
            self is NotFound ==> r.status == 404 && r.body@
                == "Process definition not found, or failed to start."@,
            self is UnexpectedError ==> r.status == 500 && r.body@ == retry_later_text(),
            r.header is None,
    {
        let status: u16 = match self {
            ProcessStartError::NotFound => 404,
            ProcessStartError::UnexpectedError(_) => 500,
        };
        plain_reply(status, self.message())
    }
}

/// A request that needs a logged-in user came without one.
#[derive(Debug, Clone, Copy, PartialEq, Eq, Structural)]
pub enum CheckInError {
    NotLoggedIn,
}

impl CheckInError {
    /// The error's text.
    pub fn message(&self) -> (r: String)
        ensures
            r@ == "Not logged in"@,
    {
        "Not logged in".to_owned()
    }

    /// The answer: 303 See Other to the login page, with no body.
    pub fn into_response(&self) -> (r: Reply)
        ensures
            r.status == 303,
            r.header matches Some(h) && h.name@ == "location"@ && h.value@ == "/login"@,
            r.body@ == Seq::<char>::empty(),
    {
        Reply {
            status: 303,
            header: Some(RedirectHeader { name: "location", value: "/login".to_owned() }),
            body: String::new(),
        }
    }
}

} // verus!
