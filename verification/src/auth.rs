//! Who is logged in: the session holds the user's id as UUID text under
//! the key `user_id`.
use vstd::prelude::*;
use crate::adapters::{parse_uuid, spec_parse_uuid, spec_uuid_text, uuid_text};
use crate::errors::CheckInError;

verus! {

/// A logged-in user, by the 128-bit value of the user's UUID.
#[derive(Debug, Clone, Copy, PartialEq, Eq, Structural)]
pub struct CheckedInUser(pub u128);

/// The session store failed to answer.
#[derive(Debug, Clone, Copy, PartialEq, Eq, Structural)]
pub struct SessionReadError;

/// The session key under which the user's id is kept.
pub fn session_user_key() -> (r: &'static str)
    ensures
        r@ == "user_id"@,
{
    "user_id"
}

/// Who a session lookup of the user key names: the user whose UUID the
/// stored text parses as; no one where the lookup failed, found nothing, or
/// found text that is not a UUID.
pub open spec fn checked_in_user_of(lookup: Result<Option<Seq<char>>, SessionReadError>) -> Result<
    CheckedInUser,
    CheckInError,
> {
    match lookup {
        Ok(Some(text)) => match spec_parse_uuid(text) {
            Some(id) => Ok(CheckedInUser(id)),
            None => Err(CheckInError::NotLoggedIn),
        },
        _ => Err(CheckInError::NotLoggedIn),
    }
}

/// The lookup's text, by value.
pub open spec fn lookup_view(lookup: Result<Option<String>, SessionReadError>) -> Result<
    Option<Seq<char>>,
    SessionReadError,
> {
    match lookup {
        Ok(Some(s)) => Ok(Some(s@)),
        Ok(None) => Ok(None),
        Err(e) => Err(e),
    }
}

impl CheckedInUser {
    /// The user that the session's lookup of the user key names.
    pub fn extract(lookup: Result<Option<String>, SessionReadError>) -> (r: Result<
        CheckedInUser,
        CheckInError,
    >)
        ensures
            r == checked_in_user_of(lookup_view(lookup)),
    {
        match lookup {
            Ok(Some(text)) => match parse_uuid(text.as_str()) {
                Some(id) => Ok(CheckedInUser(id)),
                None => Err(CheckInError::NotLoggedIn),
            },
            _ => Err(CheckInError::NotLoggedIn),
        }
    }
}

/// The text that login and signup store under the user key for user
/// `user_id`; a later lookup that finds it names that same user.
pub fn session_user_value(user_id: u128) -> (r: String)
    ensures
        r@ == spec_uuid_text(user_id),
        checked_in_user_of(Ok(Some(r@))) == Ok::<CheckedInUser, CheckInError>(CheckedInUser(user_id)),
{
    uuid_text(user_id)
}

} // verus!
