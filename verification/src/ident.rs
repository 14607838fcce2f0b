use vstd::prelude::*;

use crate::error::ApiError;
use crate::error::ErrorKind;

verus! {

/// The 128-bit value of a string that is a well-formed textual UUID, or
/// `None` for a malformed one: what uuid's parser decides, which depends on
/// the characters alone.
pub uninterp spec fn uuid_of_text(s: Seq<char>) -> Option<u128>;

/// Relies on uuid::Uuid::parse_str (with Uuid::as_u128 converting the
/// result): parses a string of hexadecimal digits with optional hyphens into
/// its 128-bit value; the outcome depends on the input characters alone.
#[verifier::external_body]
pub(crate) fn uuid_from_str(s: &str) -> (r: Option<u128>)
    ensures
        r == uuid_of_text(s@),
{
    match uuid::Uuid::parse_str(s) {
        Ok(u) => Some(u.as_u128()),
        Err(_) => None,
    }
}

/// Parses the identifier segment of a request path. A malformed identifier is
/// a client error, never forwarded to storage.
pub fn parse_todo_id(s: &str) -> (r: Result<u128, ApiError>)
    ensures
        match r {
            Ok(id) => uuid_of_text(s@) == Some(id),
            Err(e) => uuid_of_text(s@) is None && e.kind == ErrorKind::BadInput,
        },
{
    match uuid_from_str(s) {
        Some(id) => Ok(id),
        None => Err(ApiError::bad_input("invalid todo id".to_string())),
    }
}

} // verus!
