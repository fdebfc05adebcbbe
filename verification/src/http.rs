//! What the library reads from an HTTP answer.

use vstd::prelude::*;

verus! {

/// Whether a status code reports success.
pub open spec fn success(status: u16) -> bool {
    200 <= status < 300
}

/// Whether a status code reports success.
pub fn is_success(status: u16) -> (r: bool)
    ensures
        r == success(status),
{
    200 <= status && status < 300
}

/// The status of an answer.
#[derive(Debug, PartialEq, Eq)]
pub struct HttpStatus {
    pub code: u16,
    /// The status as text.
    pub line: String,
}

/// An answer to a call.
pub struct HttpAnswer<T> {
    pub status: HttpStatus,
    /// The text of the answer; it counts only where the status is an error.
    pub text: String,
    /// What the answer says, or why it was not understood; it counts only where
    /// the status is a success.
    pub content: Result<T, String>,
}

} // verus!
