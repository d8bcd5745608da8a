//! The outcome that every playback entry point hands back to whoever asked.
use vstd::prelude::*;

use crate::text::joined;

verus! {

/// What a request produced: a message for the person who made it, always
/// present, and the cause when the request failed.
#[derive(Clone, Debug)]
pub struct CallResult {
    pub user_message: String,
    pub underlying_error: Option<String>,
}

/// The line recorded for a call that failed with `err`.
pub open spec fn error_line(err: Seq<char>) -> Seq<char> {
    "Unexpected error occured during call: "@ + err
}

impl CallResult {
    /// Whether this is a failure whose cause reads `cause`.
    pub open spec fn fails_with(&self, cause: Seq<char>) -> bool {
        match self.underlying_error {
            Some(c) => c@ == cause,
            None => false,
        }
    }

    /// A successful outcome with `user_message` for the requester.
    pub fn success(user_message: String) -> (r: Self)
        ensures
            r.user_message@ == user_message@,
            r.underlying_error is None,
    {
        CallResult { user_message, underlying_error: None }
    }

    /// A failed outcome: `user_message` for the requester, `underlying_error` as its cause.
    pub fn failure(user_message: String, underlying_error: String) -> (r: Self)
        ensures
            r.user_message@ == user_message@,
            r.fails_with(underlying_error@),
    {
        CallResult { user_message, underlying_error: Some(underlying_error) }
    }

    /// Whether the outcome is a success.
    pub fn is_success(&self) -> (r: bool)
        ensures
            r == (self.underlying_error is None),
    {
        self.underlying_error.is_none()
    }
}

/// Hands `result` back unchanged, first appending to `errors` the line that
/// records its cause when it is a failure.
pub fn log_error_if_any(result: CallResult, errors: &mut Vec<String>) -> (r: CallResult)
    ensures
        r == result,
        match result.underlying_error {
            Some(e) => final(errors)@.len() == old(errors)@.len() + 1
                && final(errors)@.take(old(errors)@.len() as int) == old(errors)@
                && final(errors)@.last()@ == error_line(e@),
            None => final(errors)@ == old(errors)@,
        },
{
    if let Some(err) = &result.underlying_error {
        errors.push(joined("Unexpected error occured during call: ", err.as_str()));
        proof {
            assert(errors@.take(old(errors)@.len() as int) =~= old(errors)@);
        }
    }
    result
}

} // verus!
