//! What the framework's bridge answers, and how this crate reads it.
//!
//! Every bridge call answers with a code. [`FAILED`] means the call failed and
//! left a message behind; anything else is the call's own answer, such as a
//! guest process's exit code.

use vstd::prelude::*;

verus! {

/// The bridge's failure code; can't collide with a guest exit code (0...255).
pub const FAILED: i32 = -1;

/// A bridge call's answer: its code and, when the code is [`FAILED`], the
/// message the bridge left behind (ignored otherwise).
#[derive(Clone, Debug, PartialEq, Eq)]
pub struct Reply {
    pub code: i32,
    pub last_error: String,
}

/// The answer a reply carries: its code, or the message behind a failure.
pub open spec fn reply_outcome(reply: Reply) -> Result<i32, Seq<char>> {
    if reply.code == FAILED {
        Err(reply.last_error@)
    } else {
        Ok(reply.code)
    }
}

/// Turns the bridge's `FAILED` into the message it left behind.
pub fn checked(reply: &Reply) -> (outcome: Result<i32, String>)
    ensures
        match outcome {
            Ok(code) => reply_outcome(*reply) == Ok::<i32, Seq<char>>(code),
            Err(message) => reply_outcome(*reply) == Err::<i32, Seq<char>>(message@),
        },
{
    if reply.code == FAILED {
        Err(reply.last_error.clone())
    } else {
        Ok(reply.code)
    }
}

/// A guest's exit code is never taken for a failure: it comes back as itself.
pub proof fn lemma_exit_codes_pass_through(reply: Reply)
    requires
        0 <= reply.code <= 255,
    ensures
        reply_outcome(reply) == Ok::<i32, Seq<char>>(reply.code),
{
}

} // verus!
