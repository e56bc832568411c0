//! What this crate could not do: the attempt, and what it said.

use vstd::prelude::*;
use vstd::string::StringExecFns;

verus! {

/// A failure, naming the action that was attempted.
#[derive(Debug, PartialEq, Eq)]
pub enum Error {
    /// Attempted and failed. The message is whatever Containerization said,
    /// which is the only account of a failure inside the VM.
    Failed { action: String, message: String },
    /// Couldn't be attempted: a prerequisite is missing or unreadable. The fix
    /// is to provision it, not to debug a failure.
    Unavailable { action: String, message: String },
}

/// The text an error reads as: `could not {action}: {message}` for a failure,
/// `cannot {action}: {message}` for an attempt that could not be made.
pub open spec fn error_text(error: Error) -> Seq<char> {
    match error {
        Error::Failed { action, message } => "could not "@ + action@ + ": "@ + message@,
        Error::Unavailable { action, message } => "cannot "@ + action@ + ": "@ + message@,
    }
}

impl Error {
    /// The action the error names, whichever kind it is.
    pub open spec fn spec_action(self) -> Seq<char> {
        match self {
            Error::Failed { action, .. } => action@,
            Error::Unavailable { action, .. } => action@,
        }
    }

    pub fn failed(action: &str, message: &str) -> (error: Error)
        ensures
            error matches Error::Failed { action: a, message: m } && a@ == action@ && m@ == message@,
    {
        Error::Failed { action: String::from_str(action), message: String::from_str(message) }
    }

    pub fn unavailable(action: &str, message: &str) -> (error: Error)
        ensures
            error matches Error::Unavailable { action: a, message: m } && a@ == action@ && m@
                == message@,
    {
        Error::Unavailable { action: String::from_str(action), message: String::from_str(message) }
    }

    /// What was attempted, for a caller rewording the failure.
    pub fn action(&self) -> (action: &str)
        ensures
            action@ == self.spec_action(),
    {
        match self {
            Error::Failed { action, .. } => action.as_str(),
            Error::Unavailable { action, .. } => action.as_str(),
        }
    }

    /// The error as a sentence; see [`error_text`].
    pub fn to_string(&self) -> (text: String)
        ensures
            text@ == error_text(*self),
    {
        match self {
            Error::Failed { action, message } => {
                let mut text = String::from_str("could not ");
                text.append(action.as_str());
                text.append(": ");
                text.append(message.as_str());
                text
            },
            Error::Unavailable { action, message } => {
                let mut text = String::from_str("cannot ");
                text.append(action.as_str());
                text.append(": ");
                text.append(message.as_str());
                text
            },
        }
    }
}

} // verus!
