//! The failure type shared by every operation of the crate.

use vstd::prelude::*;
use crate::text::{concat, push_str};

verus! {

/// Shorthand for a result whose failure is an [`Error`].
pub type Result<T> = std::result::Result<T, Error>;

/// A failure, tagged with the stage it came from.
pub struct Error {
    /// The operation during which the failure happened.
    pub stage: &'static str,
    /// What went wrong, including the underlying cause.
    pub message: String,
}

/// The mathematical content of an [`Error`]: both texts as sequences of
/// characters.
pub struct ErrorView {
    pub stage: Seq<char>,
    pub message: Seq<char>,
}

impl ErrorView {
    /// The line shown to a user: `at <stage>: <message>`.
    pub open spec fn display(self) -> Seq<char> {
        "at "@ + self.stage + ": "@ + self.message
    }

    /// The line shown in diagnostics: `[<stage>] <message>`.
    pub open spec fn debug(self) -> Seq<char> {
        "["@ + self.stage + "] "@ + self.message
    }
}

impl View for Error {
    type V = ErrorView;

    open spec fn view(&self) -> ErrorView {
        ErrorView { stage: self.stage@, message: self.message@ }
    }
}

impl Error {
    /// A failure of `stage` with the given message.
    pub fn new(stage: &'static str, message: String) -> (error: Error)
        ensures
            error@ == (ErrorView { stage: stage@, message: message@ }),
    {
        Error { stage, message }
    }

    /// A failure of `stage` whose message is `what` followed by the text of
    /// the underlying cause.
    pub fn caused(stage: &'static str, what: &str, cause: &str) -> (error: Error)
        ensures
            error@ == (ErrorView { stage: stage@, message: what@ + cause@ }),
    {
        Error { stage, message: concat(what, cause) }
    }

    /// A failure that holds the same as this one.
    pub fn duplicate(&self) -> (error: Error)
        ensures
            error@ == self@,
    {
        Error { stage: self.stage, message: self.message.clone() }
    }

    /// The user-facing rendering, `at <stage>: <message>`.
    pub fn to_display_string(&self) -> (text: String)
        ensures
            text@ == self@.display(),
    {
        let mut text = concat("at ", self.stage);
        push_str(&mut text, ": ");
        push_str(&mut text, self.message.as_str());
        text
    }

    /// The diagnostic rendering, `[<stage>] <message>`.
    pub fn to_debug_string(&self) -> (text: String)
        ensures
            text@ == self@.debug(),
    {
        let mut text = concat("[", self.stage);
        push_str(&mut text, "] ");
        push_str(&mut text, self.message.as_str());
        text
    }
}

} // verus!
