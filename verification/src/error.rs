//! The errors of the task list and the text each one is reported with.

use crate::text::{framed, labelled};
use vstd::prelude::*;

verus! {

/// `std::io::Error`, carried through as an opaque value.
#[verifier::external_type_specification]
#[verifier::external_body]
pub struct ExIoError(std::io::Error);

/// `serde_json::Error`, carried through as an opaque value.
#[verifier::external_type_specification]
#[verifier::external_body]
pub struct ExJsonError(serde_json::Error);

/// Everything that can go wrong between reading a command and storing its effect.
#[derive(Debug)]
pub enum TodoError {
    /// The store could not be read or written.
    IoError(std::io::Error),
    /// The store's content is not a task list.
    ParseError(serde_json::Error),
    /// The command word is not one of the known commands.
    InvalidCommand(String),
    /// A command came without an argument it needs.
    MissingArgument(String),
    /// An identifier was expected and something malformed was given.
    InvalidId(String),
    /// No task of the collection carries this identifier.
    TaskNotFound(String),
}

/// An error with its texts as sequences of characters. An error of another
/// library stays as it is.
pub ghost enum TodoErrorView {
    IoError(std::io::Error),
    ParseError(serde_json::Error),
    InvalidCommand(Seq<char>),
    MissingArgument(Seq<char>),
    InvalidId(Seq<char>),
    TaskNotFound(Seq<char>),
}

impl View for TodoError {
    type V = TodoErrorView;

    open spec fn view(&self) -> TodoErrorView {
        match self {
            TodoError::IoError(err) => TodoErrorView::IoError(*err),
            TodoError::ParseError(err) => TodoErrorView::ParseError(*err),
            TodoError::InvalidCommand(word) => TodoErrorView::InvalidCommand(word@),
            TodoError::MissingArgument(name) => TodoErrorView::MissingArgument(name@),
            TodoError::InvalidId(given) => TodoErrorView::InvalidId(given@),
            TodoError::TaskNotFound(id) => TodoErrorView::TaskNotFound(id@),
        }
    }
}

impl From<std::io::Error> for TodoError {
    fn from(err: std::io::Error) -> (error: TodoError) {
        TodoError::IoError(err)
    }
}

impl vstd::std_specs::convert::FromSpecImpl<std::io::Error> for TodoError {
    open spec fn obeys_from_spec() -> bool {
        true
    }

    open spec fn from_spec(err: std::io::Error) -> TodoError {
        TodoError::IoError(err)
    }
}

impl From<serde_json::Error> for TodoError {
    fn from(err: serde_json::Error) -> (error: TodoError) {
        TodoError::ParseError(err)
    }
}

impl vstd::std_specs::convert::FromSpecImpl<serde_json::Error> for TodoError {
    open spec fn obeys_from_spec() -> bool {
        true
    }

    open spec fn from_spec(err: serde_json::Error) -> TodoError {
        TodoError::ParseError(err)
    }
}

impl TodoError {
    /// The report of this error, where `detail` is the text of the error it
    /// wraps. An error that wraps none ignores `detail`.
    pub open spec fn message_with(self, detail: Seq<char>) -> Seq<char> {
        match self {
            TodoError::IoError(_) => "IO Error: "@ + detail,
            TodoError::ParseError(_) => "Parse Error: "@ + detail,
            TodoError::InvalidCommand(word) => "Unknown command '"@ + word@
                + "'. Run with no arguments for usage."@,
            TodoError::MissingArgument(name) => "Missing argument: "@ + name@
                + ". Run with no arguments for usage."@,
            TodoError::InvalidId(given) => "Invalid task ID '"@ + given@
                + "'. Please provide a number."@,
            TodoError::TaskNotFound(id) => "No task found with ID "@ + id@ + "."@,
        }
    }

    /// Whether the error carries one of another library.
    pub open spec fn wraps(self) -> bool {
        self is IoError || self is ParseError
    }

    /// The report of this error around a given text of the error it wraps.
    pub fn message_from(&self, detail: &str) -> (text: String)
        ensures
            text@ == self.message_with(detail@),
    {
        match self {
            TodoError::IoError(_) => labelled("IO Error: ", detail),
            TodoError::ParseError(_) => labelled("Parse Error: ", detail),
            TodoError::InvalidCommand(word) => framed(
                "Unknown command '",
                word.as_str(),
                "'. Run with no arguments for usage.",
            ),
            TodoError::MissingArgument(name) => framed(
                "Missing argument: ",
                name.as_str(),
                ". Run with no arguments for usage.",
            ),
            TodoError::InvalidId(given) => framed(
                "Invalid task ID '",
                given.as_str(),
                "'. Please provide a number.",
            ),
            TodoError::TaskNotFound(id) => framed("No task found with ID ", id.as_str(), "."),
        }
    }

    /// The line that tells a user of this error, around a given text of the
    /// error it wraps.
    pub fn report_from(&self, detail: &str) -> (line: String)
        ensures
            line@ == "Error: "@ + self.message_with(detail@),
    {
        let message = self.message_from(detail);
        labelled("Error: ", message.as_str())
    }

    /// The line that tells a user of this error.
    pub fn report(&self) -> (line: String)
        ensures
            exists|detail: Seq<char>| line@ == "Error: "@ + self.message_with(detail),
            !self.wraps() ==> line@ == "Error: "@ + self.message_with(Seq::empty()),
    {
        let message = self.message();
        labelled("Error: ", message.as_str())
    }

    /// The report of this error. Of the text of a wrapped error nothing is
    /// known but that it stands behind the label.
    pub fn message(&self) -> (text: String)
        ensures
            exists|detail: Seq<char>| text@ == self.message_with(detail),
            !self.wraps() ==> text@ == self.message_with(Seq::empty()),
    {
        match self {
            TodoError::IoError(err) => {
                let detail = err.to_string();
                self.message_from(detail.as_str())
            },
            TodoError::ParseError(err) => {
                let detail = err.to_string();
                self.message_from(detail.as_str())
            },
            _ => self.message_from(""),
        }
    }
}

} // verus!
