//! What can end a run.

use crate::config::{ConfigError, ConfigErrorView};
use vstd::prelude::*;
use vstd::string::*;

verus! {

/// What can end a run. Each kind carries the words of the failure that it
/// was made from.
#[derive(Debug, PartialEq, Eq)]
pub enum Error {
    /// Reading, writing or deleting a file failed.
    Request(String),
    /// The catalog refused or could not be reached.
    Api(String),
    /// A download took longer than it may.
    Timeout,
    /// The configuration could not be had.
    Config(ConfigError),
    /// The key for the catalog could not be read.
    Secret(String),
}

/// An [`Error`] with its texts as sequences of characters.
pub enum ErrorView {
    Request(Seq<char>),
    Api(Seq<char>),
    Timeout,
    Config(ConfigErrorView),
    Secret(Seq<char>),
}

impl ErrorView {
    /// The error in words.
    pub open spec fn message(self) -> Seq<char> {
        match self {
            ErrorView::Request(error) => "Request failed: "@ + error,
            ErrorView::Api(error) => error,
            ErrorView::Timeout => "Backup timed out"@,
            ErrorView::Config(error) => error.message(),
            ErrorView::Secret(error) => error,
        }
    }
}

impl View for Error {
    type V = ErrorView;

    open spec fn view(&self) -> ErrorView {
        match self {
            Error::Request(error) => ErrorView::Request(error@),
            Error::Api(error) => ErrorView::Api(error@),
            Error::Timeout => ErrorView::Timeout,
            Error::Config(error) => ErrorView::Config(error@),
            Error::Secret(error) => ErrorView::Secret(error@),
        }
    }
}

impl Clone for Error {
    /// The same error once more.
    fn clone(&self) -> (error: Error)
        ensures
            error@ == self@,
    {
        match self {
            Error::Request(error) => Error::Request(error.clone()),
            Error::Api(error) => Error::Api(error.clone()),
            Error::Timeout => Error::Timeout,
            Error::Config(error) => Error::Config(error.clone()),
            Error::Secret(error) => Error::Secret(error.clone()),
        }
    }
}

impl Error {
    /// The error in words, as it is shown to the operator.
    pub fn message(&self) -> (text: String)
        ensures
            text@ == self@.message(),
    {
        match self {
            Error::Request(error) => {
                let mut text = String::from_str("Request failed: ");
                text.append(error.as_str());
                text
            },
            Error::Api(error) => error.clone(),
            Error::Timeout => String::from_str("Backup timed out"),
            Error::Config(error) => error.message(),
            Error::Secret(error) => error.clone(),
        }
    }
}

} // verus!
