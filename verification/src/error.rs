//! The errors that end a run.

use vstd::prelude::*;

verus! {

/// Why nothing, or nothing more, is sent.
#[derive(Debug, Clone, PartialEq, Eq)]
pub enum Error {
    /// Neither command line nor configuration names a chat.
    NoDestination,
    /// Neither command line nor configuration holds a bot token.
    NoCredential,
    /// The path of a file to send has no final component to name the file by.
    InvalidFilePath,
    /// The API answered a request with a status outside the success range.
    /// `context` names the request that failed.
    RemoteError { status: u16, context: String },
}

/// An error as contracts see it.
pub enum ErrorView {
    NoDestination,
    NoCredential,
    InvalidFilePath,
    RemoteError { status: u16, context: Seq<char> },
}

impl View for Error {
    type V = ErrorView;

    open spec fn view(&self) -> ErrorView {
        match *self {
            Error::NoDestination => ErrorView::NoDestination,
            Error::NoCredential => ErrorView::NoCredential,
            Error::InvalidFilePath => ErrorView::InvalidFilePath,
            Error::RemoteError { status, context } => ErrorView::RemoteError {
                status,
                context: context@,
            },
        }
    }
}

impl ErrorView {
    /// The line that tells the user of the error; for an answer of the API
    /// it is the context, which names the request that failed.
    pub open spec fn message(self) -> Seq<char> {
        match self {
            ErrorView::NoDestination =>
                "Error: No valid chat ID provided. Please specify a chat ID via CLI arguments or set a non-empty default in the config file."@,
            ErrorView::NoCredential =>
                "Error: No valid bot token provided. Please specify a bot token via CLI arguments or set a non-empty default in the config file."@,
            ErrorView::InvalidFilePath => "Invalid file path"@,
            ErrorView::RemoteError { status, context } => context,
        }
    }
}

impl Error {
    /// The line that tells the user of the error.
    pub fn message(&self) -> (r: String)
        ensures
            r@ == self@.message(),
    {
        match self {
            Error::NoDestination =>
                "Error: No valid chat ID provided. Please specify a chat ID via CLI arguments or set a non-empty default in the config file.".to_owned(),
            Error::NoCredential =>
                "Error: No valid bot token provided. Please specify a bot token via CLI arguments or set a non-empty default in the config file.".to_owned(),
            Error::InvalidFilePath => "Invalid file path".to_owned(),
            Error::RemoteError { status, context } => context.clone(),
        }
    }
}

} // verus!
