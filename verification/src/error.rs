//! What can go wrong while a resource is retrieved.

use vstd::prelude::*;

verus! {

/// Why a retrieval did not give a value.
#[derive(Clone, Debug, PartialEq, Eq)]
pub enum Error {
    /// The request did not go through: no connection, a timeout, or a body
    /// that could not be read.
    Transport { message: String },
    /// The body does not have the expected shape. `path` leads to the place
    /// in the document where decoding stopped.
    Decode { path: String, message: String },
    /// The store could not be set up, or a stored response that was chosen
    /// to be served could not be read.
    Io { message: String },
}

/// An [`Error`] as plain text.
pub enum ErrorView {
    Transport { message: Seq<char> },
    Decode { path: Seq<char>, message: Seq<char> },
    Io { message: Seq<char> },
}

impl View for Error {
    type V = ErrorView;

    open spec fn view(&self) -> ErrorView {
        match self {
            Error::Transport { message } => ErrorView::Transport { message: message@ },
            Error::Decode { path, message } => ErrorView::Decode {
                path: path@,
                message: message@,
            },
            Error::Io { message } => ErrorView::Io { message: message@ },
        }
    }
}

} // verus!
