//! The errors that cross the bridge.

use vstd::prelude::*;

verus! {

/// A failure reported to the caller of the bridge.
#[derive(Debug, PartialEq, Eq)]
pub enum Error {
    /// The native library reported a failure: its numeric code, and a message for it.
    MdnsSystemError { code: i32, message: String },
    /// The bridge refused the operation itself.
    SystemError { message: String },
}

/// An [`Error`] with its texts as sequences of characters.
pub enum ErrorView {
    MdnsSystemError { code: i32, message: Seq<char> },
    SystemError { message: Seq<char> },
}

impl View for Error {
    type V = ErrorView;

    open spec fn view(&self) -> ErrorView {
        match *self {
            Error::MdnsSystemError { code, message } => ErrorView::MdnsSystemError {
                code,
                message: message@,
            },
            Error::SystemError { message } => ErrorView::SystemError { message: message@ },
        }
    }
}

impl Clone for Error {
    fn clone(&self) -> (r: Self)
        ensures
            r == *self,
    {
        match self {
            Error::MdnsSystemError { code, message } => Error::MdnsSystemError {
                code: *code,
                message: message.clone(),
            },
            Error::SystemError { message } => Error::SystemError { message: message.clone() },
        }
    }
}

impl Error {
    /// The message of the error.
    pub fn message(&self) -> (r: &str)
        ensures
            r@ == match self@ {
                ErrorView::MdnsSystemError { message, .. } => message,
                ErrorView::SystemError { message } => message,
            },
    {
        match self {
            Error::MdnsSystemError { message, .. } => message.as_str(),
            Error::SystemError { message } => message.as_str(),
        }
    }

    /// The native code of the error, where the native library gave one.
    pub fn code(&self) -> (r: Option<i32>)
        ensures
            r == match self@ {
                ErrorView::MdnsSystemError { code, .. } => Some(code),
                ErrorView::SystemError { .. } => None::<i32>,
            },
    {
        match self {
            Error::MdnsSystemError { code, .. } => Some(*code),
            Error::SystemError { .. } => None,
        }
    }
}

} // verus!
