//! The error a stream call can fail with.

use std::io::ErrorKind;
use vstd::prelude::*;

verus! {

/// Makes `std::io::ErrorKind` known to the verifier as the plain enum that it
/// is, so that its variants can be named and compared in contracts.
#[verifier::external_type_specification]
pub struct ExErrorKind(ErrorKind);

/// The failure of one stream call: its kind and its message.
#[derive(Debug)]
pub struct StreamError {
    pub kind: ErrorKind,
    pub message: String,
}

/// The mathematical value of a [`StreamError`].
pub struct ErrorView {
    pub kind: ErrorKind,
    pub message: Seq<char>,
}

impl View for StreamError {
    type V = ErrorView;

    open spec fn view(&self) -> ErrorView {
        ErrorView { kind: self.kind, message: self.message@ }
    }
}

impl StreamError {
    /// The error raised when written bytes do not match what the script wants.
    pub open spec fn mismatch_view() -> ErrorView {
        ErrorView { kind: ErrorKind::InvalidInput, message: "mismatch written data"@ }
    }

    /// An error of the given kind with the given message.
    pub fn new(kind: ErrorKind, message: &str) -> (e: Self)
        ensures
            e@ == (ErrorView { kind, message: message@ }),
    {
        StreamError { kind, message: message.to_owned() }
    }

    /// The error raised when written bytes do not match what the script wants:
    /// invalid input.
    pub fn mismatch() -> (e: Self)
        ensures
            e@ == Self::mismatch_view(),
    {
        StreamError { kind: ErrorKind::InvalidInput, message: "mismatch written data".to_owned() }
    }

}

impl Clone for StreamError {
    /// A fresh error with the same kind and message.
    fn clone(&self) -> (e: Self)
        ensures
            e@ == self@,
    {
        StreamError { kind: self.kind, message: self.message.clone() }
    }
}

} // verus!
