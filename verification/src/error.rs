//! The failure that the provider declares to its caller.

use vstd::prelude::*;

verus! {

/// A failure: a stable machine code and a message for a person.
#[derive(Debug, PartialEq, Eq)]
pub struct ProviderError {
    code: String,
    message: String,
}

/// What a [`ProviderError`] says.
pub struct ErrorView {
    pub code: Seq<char>,
    pub message: Seq<char>,
}

impl View for ProviderError {
    type V = ErrorView;

    closed spec fn view(&self) -> ErrorView {
        ErrorView { code: self.code@, message: self.message@ }
    }
}

impl ProviderError {
    /// The failure with this code and this message.
    pub fn new(code: &str, message: &str) -> (error: ProviderError)
        ensures
            error@ == (ErrorView { code: code@, message: message@ }),
    {
        ProviderError { code: code.to_owned(), message: message.to_owned() }
    }

    /// The machine code.
    pub fn code(&self) -> (code: &str)
        ensures
            code@ == self@.code,
    {
        self.code.as_str()
    }

    /// The message.
    pub fn message(&self) -> (message: &str)
        ensures
            message@ == self@.message,
    {
        self.message.as_str()
    }
}

/// The failure with this code and this detail.
pub fn failure(code: &str, detail: &str) -> (error: ProviderError)
    ensures
        error@ == (ErrorView { code: code@, message: detail@ }),
{
    ProviderError::new(code, detail)
}

} // verus!
