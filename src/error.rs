//! Errors of the library and of the service around it.
use vstd::prelude::*;

verus! {

/// A required anchor element is missing from a page: the page is not of
/// the kind that was expected.
pub struct StructuralError {
    /// The selector of the missing anchor.
    pub anchor: String,
}

impl StructuralError {
    /// A description for people.
    pub fn message(&self) -> (r: String)
        ensures
            r@ == "required element not found: "@ + self.anchor@,
    {
        let mut m = String::from_str("required element not found: ");
        m.append(self.anchor.as_str());
        m
    }
}

/// Where an error came from.
#[derive(Debug, Clone, Copy, PartialEq, Eq, Structural)]
pub enum ErrorSource {
    /// The upstream site failed or answered unexpectedly.
    Upstream,
    /// This service failed.
    Internal,
}

/// An error as the service reports it to its users.
pub struct Error {
    pub status: u16,
    pub message: String,
    pub details: Option<String>,
    pub stack_trace: Option<String>,
    pub source: ErrorSource,
}

impl Error {
    /// An error with a status, a message and a source, and no details.
    pub fn new(status: u16, message: String, source: ErrorSource) -> (r: Error)
        ensures
            r.status == status,
            r.message@ == message@,
            r.details is None,
            r.stack_trace is None,
            r.source == source,
    {
        Error { status, message, details: None, stack_trace: None, source }
    }
}

} // verus!
