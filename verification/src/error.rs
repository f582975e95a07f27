//! The error produced when a byte buffer does not spell a supported option.

use vstd::prelude::*;

verus! {

/// The one failure a decode can report: a structural parse error with a
/// human-readable diagnostic.
#[derive(Debug)]
pub enum DhcpError {
    ParsingError(String),
}

impl DhcpError {
    /// The diagnostic text carried by the error.
    pub open spec fn spec_message(&self) -> Seq<char> {
        match self {
            DhcpError::ParsingError(m) => m@,
        }
    }

    /// Returns the diagnostic text.
    pub fn message(&self) -> (m: String)
        ensures
            m@ == self.spec_message(),
    {
        match self {
            DhcpError::ParsingError(m) => m.clone(),
        }
    }
}

} // verus!
