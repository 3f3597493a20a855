//! The ways in which working on the configuration can fail.

use vstd::prelude::*;
use crate::text::concat;

verus! {

/// An error of the configuration engine. Every operation that can fail
/// returns one of these; none retries.
#[derive(Debug, Clone, PartialEq, Eq)]
pub enum ConfigError {
    /// The document at `path` is malformed.
    Parse { path: String, cause: String },
    /// Reading, writing or backing up a file failed.
    Io(String),
    /// A block that a write requires is absent.
    Lookup(String),
    /// What the operator entered is not valid.
    Validation(String),
    /// A call to the compositor failed or was answered unexpectedly.
    Collaborator(String),
}

impl ConfigError {
    /// The text of an error.
    pub open spec fn text(self) -> Seq<char> {
        match self {
            ConfigError::Parse { path, cause } => "Failed to parse KDL config from "@ + path@
                + ": "@ + cause@,
            ConfigError::Io(m) => m@,
            ConfigError::Lookup(m) => m@,
            ConfigError::Validation(m) => m@,
            ConfigError::Collaborator(m) => m@,
        }
    }

    /// The error as a message for the operator.
    pub fn message(&self) -> (r: String)
        ensures
            r@ == self.text(),
    {
        match self {
            ConfigError::Parse { path, cause } => {
                let a = concat("Failed to parse KDL config from ", path.as_str());
                let b = concat(a.as_str(), ": ");
                concat(b.as_str(), cause.as_str())
            },
            ConfigError::Io(m) => m.clone(),
            ConfigError::Lookup(m) => m.clone(),
            ConfigError::Validation(m) => m.clone(),
            ConfigError::Collaborator(m) => m.clone(),
        }
    }
}

} // verus!
