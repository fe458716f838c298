//! The errors of model lookup and prompt formatting.

use vstd::prelude::*;

verus! {

/// Why a lookup failed. Each variant carries the identifier that was asked for.
#[derive(Debug, Clone)]
pub enum ModelError {
    /// No model of the registry has this name.
    NotFound(String),
    /// No prompt template has this identifier.
    UnknownTemplate(String),
}

impl ModelError {
    /// A human-readable description of the error.
    pub fn message(&self) -> (r: String)
        ensures
            r@ == match self {
                ModelError::NotFound(name) => "Unknown model: "@ + name@,
                ModelError::UnknownTemplate(name) => "Unknown template: "@ + name@,
            },
    {
        match self {
            ModelError::NotFound(name) => {
                let mut r = "Unknown model: ".to_owned();
                r.append(name.as_str());
                r
            },
            ModelError::UnknownTemplate(name) => {
                let mut r = "Unknown template: ".to_owned();
                r.append(name.as_str());
                r
            },
        }
    }
}

} // verus!
