//! Errors this library reports to its caller.

use vstd::prelude::*;

verus! {

/// Any error caused by this library.
#[derive(Debug)]
pub enum Error {
    /// an error encountered when trying to install configuration
    ConfigInstallError {
        /// a textual description of the error
        description: &'static str,
        /// a textual rendering of the upstream cause, if any
        cause: Option<String>,
    },
}

impl Error {
    /// A human-readable message for the error.
    pub fn message(&self) -> (r: String)
        ensures
            match self {
                Error::ConfigInstallError { description, .. } => r@
                    == "CS:GO GSI config install error: "@ + description@,
            },
    {
        match self {
            Error::ConfigInstallError { description, .. } => String::from_str(
                "CS:GO GSI config install error: ",
            ).concat(description),
        }
    }
}

} // verus!
