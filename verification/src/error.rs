//! The failures that the library reports.

use crate::text::{concat2, concat3, decimal, u64_to_string};
use vstd::prelude::*;
use vstd::string::*;

verus! {

/// What can go wrong. Failures of the disk, of the version-control tool, of a
/// parser or of the network are carried as the text that the caller got.
#[derive(Debug, Clone, PartialEq, Eq)]
pub enum Error {
    /// The service is neither installed nor in the catalog.
    ServiceNotFound(String),
    /// The service is already running.
    ServiceAlreadyRunning(String),
    /// A health check failed.
    HealthCheckFailed(String),
    /// No healthy answer came within the given number of seconds.
    HealthCheckTimeout(u64),
    /// The process of the service is gone.
    ServiceProcessDied,
    /// Bringing the mirror up to date failed.
    GitError(String),
    /// Reading or writing a file failed, or a process could not be started.
    IoError(String),
    /// A YAML document could not be read as what was expected.
    YamlError(String),
    /// A JSON document could not be read as what was expected.
    JsonError(String),
    /// A request over HTTP failed.
    HttpError(String),
    /// Anything else, as a message.
    Other(String),
}

impl Error {
    /// The text shown for this failure.
    pub open spec fn message_spec(self) -> Seq<char> {
        match self {
            Error::ServiceNotFound(s) => "Service '"@ + s@ + "' not found"@,
            Error::ServiceAlreadyRunning(s) => "Service '"@ + s@ + "' is already running"@,
            Error::HealthCheckFailed(s) => "Health check failed: "@ + s@,
            Error::HealthCheckTimeout(n) => "Health check timed out after "@ + decimal(n as nat)
                + "s"@,
            Error::ServiceProcessDied => "Service process died"@,
            Error::GitError(s) => "Git operation failed: "@ + s@,
            Error::IoError(s) => "IO error: "@ + s@,
            Error::YamlError(s) => "YAML parse error: "@ + s@,
            Error::JsonError(s) => "JSON parse error: "@ + s@,
            Error::HttpError(s) => "HTTP error: "@ + s@,
            Error::Other(s) => s@,
        }
    }

    /// Renders the failure as text.
    pub fn message(&self) -> (r: String)
        ensures
            r@ == self.message_spec(),
    {
        match self {
            Error::ServiceNotFound(s) => concat3("Service '", s.as_str(), "' not found"),
            Error::ServiceAlreadyRunning(s) => concat3(
                "Service '",
                s.as_str(),
                "' is already running",
            ),
            Error::HealthCheckFailed(s) => concat2("Health check failed: ", s.as_str()),
            Error::HealthCheckTimeout(n) => {
                let digits = u64_to_string(*n);
                concat3("Health check timed out after ", digits.as_str(), "s")
            },
            Error::ServiceProcessDied => String::from_str("Service process died"),
            Error::GitError(s) => concat2("Git operation failed: ", s.as_str()),
            Error::IoError(s) => concat2("IO error: ", s.as_str()),
            Error::YamlError(s) => concat2("YAML parse error: ", s.as_str()),
            Error::JsonError(s) => concat2("JSON parse error: ", s.as_str()),
            Error::HttpError(s) => concat2("HTTP error: ", s.as_str()),
            Error::Other(s) => s.clone(),
        }
    }
}

} // verus!
