use vstd::prelude::*;

verus! {

/// The ways in which loading the configuration or watching a tree can fail.
#[derive(Debug, Clone, Copy, PartialEq, Eq, Structural)]
pub enum ErrorKind {
    /// The configuration file does not exist or cannot be read.
    ConfigNotFound,
    /// The configuration file is not YAML, or lacks a required field.
    ConfigParseError,
    /// The recursive watch could not be installed.
    WatchRegistrationError,
    /// The notification backend reported a failure while the watch was active.
    WatchBackendError,
}

} // verus!
