//! The failures that registration, saving and loading report.

use vstd::prelude::*;

verus! {

/// Why an operation failed.
#[derive(Clone, Copy, Debug, PartialEq, Eq, Structural)]
pub enum ConfigError {
    /// No parameters are registered for the type.
    ConfigNotFound,
    /// The format codec could not encode or decode the value.
    SerializationError,
    /// Opening, reading, writing or creating a directory failed.
    IoError,
    /// An annotation holds a value that cannot be read.
    ConfigParseError,
}

} // verus!
