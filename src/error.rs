//! The library's error type, and the outside error types it carries.
use vstd::prelude::*;

verus! {

#[verifier::external_type_specification]
#[verifier::external_body]
pub struct ExIoError(std::io::Error);

#[verifier::external_type_specification]
#[verifier::external_body]
pub struct ExUtf8Error(std::str::Utf8Error);

#[verifier::external_type_specification]
#[verifier::external_body]
pub struct ExJsonError(serde_json::Error);

/// Everything that can go wrong while discovering shells or extracting
/// their variables.
#[derive(Debug)]
pub enum EnvError {
    /// A generic filesystem failure.
    Io(std::io::Error),
    /// The helper's standard output is not a flat JSON object of strings;
    /// carries the parser's error, the raw standard output and the raw
    /// standard error.
    Parsing(serde_json::Error, String, String),
    /// A process could not be spawned, or the platform cannot run one.
    Executing(std::io::Error),
    /// The helper file could not be written.
    Create(std::io::Error),
    /// Standard output or standard error is not valid UTF-8.
    Decoding(std::str::Utf8Error),
    /// The shell executable at this path does not exist.
    NotFound(String),
    /// Any other failure, described in words.
    Other(String),
    /// The current platform has no way to enumerate shells.
    NotSupportedPlatform,
    /// A conversion that cannot fail failed.
    Infallible(std::convert::Infallible),
    /// A variable needed to locate shells is missing.
    NotFoundEnvVar(String),
}

} // verus!
