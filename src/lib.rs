//! Discovers the shells installed on a host and extracts the environment
//! variables each of them sets.
//!
//! The verified core holds the decisions: the content digest of the helper
//! executable, the protocol that keeps the helper on disk equal to the
//! embedded payload, the command line under which a shell runs the helper,
//! the decoding of the helper's output, and the enumeration of candidate
//! shells. Reading and writing files and spawning processes is left to the
//! caller, which feeds the outcomes back in.
use std::collections::HashMap;
use vstd::prelude::*;

pub mod checksum;
pub mod error;
pub mod extractor;
pub mod parser;
pub mod profile;
pub mod text;
pub mod unix;
pub mod windows;

pub use error::EnvError;
pub use profile::{get as get_profiles, Profile, ShellSource};

verus! {

/// The platform whose shells are discovered and run.
#[derive(Debug, Clone, Copy, PartialEq, Eq, Structural)]
pub enum Platform {
    /// Shells are listed in a shell-list file and take POSIX paths.
    Unix,
    /// Shells are probed at well-known install paths.
    Windows,
    /// A platform that can neither enumerate nor run shells.
    Unsupported,
}


/// The variables of the context, without any shell: the outcome of running
/// the helper directly, parsed.
pub fn get_context_envvars(output: Result<parser::Captured, EnvError>) -> (r: Result<
    HashMap<String, String>,
    EnvError,
>)
    ensures
        match output {
            Ok(c) => parser::parses_to(c.stdout@, c.stderr@, r),
            Err(e) => r == Err::<HashMap<String, String>, EnvError>(e),
        },
{
    parser::read_output(output)
}

} // verus!
