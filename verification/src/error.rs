//! The crate's error type. Variants carry the offending values as fields so
//! that callers can report them; no message formatting happens here.
use vstd::prelude::*;

verus! {

/// Everything that can go wrong while compiling a plan, validating a
/// configuration document, or running a planned command.
#[derive(Debug)]
pub enum TemplexerError {
    /// The `filter` override is not a valid regular expression.
    InvalidFilter { pattern: String, message: String },
    /// The configuration file uses a schema version other than the one
    /// this crate supports.
    InvalidSchemaVersion { version: String },
    /// Every deployment of the document is disabled.
    AllDeploymentsDisabled,
    /// The shell command could not be spawned or captured at all.
    ProcessSpawn { command: String, message: String },
    /// The command ran but failed: a non-zero exit status, or the captured
    /// output carries the marker that the renderer logs when it wanted to
    /// fail but exited zero anyway.
    HelmFailed { command: String, output: String },
}

} // verus!
