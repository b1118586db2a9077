//! The validate sub command allows for checking any given configuration file
//! without rendering to disk.
//!
//! Running it means loading each file and validating it; the loading and the
//! path-existence checks are I/O and live with the caller, which combines
//! them with the document checks of [`crate::config`].
use vstd::prelude::*;

use crate::ValidateCmdOpts;

verus! {

/// The validate sub command.
pub struct ValidateCmd {
    pub opts: ValidateCmdOpts,
}

impl ValidateCmd {
    /// Create sub command struct to run validation of the given input file.
    pub fn new(opts: ValidateCmdOpts) -> (r: Self)
        ensures
            r.opts == opts,
    {
        Self { opts }
    }
}

} // verus!
