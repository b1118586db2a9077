//! Render Helm charts for multiple environments using explicit configuration.
//!
//! The heart of the crate is the plan compiler: it turns a configuration
//! document plus command-line overrides into an ordered set of external
//! `helm` invocations and their output destinations. A plan executor then
//! drives those commands through a shell, classifying success with both the
//! exit status and a content heuristic that works around a known `helm`
//! defect.
use vstd::prelude::*;

pub mod command_map;
pub mod config;
pub mod error;
pub mod laws;
pub mod pre_commands;
pub mod render_cmd;
pub mod runner;
pub mod validate_cmd;
pub mod text;

verus! {

/// Options of the `render` command: which files to process and the
/// command-line overrides that apply to every deployment.
#[derive(Debug, Clone)]
pub struct RenderCmdOpts {
    /// Configuration file(s) to render deployments for (supported format: yaml)
    pub input_files: Vec<String>,
    /// Pass additional options to the underlying 'helm template' call
    pub additional_options: Option<Vec<String>>,
    /// Run `helm dependencies update` before rendering deployments
    pub update_dependencies: bool,
    /// Render only the deployments whose name matches this regular expression
    pub filter: Option<String>,
    /// Commands to pipe the manifest of each deployment through before it is
    /// written to disk
    pub pipe: Option<Vec<String>>,
}

/// Options of the `validate` command.
#[derive(Debug, Clone)]
pub struct ValidateCmdOpts {
    /// Configuration file(s) to validate (supported format: yaml)
    pub input_files: Vec<String>,
    /// Skip validation if `enabled` is set to false
    pub skip_disabled: bool,
}

} // verus!
