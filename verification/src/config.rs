//! The configuration document: a chart, global settings, and an ordered list
//! of per-deployment overrides, together with the pure validation checks.
//!
//! Loading a file from disk and checking that referenced paths exist are I/O
//! concerns and live outside this crate; the checks here decide everything
//! that can be decided from the document's values alone.
use vstd::prelude::*;
use vstd::string::*;

use crate::error::TemplexerError;
use crate::text::str_eq;

verus! {

/// One top-level declarative configuration describing a chart and its
/// deployment variants. Paths are carried as plain strings; the caller
/// converts platform paths before handing a document to this crate.
#[derive(Debug, Clone)]
pub struct Config {
    /// Schema version to use
    pub version: String,
    /// (not implemented) Optional Helm SemVer version constraint to validate against
    pub helm_version: Option<String>,
    /// Activate/deactivate rendering of contained deployments
    pub enabled: Option<bool>,
    /// Chart to use
    pub chart: String,
    /// Namespace to pass via `--namespace`
    pub namespace: Option<String>,
    /// Release name passed to `helm template` call
    pub release_name: String,
    /// Output path to write manifests to
    pub output_path: String,
    /// Use any other option that `helm template` supports
    /// Contents are not validated against actual `helm` options
    pub additional_options: Option<Vec<String>>,
    /// Value files to pass via `--values`
    pub values: Option<Vec<String>>,
    /// List of deployments to render given Chart
    pub deployments: Vec<Deployment>,
}

/// One named variant within a document, producing one rendered output.
#[derive(Debug, Clone)]
pub struct Deployment {
    /// Name of the deployment, used to create the output path
    pub name: String,
    /// Activate/deactivate rendering of this specific deployment
    pub enabled: Option<bool>,
    /// Override the release name passed to `helm template`
    pub release_name: Option<String>,
    /// Append any additional options to the top level options
    pub additional_options: Option<Vec<String>>,
    /// Append value files to the top level value files
    pub values: Option<Vec<String>>,
}

/// Options that steer validation of a loaded document.
#[derive(Debug, Clone)]
pub struct ValidationOpts {
    pub skip_disabled: bool,
    pub config_file: Option<String>,
}

impl Default for ValidationOpts {
    /// No skipping, no configuration file path.
    fn default() -> (r: Self)
        ensures
            !r.skip_disabled,
            r.config_file is None,
    {
        ValidationOpts { skip_disabled: false, config_file: None }
    }
}

/// The strings of `o`, or the empty sequence when it is absent.
pub open spec fn opt_strings(o: Option<Vec<String>>) -> Seq<Seq<char>> {
    match o {
        Some(v) => v.deep_view(),
        None => Seq::empty(),
    }
}

/// The value files contributed by the deployments in `ds`: the files of
/// every deployment that is not disabled, in document order.
pub open spec fn deployment_value_files(ds: Seq<Deployment>) -> Seq<Seq<char>>
    decreases ds.len(),
{
    if ds.len() == 0 {
        Seq::empty()
    } else {
        deployment_value_files(ds.drop_last()) + (if ds.last().enabled != Some(false) {
            opt_strings(ds.last().values)
        } else {
            Seq::empty()
        })
    }
}

impl Config {
    /// The value files whose existence validation must check: the
    /// document-level files, then the files of every deployment that is not
    /// disabled, in order. Files of disabled deployments are left out.
    pub fn value_files_to_check(&self) -> (r: Vec<String>)
        ensures
            r.deep_view() == opt_strings(self.values) + deployment_value_files(
                self.deployments@,
            ),
    {
        let mut out: Vec<String> = Vec::new();
        match &self.values {
            Some(vs) => crate::text::extend_strings(&mut out, vs),
            None => (),
        }
        let ghost doc_part = out.deep_view();
        let mut i: usize = 0;
        while i < self.deployments.len()
            invariant
                i <= self.deployments@.len(),
                out.deep_view() == doc_part + deployment_value_files(
                    self.deployments@.subrange(0, i as int),
                ),
            decreases self.deployments@.len() - i,
        {
            let d = &self.deployments[i];
            let ghost prefix = self.deployments@.subrange(0, i as int);
            let ghost next = self.deployments@.subrange(0, i + 1);
            proof {
                assert(next.drop_last() =~= prefix);
                assert(next.last() == self.deployments@[i as int]);
            }
            let skip = match d.enabled {
                Some(e) => !e,
                None => false,
            };
            if !skip {
                match &d.values {
                    Some(vs) => crate::text::extend_strings(&mut out, vs),
                    None => (),
                }
            }
            proof {
                assert(out.deep_view() =~= doc_part + deployment_value_files(next));
            }
            i = i + 1;
        }
        proof {
            assert(self.deployments@.subrange(0, self.deployments@.len() as int)
                =~= self.deployments@);
        }
        out
    }

    /// Check the given schema version; should be extended once multiple are
    /// available.
    pub fn check_schema_version(&self) -> (r: Result<(), TemplexerError>)
        ensures
            r is Ok <==> self.version@ == "v2"@,
            r is Err ==> (r->Err_0 matches TemplexerError::InvalidSchemaVersion { version }
                && version@ == self.version@),
    {
        if str_eq(self.version.as_str(), "v2") {
            Ok(())
        } else {
            Err(TemplexerError::InvalidSchemaVersion { version: self.version.clone() })
        }
    }

    /// Go through all deployments and check if at least one of them is
    /// enabled. A deployment counts as enabled unless it says `false`.
    pub fn check_if_at_least_one_deployment_is_enabled(&self) -> (r: Result<(), TemplexerError>)
        ensures
            r is Ok <==> exists|i: int|
                0 <= i < self.deployments@.len() && (#[trigger] self.deployments@[i].enabled)
                    != Some(false),
            r is Err ==> r->Err_0 is AllDeploymentsDisabled,
    {
        let mut i: usize = 0;
        while i < self.deployments.len()
            invariant
                i <= self.deployments@.len(),
                forall|j: int|
                    0 <= j < i ==> (#[trigger] self.deployments@[j].enabled) == Some(false),
            decreases self.deployments@.len() - i,
        {
            let enabled = match self.deployments[i].enabled {
                Some(e) => e,
                None => true,
            };
            if enabled {
                return Ok(());
            }
            i = i + 1;
        }
        Err(TemplexerError::AllDeploymentsDisabled)
    }

    /// Whether validation of this document is skipped entirely: the document
    /// is disabled and the caller asked to skip disabled files.
    pub fn skip_validation(&self, opts: &ValidationOpts) -> (r: bool)
        ensures
            r == (opts.skip_disabled && self.enabled == Some(false)),
    {
        opts.skip_disabled && match self.enabled {
            Some(e) => !e,
            None => false,
        }
    }
}

} // verus!
