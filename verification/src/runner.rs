//! The process runner: one shell invocation per command, combined
//! stdout/stderr capture, and success classification.
//!
//! `helm` has a known defect where certain invocation errors are logged with
//! the phrase `exit status 1` while the process still exits zero. Success of
//! a run therefore requires both a successful exit status and the absence of
//! that marker in the captured output; the heuristic is deliberate and must
//! be kept verbatim.
use vstd::prelude::*;
use vstd::string::*;

use crate::error::TemplexerError;
use crate::text::{contains_seq, slice_contains};

verus! {

/// Relies on `subprocess::Exec`: runs `cmd` through a shell with standard
/// error merged into standard output, waits for it to exit, and captures the
/// combined stream. Returns whether the exit status was success together
/// with the captured output, or the I/O error message when the process could
/// not be run at all. The outcome depends on the host system, so nothing is
/// promised of it.
#[verifier::external_body]
fn capture_shell(cmd: &str) -> Result<(bool, String), String> {
    let captured = subprocess::Exec::shell(cmd).stdout(subprocess::Redirection::Pipe).stderr(
        subprocess::Redirection::Merge,
    ).capture();
    match captured {
        Ok(c) => Ok((c.exit_status.success(), c.stdout_str())),
        Err(e) => Err(format!("{}", e)),
    }
}

/// The byte sequence whose presence in a captured output marks a failed
/// `helm` run regardless of the exit status.
pub open spec fn failure_marker() -> Seq<u8> {
    "exit status 1".spec_bytes()
}

/// Whether a captured output reports the failure that `helm` sometimes logs
/// without exiting non-zero: its UTF-8 bytes contain the failure marker.
pub open spec fn reports_failure(output: Seq<char>) -> bool {
    contains_seq(vstd::utf8::encode_utf8(output), failure_marker())
}

/// The success heuristic for one `helm` run: the exit status must report
/// success, and the captured combined output must not contain the literal
/// failure marker.
pub fn helm_invocation_succeeded(exit_ok: bool, output: &str) -> (r: bool)
    ensures
        r == (exit_ok && !reports_failure(output@)),
{
    exit_ok && !slice_contains(output.as_bytes(), "exit status 1".as_bytes())
}

impl TemplexerError {
    /// The error for a command whose capture succeeded but whose run failed
    /// the success heuristic.
    pub fn helm_failed(cmd: &str, output: String) -> (r: Self)
        ensures
            r matches TemplexerError::HelmFailed { command, output: out } && command@ == cmd@
                && out == output,
    {
        TemplexerError::HelmFailed { command: String::from_str(cmd), output }
    }
}

/// Run one `helm` command line through a shell and hand back the captured
/// combined output, or the failure that classification found. Whatever the
/// host did, an output is only returned when the exit status was success and
/// the output is free of the failure marker.
pub fn run_helm(cmd: &str) -> (r: Result<String, TemplexerError>)
    ensures
        r is Ok ==> !reports_failure((r->Ok_0)@),
        r is Err ==> match r->Err_0 {
            TemplexerError::ProcessSpawn { command, .. } => command@ == cmd@,
            TemplexerError::HelmFailed { command, .. } => command@ == cmd@,
            _ => false,
        },
{
    match capture_shell(cmd) {
        Err(message) => Err(
            TemplexerError::ProcessSpawn { command: String::from_str(cmd), message },
        ),
        Ok((exit_ok, output)) => {
            if helm_invocation_succeeded(exit_ok, output.as_str()) {
                Ok(output)
            } else {
                Err(TemplexerError::helm_failed(cmd, output))
            }
        },
    }
}

} // verus!
