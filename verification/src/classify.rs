//! Classification of captured client output.
//!
//! The external client reports problems only as free-form diagnostic text, so
//! the orchestrator dispatches on fixed substrings of it.  The matching rules
//! are centralized here: a failure is a missing credential, a missing target
//! database, or unclassified and fatal.  The same brittleness the diagnostic
//! text forces on the tool is confined to the markers below.

use vstd::prelude::*;

use crate::text::contains_seq;
use crate::text::contains_str;

verus! {

/// What the existence probe concluded.
#[derive(PartialEq, Eq, Structural, Clone, Copy, Debug)]
pub enum Existence {
    /// The probe succeeded and reported exactly one matching row.
    Exists,
    /// Everything else, a failing probe included: the later creation attempt
    /// surfaces a concrete error if something other than absence is wrong.
    Missing,
}

/// The closed classification of a failed client invocation.
#[derive(PartialEq, Eq, Structural, Clone, Copy, Debug)]
pub enum FailureKind {
    /// The diagnostic text signals that no password was supplied.
    CredentialMissing,
    /// The diagnostic text signals that the named database does not exist.
    TargetMissing,
    /// Anything else: fatal to the current attempt.
    Other,
}

/// The marker a successful probe prints when exactly one row matched.
pub open spec fn spec_one_row_marker() -> Seq<char> {
    "(1 row)"@
}

/// The diagnostic fragment of a missing credential.
pub open spec fn spec_credential_marker() -> Seq<char> {
    "no password supplied"@
}

/// A failure counts as a missing credential when its diagnostic text carries
/// the credential marker.
pub open spec fn spec_credential_missing(stderr: Seq<char>) -> bool {
    contains_seq(stderr, spec_credential_marker())
}

/// A failure counts as a missing target database when its diagnostic text
/// speaks of a database that does not exist.
pub open spec fn spec_target_missing(stderr: Seq<char>) -> bool {
    contains_seq(stderr, "database"@) && contains_seq(stderr, "does not exist"@)
}

/// The classification of a failure: a missing credential wins over a missing
/// database, and everything else is unclassified.
pub open spec fn spec_classify(stderr: Seq<char>) -> FailureKind {
    if spec_credential_missing(stderr) {
        FailureKind::CredentialMissing
    } else if spec_target_missing(stderr) {
        FailureKind::TargetMissing
    } else {
        FailureKind::Other
    }
}

/// The database exists exactly when the probe's exit status is success and
/// its captured output carries the one-row marker.
pub open spec fn spec_probe_exists(exit_success: bool, stdout: Seq<char>) -> bool {
    exit_success && contains_seq(stdout, spec_one_row_marker())
}

/// Interpret the captured result of the existence probe.
pub fn check_existence(exit_success: bool, stdout: &str) -> (e: Existence)
    ensures
        e == (if spec_probe_exists(exit_success, stdout@) {
            Existence::Exists
        } else {
            Existence::Missing
        }),
{
    if exit_success && contains_str(stdout, "(1 row)") {
        Existence::Exists
    } else {
        Existence::Missing
    }
}

/// Classify the diagnostic text of a failed invocation.
pub fn classify_failure(stderr: &str) -> (k: FailureKind)
    ensures
        k == spec_classify(stderr@),
{
    if contains_str(stderr, "no password supplied") {
        FailureKind::CredentialMissing
    } else if contains_str(stderr, "database") && contains_str(stderr, "does not exist") {
        FailureKind::TargetMissing
    } else {
        FailureKind::Other
    }
}

} // verus!
