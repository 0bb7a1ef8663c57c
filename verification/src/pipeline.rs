//! The installer pipeline as a state machine.  Each step of the sequential
//! flow — probe, validate, create the environment, install the manifest —
//! is a transition, and each transition's gate is stated in its contract.
//! The process plumbing that performs the probe, creates the environment
//! and runs the installer lives outside the library; it reports each
//! outcome back as plain values.

use vstd::prelude::*;
use vstd::string::StringExecFns;
use crate::manifest::{manifest_name, manifest_text};
use crate::probe::{extract_raw_version, last_token};
use crate::version::{is_supported, spec_parse_version, version_supported, parse_version, PyVersion};

verus! {

/// Why the pipeline failed.
#[derive(Clone, Copy, Debug, PartialEq, Eq, Structural)]
pub enum PipelineError {
    /// The interpreter was missing, exited with an error when probed, or
    /// produced no usable output.
    ProbeFailure,
    /// The probed raw version text was not parseable as a version.
    MalformedVersion,
    /// The probed version parsed but lies outside the supported range.
    UnsupportedVersion,
    /// A set-up subprocess reported failure under the strict policy.
    SubprocessFailure,
}

/// What a failed set-up subprocess (environment creation or package
/// install) does to the pipeline: under `Permissive` the failure is only
/// surfaced to the operator and the pipeline carries on; under `Strict` it
/// is fatal.
#[derive(Clone, Copy, Debug, PartialEq, Eq, Structural)]
pub enum FailurePolicy {
    Permissive,
    Strict,
}

/// The state of the pipeline.  Control flows `Start`, `Probed`,
/// `Validated`, `EnvironmentCreated`, `PackagesInstalled`, `Done`; a probe
/// failure aborts from `Start` and a validation failure from `Probed`,
/// both to `Failed`.
#[derive(Clone, Debug, PartialEq, Eq)]
pub enum PipelineState {
    /// Nothing has happened yet.
    Start,
    /// The probe succeeded; `raw` holds the extracted raw version text.
    Probed { raw: String },
    /// The probed version parsed and lies in the supported range.
    Validated { version: PyVersion },
    /// The isolated environment was created.
    EnvironmentCreated { version: PyVersion },
    /// The manifest was installed into the environment.
    PackagesInstalled { version: PyVersion },
    /// Every step completed.
    Done,
    /// The pipeline aborted.
    Failed { error: PipelineError },
}

/// What the driver is to do next in a given state.
#[derive(Clone, Debug, PartialEq, Eq)]
pub enum PipelineAction {
    /// Run the interpreter with its version flag and capture its output.
    RunProbe,
    /// Run the interpreter's environment-creation subcommand.
    CreateEnvironment,
    /// Run the environment's package installer on the named manifest file.
    InstallManifest { manifest: String },
}

/// The state that validating raw version text leads to.
pub open spec fn validation_of(raw: Seq<char>) -> PipelineState {
    match spec_parse_version(raw) {
        None => PipelineState::Failed { error: PipelineError::MalformedVersion },
        Some(v) => if version_supported(v) {
            PipelineState::Validated { version: v }
        } else {
            PipelineState::Failed { error: PipelineError::UnsupportedVersion }
        },
    }
}

/// Records the outcome of the probe.  A probe that failed, or whose output
/// holds no whitespace-delimited token, aborts the pipeline with
/// `ProbeFailure`; otherwise the output's last token becomes the raw
/// version text of the `Probed` state.  In any other state the event is
/// ignored.
pub fn handle_probe_output(st: PipelineState, success: bool, output: &str) -> (r: PipelineState)
    ensures
        st is Start && !success ==> r == (PipelineState::Failed {
            error: PipelineError::ProbeFailure,
        }),
        st is Start && success ==> match last_token(output@) {
            None => r == (PipelineState::Failed { error: PipelineError::ProbeFailure }),
            Some(tok) => r matches PipelineState::Probed { raw } && raw@ == tok,
        },
        !(st is Start) ==> r == st,
{
    match st {
        PipelineState::Start => {
            if !success {
                return PipelineState::Failed { error: PipelineError::ProbeFailure };
            }
            match extract_raw_version(output) {
                None => PipelineState::Failed { error: PipelineError::ProbeFailure },
                Some(raw) => PipelineState::Probed { raw },
            }
        },
        _ => st,
    }
}

/// Validates the probed raw version text: text that does not parse aborts
/// with `MalformedVersion`, a version outside the supported range aborts
/// with `UnsupportedVersion`, and a supported version advances to
/// `Validated`.  In any other state the call changes nothing.
pub fn validate(st: PipelineState) -> (r: PipelineState)
    ensures
        st matches PipelineState::Probed { raw } ==> r == validation_of(raw@),
        !(st is Probed) ==> r == st,
{
    match st {
        PipelineState::Probed { raw } => {
            match parse_version(raw.as_str()) {
                None => PipelineState::Failed { error: PipelineError::MalformedVersion },
                Some(version) => {
                    if is_supported(&version) {
                        PipelineState::Validated { version }
                    } else {
                        PipelineState::Failed { error: PipelineError::UnsupportedVersion }
                    }
                },
            }
        },
        _ => st,
    }
}

/// Records the outcome of environment creation.  Success advances to
/// `EnvironmentCreated`; failure does too under the permissive policy,
/// and aborts with `SubprocessFailure` under the strict one.  In any
/// other state the event is ignored.
pub fn handle_env_creation(st: PipelineState, success: bool, policy: FailurePolicy) -> (r:
    PipelineState)
    ensures
        st matches PipelineState::Validated { version } ==> ((success || policy is Permissive)
            ==> r == (PipelineState::EnvironmentCreated { version })),
        st is Validated && !success && policy is Strict ==> r == (PipelineState::Failed {
            error: PipelineError::SubprocessFailure,
        }),
        !(st is Validated) ==> r == st,
{
    match st {
        PipelineState::Validated { version } => {
            if success || matches!(policy, FailurePolicy::Permissive) {
                PipelineState::EnvironmentCreated { version }
            } else {
                PipelineState::Failed { error: PipelineError::SubprocessFailure }
            }
        },
        _ => st,
    }
}

/// Records the outcome of the package install.  Success advances to
/// `PackagesInstalled`; failure does too under the permissive policy, and
/// aborts with `SubprocessFailure` under the strict one.  In any other
/// state the event is ignored.
pub fn handle_install_result(st: PipelineState, success: bool, policy: FailurePolicy) -> (r:
    PipelineState)
    ensures
        st matches PipelineState::EnvironmentCreated { version } ==> ((success
            || policy is Permissive) ==> r == (PipelineState::PackagesInstalled { version })),
        st is EnvironmentCreated && !success && policy is Strict ==> r == (PipelineState::Failed {
            error: PipelineError::SubprocessFailure,
        }),
        !(st is EnvironmentCreated) ==> r == st,
{
    match st {
        PipelineState::EnvironmentCreated { version } => {
            if success || matches!(policy, FailurePolicy::Permissive) {
                PipelineState::PackagesInstalled { version }
            } else {
                PipelineState::Failed { error: PipelineError::SubprocessFailure }
            }
        },
        _ => st,
    }
}

/// Closes the pipeline: once the packages are installed, every step has
/// completed.  In any other state the call changes nothing.
pub fn finish(st: PipelineState) -> (r: PipelineState)
    ensures
        st is PackagesInstalled ==> r is Done,
        !(st is PackagesInstalled) ==> r == st,
{
    match st {
        PipelineState::PackagesInstalled { .. } => PipelineState::Done,
        _ => st,
    }
}

/// The action the driver performs next.  `Start` asks for the probe,
/// `Validated` for environment creation, and `EnvironmentCreated` for the
/// install of the manifest derived from the validated version; the other
/// states ask for nothing (after a probe the driver calls [`validate`],
/// which needs no outside work).
pub fn next_action(st: &PipelineState) -> (a: Option<PipelineAction>)
    ensures
        st is Start ==> a == Some(PipelineAction::RunProbe),
        st is Validated ==> a == Some(PipelineAction::CreateEnvironment),
        st matches PipelineState::EnvironmentCreated { version } ==> a matches Some(
            PipelineAction::InstallManifest { manifest },
        ) && manifest@ == manifest_text(*version),
        st is Probed || st is PackagesInstalled || st is Done || st is Failed ==> a is None,
{
    match st {
        PipelineState::Start => Some(PipelineAction::RunProbe),
        PipelineState::Validated { .. } => Some(PipelineAction::CreateEnvironment),
        PipelineState::EnvironmentCreated { version } => Some(
            PipelineAction::InstallManifest { manifest: manifest_name(version) },
        ),
        _ => None,
    }
}

/// The process exit status for a state: `0` once every step has completed,
/// `1` otherwise.
pub fn exit_code(st: &PipelineState) -> (c: i32)
    ensures
        c == (if st is Done {
            0int
        } else {
            1int
        }),
{
    match st {
        PipelineState::Done => 0,
        _ => 1,
    }
}

/// The operator-visible message for an error.
pub open spec fn error_message_text(e: PipelineError) -> Seq<char> {
    match e {
        PipelineError::ProbeFailure => "Python isn't correctly installed or isn't in PATH"@,
        PipelineError::MalformedVersion => "The probed Python version could not be parsed"@,
        PipelineError::UnsupportedVersion => "The current Python version isn't supported."@,
        PipelineError::SubprocessFailure => "A subprocess failed while setting up the environment"@,
    }
}

impl PipelineError {
    /// The operator-visible message for this error.
    pub fn message(&self) -> (m: String)
        ensures
            m@ == error_message_text(*self),
    {
        match self {
            PipelineError::ProbeFailure => String::from_str(
                "Python isn't correctly installed or isn't in PATH",
            ),
            PipelineError::MalformedVersion => String::from_str(
                "The probed Python version could not be parsed",
            ),
            PipelineError::UnsupportedVersion => String::from_str(
                "The current Python version isn't supported.",
            ),
            PipelineError::SubprocessFailure => String::from_str(
                "A subprocess failed while setting up the environment",
            ),
        }
    }
}

} // verus!
