use pyaccengineer_installer::manifest::manifest_name;
use pyaccengineer_installer::pipeline::{
    exit_code, finish, handle_env_creation, handle_install_result, handle_probe_output,
    next_action, validate, FailurePolicy, PipelineAction, PipelineError, PipelineState,
};
use pyaccengineer_installer::probe::extract_raw_version;
use pyaccengineer_installer::version::{is_supported, parse_version, PyVersion};

fn version(major: u64, minor: u64, patch: u64) -> PyVersion {
    PyVersion { major, minor, patch }
}

/// Drives the whole pipeline on canned outcomes: the probe result, then the
/// reported success of environment creation and of the package install.
fn run_pipeline(
    probe_success: bool,
    probe_output: &str,
    env_success: bool,
    install_success: bool,
    policy: FailurePolicy,
) -> PipelineState {
    let mut st = PipelineState::Start;
    loop {
        st = match next_action(&st) {
            Some(PipelineAction::RunProbe) => {
                let after = handle_probe_output(st, probe_success, probe_output);
                validate(after)
            }
            Some(PipelineAction::CreateEnvironment) => {
                handle_env_creation(st, env_success, policy)
            }
            Some(PipelineAction::InstallManifest { manifest: _ }) => {
                handle_install_result(st, install_success, policy)
            }
            None => return finish(st),
        };
    }
}

#[test]
fn parse_plain_triple() {
    assert_eq!(parse_version("3.10.4"), Some(version(3, 10, 4)));
    assert_eq!(parse_version("0.0.0"), Some(version(0, 0, 0)));
    assert_eq!(parse_version("12.345.6"), Some(version(12, 345, 6)));
}

#[test]
fn parse_keeps_prerelease_triple() {
    assert_eq!(parse_version("3.9.0-beta.1"), Some(version(3, 9, 0)));
}

#[test]
fn parse_rejects_malformed_text() {
    assert_eq!(parse_version(""), None);
    assert_eq!(parse_version("Python"), None);
    assert_eq!(parse_version("3.10"), None);
    assert_eq!(parse_version("3.10.4.2"), None);
    assert_eq!(parse_version("3.09.1"), None);
}

#[test]
fn supported_range_is_three_nine_to_three_eleven() {
    assert!(is_supported(&version(3, 9, 0)));
    assert!(is_supported(&version(3, 10, 7)));
    assert!(is_supported(&version(3, 11, 99)));
    assert!(!is_supported(&version(3, 8, 10)));
    assert!(!is_supported(&version(3, 12, 0)));
    assert!(!is_supported(&version(2, 10, 0)));
    assert!(!is_supported(&version(4, 9, 0)));
}

#[test]
fn manifest_names_for_supported_versions() {
    assert_eq!(manifest_name(&version(3, 9, 5)).as_str(), "requirement-309.txt");
    assert_eq!(manifest_name(&version(3, 10, 0)).as_str(), "requirement-310.txt");
    assert_eq!(manifest_name(&version(3, 11, 2)).as_str(), "requirement-311.txt");
}

#[test]
fn manifest_name_ignores_patch() {
    assert_eq!(
        manifest_name(&version(3, 9, 0)),
        manifest_name(&version(3, 9, 18))
    );
}

#[test]
fn extract_last_token() {
    assert_eq!(
        extract_raw_version("Python 3.10.4").as_deref(),
        Some("3.10.4")
    );
    assert_eq!(
        extract_raw_version("Python 3.10.4\r\n").as_deref(),
        Some("3.10.4")
    );
    assert_eq!(extract_raw_version("3.9.0").as_deref(), Some("3.9.0"));
}

#[test]
fn extract_from_blank_output_fails() {
    assert_eq!(extract_raw_version(""), None);
    assert_eq!(extract_raw_version(" \t\r\n"), None);
}

#[test]
fn pipeline_selects_manifest_for_three_ten() {
    let st = handle_probe_output(PipelineState::Start, true, "Python 3.10.4\n");
    let st = validate(st);
    assert_eq!(
        st,
        PipelineState::Validated { version: version(3, 10, 4) }
    );
    assert_eq!(next_action(&st), Some(PipelineAction::CreateEnvironment));
    let st = handle_env_creation(st, true, FailurePolicy::Permissive);
    assert_eq!(
        next_action(&st),
        Some(PipelineAction::InstallManifest { manifest: String::from("requirement-310.txt") })
    );
    let st = handle_install_result(st, true, FailurePolicy::Permissive);
    let st = finish(st);
    assert_eq!(st, PipelineState::Done);
    assert_eq!(exit_code(&st), 0);
}

#[test]
fn pipeline_rejects_three_twelve() {
    let st = handle_probe_output(PipelineState::Start, true, "Python 3.12.0");
    let st = validate(st);
    assert_eq!(
        st,
        PipelineState::Failed { error: PipelineError::UnsupportedVersion }
    );
    assert_eq!(next_action(&st), None);
    assert_eq!(exit_code(&st), 1);
}

#[test]
fn pipeline_aborts_on_failed_probe() {
    let st = handle_probe_output(PipelineState::Start, false, "");
    assert_eq!(
        st,
        PipelineState::Failed { error: PipelineError::ProbeFailure }
    );
    let st = validate(st);
    assert_eq!(
        st,
        PipelineState::Failed { error: PipelineError::ProbeFailure }
    );
    assert_eq!(next_action(&st), None);
    assert_eq!(exit_code(&st), 1);
}

#[test]
fn pipeline_reports_malformed_version() {
    let st = handle_probe_output(PipelineState::Start, true, "Python three");
    let st = validate(st);
    assert_eq!(
        st,
        PipelineState::Failed { error: PipelineError::MalformedVersion }
    );
    assert_eq!(exit_code(&st), 1);
}

#[test]
fn full_run_completes() {
    let st = run_pipeline(true, "Python 3.9.7", true, true, FailurePolicy::Permissive);
    assert_eq!(st, PipelineState::Done);
    assert_eq!(exit_code(&st), 0);
}

#[test]
fn rerun_against_existing_environment_matches_first_run() {
    // A second run finds the environment directory already on disk; the
    // creation subcommand may then report failure, which the permissive
    // policy surfaces without halting.  Both runs end the same way.
    let first = run_pipeline(true, "Python 3.10.4", true, true, FailurePolicy::Permissive);
    let second = run_pipeline(true, "Python 3.10.4", false, true, FailurePolicy::Permissive);
    assert_eq!(first, PipelineState::Done);
    assert_eq!(second, PipelineState::Done);
}

#[test]
fn strict_policy_halts_on_subprocess_failure() {
    let st = run_pipeline(true, "Python 3.10.4", false, true, FailurePolicy::Strict);
    assert_eq!(
        st,
        PipelineState::Failed { error: PipelineError::SubprocessFailure }
    );
    assert_eq!(exit_code(&st), 1);
}

#[test]
fn error_messages() {
    assert_eq!(
        PipelineError::ProbeFailure.message().as_str(),
        "Python isn't correctly installed or isn't in PATH"
    );
    assert_eq!(
        PipelineError::UnsupportedVersion.message().as_str(),
        "The current Python version isn't supported."
    );
    assert!(!PipelineError::MalformedVersion.message().is_empty());
    assert!(!PipelineError::SubprocessFailure.message().is_empty());
}
