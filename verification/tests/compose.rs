use deployerra::flow::{Action, CmdOutcome, Flow, StepError};
use deployerra::platform::Distro;

fn ok(output: &str) -> CmdOutcome {
    CmdOutcome { success: true, output: output.to_string() }
}

fn fail(output: &str) -> CmdOutcome {
    CmdOutcome { success: false, output: output.to_string() }
}

fn expect_action(flow: &mut Flow, expected: Action, outcome: CmdOutcome) {
    let action = flow.next_action().expect("flow ended early");
    assert_eq!(action, expected);
    flow.step(&outcome);
}

/// A machine that has finished runtime reconciliation and stands at the
/// initial compose probe.
fn at_compose_probe() -> Flow {
    let mut flow = Flow::new(Distro::Ubuntu);
    expect_action(&mut flow, Action::ProbeRuntimeInstalled, ok("/usr/bin/docker\n"));
    expect_action(&mut flow, Action::ProbeServiceActive, ok("active\n"));
    expect_action(&mut flow, Action::ResolveIdentity, ok("frank\n"));
    expect_action(
        &mut flow,
        Action::ProbeUserGroups("frank".to_string()),
        ok("frank : frank docker\n"),
    );
    flow
}

#[test]
fn present_compose_means_no_action() {
    let mut flow = at_compose_probe();
    expect_action(
        &mut flow,
        Action::ProbeComposeInstalled,
        ok("  compose*    Run multi-container applications\n"),
    );
    assert!(flow.is_done());
    assert!(flow.compose_present);
    assert!(flow.errors.is_empty());
}

#[test]
fn absent_compose_triggers_the_install_pipeline() {
    let mut flow = at_compose_probe();
    expect_action(&mut flow, Action::ProbeComposeInstalled, ok("no plugins here\n"));
    // Architecture output is trimmed before it parameterizes the URL.
    expect_action(&mut flow, Action::DetectArchitecture, ok("x86_64\n"));
    expect_action(
        &mut flow,
        Action::InstallComposePlugin("x86_64".to_string()),
        ok(""),
    );
    expect_action(
        &mut flow,
        Action::ProbeComposeInstalled,
        ok("  compose*    Run multi-container applications\n"),
    );
    assert!(flow.is_done());
    assert!(flow.compose_present);
    assert!(flow.errors.is_empty());
}

#[test]
fn clean_pipeline_with_corrupt_binary_is_a_failure() {
    // The pipeline exits zero but the plugin still does not answer: the
    // re-probe alone decides, so this is reported as a failure.
    let mut flow = at_compose_probe();
    expect_action(&mut flow, Action::ProbeComposeInstalled, ok("no plugins here\n"));
    expect_action(&mut flow, Action::DetectArchitecture, ok("aarch64\n"));
    expect_action(
        &mut flow,
        Action::InstallComposePlugin("aarch64".to_string()),
        ok(""),
    );
    expect_action(&mut flow, Action::ProbeComposeInstalled, ok("still no plugins\n"));
    assert!(flow.is_done());
    assert!(!flow.compose_present);
    assert_eq!(flow.errors, vec![StepError::ComposePluginInstallFailed]);
}

#[test]
fn failed_pipeline_with_working_plugin_is_a_success() {
    // The converse: the pipeline reports failure but the re-probe finds
    // the plugin present, so the reconciliation succeeded.
    let mut flow = at_compose_probe();
    expect_action(&mut flow, Action::ProbeComposeInstalled, ok("no plugins here\n"));
    expect_action(&mut flow, Action::DetectArchitecture, ok("x86_64\n"));
    expect_action(
        &mut flow,
        Action::InstallComposePlugin("x86_64".to_string()),
        fail(""),
    );
    expect_action(
        &mut flow,
        Action::ProbeComposeInstalled,
        ok("  compose*    Run multi-container applications\n"),
    );
    assert!(flow.is_done());
    assert!(flow.compose_present);
    assert!(flow.errors.is_empty());
}

#[test]
fn undetectable_architecture_is_fatal_to_compose() {
    let mut flow = at_compose_probe();
    expect_action(&mut flow, Action::ProbeComposeInstalled, ok("no plugins here\n"));
    expect_action(&mut flow, Action::DetectArchitecture, fail(""));
    assert!(flow.is_done());
    assert!(!flow.compose_present);
    assert_eq!(flow.errors, vec![StepError::ArchitectureDetectionFailed]);
}

#[test]
fn compose_runs_even_after_a_fatal_install_failure() {
    let mut flow = Flow::new(Distro::Ubuntu);
    expect_action(&mut flow, Action::ProbeRuntimeInstalled, fail(""));
    expect_action(&mut flow, Action::RefreshRepositories(Distro::Ubuntu), fail(""));
    // The fresh-install sub-flow halted, yet compose reconciliation is
    // still attempted.
    expect_action(&mut flow, Action::ProbeComposeInstalled, ok("no plugins\n"));
    expect_action(&mut flow, Action::DetectArchitecture, ok("x86_64\n"));
    expect_action(
        &mut flow,
        Action::InstallComposePlugin("x86_64".to_string()),
        ok(""),
    );
    expect_action(
        &mut flow,
        Action::ProbeComposeInstalled,
        ok("  compose*    Run multi-container applications\n"),
    );
    assert!(flow.is_done());
    assert!(flow.compose_present);
    assert_eq!(flow.errors, vec![StepError::RepositoryRefreshFailed]);
}
