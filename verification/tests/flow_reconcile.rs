use deployerra::flow::{Action, CmdOutcome, Flow, StepError};
use deployerra::platform::Distro;

fn ok(output: &str) -> CmdOutcome {
    CmdOutcome { success: true, output: output.to_string() }
}

fn fail(output: &str) -> CmdOutcome {
    CmdOutcome { success: false, output: output.to_string() }
}

fn expect_action(flow: &mut Flow, expected: Action, outcome: CmdOutcome) {
    let action = flow.next_action().expect("flow ended early");
    assert_eq!(action, expected);
    flow.step(&outcome);
}

fn is_mutating(action: &Action) -> bool {
    matches!(
        action,
        Action::RefreshRepositories(_)
            | Action::InstallRuntime(_)
            | Action::EnableService
            | Action::GrantGroupMembership(_)
            | Action::RestartService
            | Action::InstallComposePlugin(_)
    )
}

#[test]
fn provisioned_host_sees_no_mutating_action() {
    // Every capability probe answers positively: the run is pure
    // verification, so a second run after a successful first one changes
    // nothing.
    let mut flow = Flow::new(Distro::Fedora);
    let outcomes = [
        ok("/usr/bin/docker\n"),
        ok("active\n"),
        ok("dave\n"),
        ok("dave : dave wheel docker\n"),
        ok("  compose*    Run multi-container applications\n"),
    ];
    let mut actions = Vec::new();
    for outcome in outcomes {
        let action = flow.next_action().expect("flow ended early");
        actions.push(action.clone());
        flow.step(&outcome);
    }
    assert!(flow.is_done());
    assert!(actions.iter().all(|a| !is_mutating(a)));
    assert_eq!(
        actions,
        vec![
            Action::ProbeRuntimeInstalled,
            Action::ProbeServiceActive,
            Action::ResolveIdentity,
            Action::ProbeUserGroups("dave".to_string()),
            Action::ProbeComposeInstalled,
        ]
    );
    assert!(flow.errors.is_empty());
    assert!(!flow.relogin_required);
    assert!(flow.compose_present);
}

#[test]
fn inactive_service_is_started_best_effort() {
    let mut flow = Flow::new(Distro::Ubuntu);
    expect_action(&mut flow, Action::ProbeRuntimeInstalled, ok("/usr/bin/docker\n"));
    // The service manager reports the literal state on stdout; the exit
    // status is not what decides.
    expect_action(&mut flow, Action::ProbeServiceActive, fail("inactive\n"));
    expect_action(&mut flow, Action::EnableService, ok(""));
    assert_eq!(flow.next_action(), Some(Action::ResolveIdentity));
    assert!(flow.errors.is_empty());
}

#[test]
fn failed_best_effort_start_is_reported() {
    let mut flow = Flow::new(Distro::Ubuntu);
    expect_action(&mut flow, Action::ProbeRuntimeInstalled, ok("/usr/bin/docker\n"));
    expect_action(&mut flow, Action::ProbeServiceActive, fail("failed\n"));
    expect_action(&mut flow, Action::EnableService, fail(""));
    assert_eq!(flow.next_action(), Some(Action::ResolveIdentity));
    assert_eq!(flow.errors, vec![StepError::ServiceStartFailed]);
}

#[test]
fn missing_group_membership_is_granted_with_notice() {
    let mut flow = Flow::new(Distro::Ubuntu);
    expect_action(&mut flow, Action::ProbeRuntimeInstalled, ok("/usr/bin/docker\n"));
    expect_action(&mut flow, Action::ProbeServiceActive, ok("active\n"));
    expect_action(&mut flow, Action::ResolveIdentity, ok("erin\n"));
    expect_action(
        &mut flow,
        Action::ProbeUserGroups("erin".to_string()),
        ok("erin : erin sudo\n"),
    );
    expect_action(
        &mut flow,
        Action::GrantGroupMembership("erin".to_string()),
        ok(""),
    );
    assert_eq!(flow.next_action(), Some(Action::ProbeComposeInstalled));
    assert!(flow.errors.is_empty());
    assert!(flow.relogin_required);
}

#[test]
fn identity_failure_halts_reconciliation_only() {
    let mut flow = Flow::new(Distro::Ubuntu);
    expect_action(&mut flow, Action::ProbeRuntimeInstalled, ok("/usr/bin/docker\n"));
    expect_action(&mut flow, Action::ProbeServiceActive, ok("active\n"));
    expect_action(&mut flow, Action::ResolveIdentity, fail(""));
    // Group reconciliation cannot proceed, but compose reconciliation is
    // independent and still runs.
    assert_eq!(flow.next_action(), Some(Action::ProbeComposeInstalled));
    assert_eq!(flow.errors, vec![StepError::IdentityResolutionFailed]);
}

#[test]
fn present_runtime_is_never_reinstalled() {
    let mut flow = Flow::new(Distro::Arch);
    expect_action(&mut flow, Action::ProbeRuntimeInstalled, ok("/usr/bin/docker\n"));
    let mut saw_install = false;
    while let Some(action) = flow.next_action() {
        assert!(!matches!(action, Action::InstallRuntime(_) | Action::RefreshRepositories(_)));
        saw_install |= matches!(action, Action::InstallRuntime(_));
        flow.step(&fail(""));
    }
    assert!(!saw_install);
    assert!(flow.is_done());
}
