use deployerra::flow::{Action, CmdOutcome, Flow, InstallCommand, StepError};
use deployerra::platform::Distro;

fn ok(output: &str) -> CmdOutcome {
    CmdOutcome { success: true, output: output.to_string() }
}

fn fail(output: &str) -> CmdOutcome {
    CmdOutcome { success: false, output: output.to_string() }
}

/// Drives the machine one action forward, checking the action asked for.
fn expect_action(flow: &mut Flow, expected: Action, outcome: CmdOutcome) {
    let action = flow.next_action().expect("flow ended early");
    assert_eq!(action, expected);
    flow.step(&outcome);
}

#[test]
fn fresh_install_runs_the_fixed_step_order() {
    let mut flow = Flow::new(Distro::Ubuntu);
    expect_action(&mut flow, Action::ProbeRuntimeInstalled, fail(""));
    expect_action(&mut flow, Action::RefreshRepositories(Distro::Ubuntu), ok(""));
    expect_action(
        &mut flow,
        Action::InstallRuntime(InstallCommand::AptDockerIo),
        ok(""),
    );
    expect_action(&mut flow, Action::EnableService, ok(""));
    expect_action(&mut flow, Action::ResolveIdentity, ok("alice\n"));
    expect_action(
        &mut flow,
        Action::GrantGroupMembership("alice".to_string()),
        ok(""),
    );
    expect_action(&mut flow, Action::RestartService, ok(""));
    expect_action(&mut flow, Action::ProbeComposeInstalled, ok("compose  Run multi-container applications\n"));
    assert!(flow.is_done());
    assert!(flow.next_action().is_none());
    assert!(flow.errors.is_empty());
    assert!(flow.relogin_required);
    assert!(flow.compose_present);
}

#[test]
fn refresh_failure_halts_the_subflow_at_its_first_step() {
    let mut flow = Flow::new(Distro::Debian);
    expect_action(&mut flow, Action::ProbeRuntimeInstalled, fail(""));
    expect_action(&mut flow, Action::RefreshRepositories(Distro::Debian), fail(""));
    // No install, service, or group action follows: the flow skips
    // straight to compose reconciliation.
    assert_eq!(
        flow.next_action(),
        Some(Action::ProbeComposeInstalled)
    );
    assert_eq!(flow.errors, vec![StepError::RepositoryRefreshFailed]);
}

#[test]
fn redhat_family_refresh_failure_is_ignorable() {
    for (distro, install) in [
        (Distro::Fedora, InstallCommand::DnfDocker),
        (Distro::Rhel, InstallCommand::DnfDockerCe),
    ] {
        let mut flow = Flow::new(distro);
        expect_action(&mut flow, Action::ProbeRuntimeInstalled, fail(""));
        // "updates available" conventionally exits non-zero here.
        expect_action(&mut flow, Action::RefreshRepositories(distro), fail(""));
        assert_eq!(flow.next_action(), Some(Action::InstallRuntime(install)));
        assert!(flow.errors.is_empty());
    }
}

#[test]
fn refresh_failure_is_fatal_outside_the_redhat_family() {
    for distro in [Distro::Amzn, Distro::Ol, Distro::Arch, Distro::Ubuntu] {
        let mut flow = Flow::new(distro);
        expect_action(&mut flow, Action::ProbeRuntimeInstalled, fail(""));
        expect_action(&mut flow, Action::RefreshRepositories(distro), fail(""));
        assert_eq!(flow.next_action(), Some(Action::ProbeComposeInstalled));
        assert_eq!(flow.errors, vec![StepError::RepositoryRefreshFailed]);
    }
}

#[test]
fn install_failure_halts_before_any_service_or_group_step() {
    let mut flow = Flow::new(Distro::Arch);
    expect_action(&mut flow, Action::ProbeRuntimeInstalled, fail(""));
    expect_action(&mut flow, Action::RefreshRepositories(Distro::Arch), ok(""));
    expect_action(
        &mut flow,
        Action::InstallRuntime(InstallCommand::PacmanDocker),
        fail(""),
    );
    assert_eq!(flow.next_action(), Some(Action::ProbeComposeInstalled));
    assert_eq!(flow.errors, vec![StepError::RuntimeInstallFailed]);
    assert!(!flow.relogin_required);
}

#[test]
fn service_start_failure_is_reported_but_not_fatal() {
    let mut flow = Flow::new(Distro::Ubuntu);
    expect_action(&mut flow, Action::ProbeRuntimeInstalled, fail(""));
    expect_action(&mut flow, Action::RefreshRepositories(Distro::Ubuntu), ok(""));
    expect_action(
        &mut flow,
        Action::InstallRuntime(InstallCommand::AptDockerIo),
        ok(""),
    );
    expect_action(&mut flow, Action::EnableService, fail(""));
    // The flow still resolves the identity and grants the group.
    assert_eq!(flow.next_action(), Some(Action::ResolveIdentity));
    assert_eq!(flow.errors, vec![StepError::ServiceStartFailed]);
}

#[test]
fn identity_failure_is_fatal_to_the_rest_of_the_subflow() {
    let mut flow = Flow::new(Distro::Ubuntu);
    expect_action(&mut flow, Action::ProbeRuntimeInstalled, fail(""));
    expect_action(&mut flow, Action::RefreshRepositories(Distro::Ubuntu), ok(""));
    expect_action(
        &mut flow,
        Action::InstallRuntime(InstallCommand::AptDockerIo),
        ok(""),
    );
    expect_action(&mut flow, Action::EnableService, ok(""));
    expect_action(&mut flow, Action::ResolveIdentity, fail(""));
    // No group grant and no restart: the grant is meaningless without an
    // identity.
    assert_eq!(flow.next_action(), Some(Action::ProbeComposeInstalled));
    assert_eq!(flow.errors, vec![StepError::IdentityResolutionFailed]);
}

#[test]
fn group_grant_failure_is_reported_and_restart_still_runs() {
    let mut flow = Flow::new(Distro::Ubuntu);
    expect_action(&mut flow, Action::ProbeRuntimeInstalled, fail(""));
    expect_action(&mut flow, Action::RefreshRepositories(Distro::Ubuntu), ok(""));
    expect_action(
        &mut flow,
        Action::InstallRuntime(InstallCommand::AptDockerIo),
        ok(""),
    );
    expect_action(&mut flow, Action::EnableService, ok(""));
    expect_action(&mut flow, Action::ResolveIdentity, ok("bob\n"));
    expect_action(
        &mut flow,
        Action::GrantGroupMembership("bob".to_string()),
        fail(""),
    );
    assert_eq!(flow.next_action(), Some(Action::RestartService));
    assert_eq!(flow.errors, vec![StepError::GroupGrantFailed]);
    // The post-grant notice is owed only on a successful grant.
    assert!(!flow.relogin_required);
}

#[test]
fn restart_failure_is_reported_but_compose_still_runs() {
    let mut flow = Flow::new(Distro::Ubuntu);
    expect_action(&mut flow, Action::ProbeRuntimeInstalled, fail(""));
    expect_action(&mut flow, Action::RefreshRepositories(Distro::Ubuntu), ok(""));
    expect_action(
        &mut flow,
        Action::InstallRuntime(InstallCommand::AptDockerIo),
        ok(""),
    );
    expect_action(&mut flow, Action::EnableService, ok(""));
    expect_action(&mut flow, Action::ResolveIdentity, ok("carol"));
    expect_action(
        &mut flow,
        Action::GrantGroupMembership("carol".to_string()),
        ok(""),
    );
    expect_action(&mut flow, Action::RestartService, fail(""));
    assert_eq!(flow.next_action(), Some(Action::ProbeComposeInstalled));
    assert_eq!(flow.errors, vec![StepError::ServiceRestartFailed]);
    assert!(flow.relogin_required);
}

#[test]
fn amazon_2023_descriptor_selects_the_yum_path() {
    let mut flow = Flow::new(Distro::Amzn);
    expect_action(&mut flow, Action::ProbeRuntimeInstalled, fail(""));
    expect_action(&mut flow, Action::RefreshRepositories(Distro::Amzn), ok(""));
    expect_action(
        &mut flow,
        Action::ProbeAmazonRelease,
        ok("Amazon Linux release 2023.4.20240611 (Amazon Linux)\n"),
    );
    assert_eq!(
        flow.next_action(),
        Some(Action::InstallRuntime(InstallCommand::YumDocker))
    );
    assert!(flow.errors.is_empty());
}

#[test]
fn amazon_legacy_descriptor_selects_the_extras_path() {
    let mut flow = Flow::new(Distro::Amzn);
    expect_action(&mut flow, Action::ProbeRuntimeInstalled, fail(""));
    expect_action(&mut flow, Action::RefreshRepositories(Distro::Amzn), ok(""));
    expect_action(
        &mut flow,
        Action::ProbeAmazonRelease,
        ok("Amazon Linux release 2 (Karoo)\n"),
    );
    assert_eq!(
        flow.next_action(),
        Some(Action::InstallRuntime(InstallCommand::AmazonExtrasDocker))
    );
    assert!(flow.errors.is_empty());
}

#[test]
fn unrecognized_amazon_descriptor_is_fatal() {
    let mut flow = Flow::new(Distro::Amzn);
    expect_action(&mut flow, Action::ProbeRuntimeInstalled, fail(""));
    expect_action(&mut flow, Action::RefreshRepositories(Distro::Amzn), ok(""));
    expect_action(
        &mut flow,
        Action::ProbeAmazonRelease,
        ok("Amazon Linux AMI release 2018.03\n"),
    );
    assert_eq!(flow.next_action(), Some(Action::ProbeComposeInstalled));
    assert_eq!(flow.errors, vec![StepError::UnsupportedPlatformVariant]);
}

#[test]
fn unreadable_amazon_descriptor_is_fatal() {
    let mut flow = Flow::new(Distro::Amzn);
    expect_action(&mut flow, Action::ProbeRuntimeInstalled, fail(""));
    expect_action(&mut flow, Action::RefreshRepositories(Distro::Amzn), ok(""));
    expect_action(&mut flow, Action::ProbeAmazonRelease, fail(""));
    assert_eq!(flow.next_action(), Some(Action::ProbeComposeInstalled));
    assert_eq!(flow.errors, vec![StepError::AmazonReleaseProbeFailed]);
}

#[test]
fn error_messages_name_the_failed_step() {
    assert_eq!(
        StepError::RepositoryRefreshFailed.message(),
        "Failed to update package repositories"
    );
    assert_eq!(
        StepError::ComposePluginInstallFailed.message(),
        "docker compose installation failed"
    );
}
