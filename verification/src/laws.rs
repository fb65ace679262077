//! The provisioning machine's guarantees, stated and proved over the
//! transition function: idempotence on a healthy host, the fixed order
//! and fatal-halt discipline of the fresh-install sub-flow, the
//! mutation-free reconciliation sub-flow, re-probe-decided compose
//! success, and Amazon variant resolution.

use vstd::prelude::*;

use crate::flow::{ActionSpec, Event, FlowSpec, InstallCommand, PhaseSpec, StepError, action_of,
    amazon_variant_command, fixed_install_command, ignorable_refresh_failure, init_flow,
    is_mutating, mentions_compose, mentions_docker_group, reports_active, spec_step};
use crate::platform::Distro;
use crate::text::{contains_seq, trim_seq};

verus! {

/// The actions a run performs: each non-final phase emits its action and
/// consumes the next outcome, until the machine is done or the outcomes
/// run out.
pub open spec fn run_actions(f: FlowSpec, events: Seq<Event>) -> Seq<ActionSpec>
    decreases events.len(),
{
    if events.len() == 0 {
        Seq::empty()
    } else {
        match action_of(f.phase, f.distro) {
            None => Seq::empty(),
            Some(a) => seq![a] + run_actions(spec_step(f, events[0]), events.drop_first()),
        }
    }
}

/// The state a run ends in after consuming the given outcomes.
pub open spec fn run_final(f: FlowSpec, events: Seq<Event>) -> FlowSpec
    decreases events.len(),
{
    if events.len() == 0 || f.phase is Done {
        f
    } else {
        run_final(spec_step(f, events[0]), events.drop_first())
    }
}

/// Idempotence: on a host where every capability probe answers
/// positively — the runtime is installed, its service is active, the
/// invoking identity resolves, the user already holds the privileged
/// group, and the compose plugin is present — a whole run performs no
/// mutating action, records no error, requires no new login session, and
/// ends done with the compose finding positive. Re-running the flow on an
/// already-provisioned host is therefore pure verification.
pub proof fn lemma_idempotent_run(d: Distro, e1: Event, e2: Event, e3: Event, e4: Event, e5: Event)
    requires
        e1.success,
        reports_active(e2.output),
        e3.success,
        mentions_docker_group(e4.output),
        mentions_compose(e5.output),
    ensures
        ({
            let events = seq![e1, e2, e3, e4, e5];
            let acts = run_actions(init_flow(d), events);
            let end = run_final(init_flow(d), events);
            &&& acts == seq![
                ActionSpec::ProbeRuntimeInstalled,
                ActionSpec::ProbeServiceActive,
                ActionSpec::ResolveIdentity,
                ActionSpec::ProbeUserGroups(trim_seq(e3.output)),
                ActionSpec::ProbeComposeInstalled,
            ]
            &&& forall|i: int| 0 <= i < acts.len() ==> !is_mutating(#[trigger] acts[i])
            &&& end.phase is Done
            &&& end.errors == Seq::<StepError>::empty()
            &&& !end.relogin_required
            &&& end.compose_present
        }),
{
    let events = seq![e1, e2, e3, e4, e5];
    let f0 = init_flow(d);
    let f1 = spec_step(f0, e1);
    let f2 = spec_step(f1, e2);
    let f3 = spec_step(f2, e3);
    let f4 = spec_step(f3, e4);
    let f5 = spec_step(f4, e5);
    assert(f1.phase == PhaseSpec::ProbeService);
    assert(f2.phase == PhaseSpec::ResolveIdentityRecon);
    assert(f3.phase == PhaseSpec::ProbeGroups(trim_seq(e3.output)));
    assert(f4.phase == PhaseSpec::ProbeComposeInitial);
    assert(f5.phase == PhaseSpec::Done);
    let t1 = events.drop_first();
    let t2 = t1.drop_first();
    let t3 = t2.drop_first();
    let t4 = t3.drop_first();
    let t5 = t4.drop_first();
    assert(t1 =~= seq![e2, e3, e4, e5]);
    assert(t2 =~= seq![e3, e4, e5]);
    assert(t3 =~= seq![e4, e5]);
    assert(t4 =~= seq![e5]);
    assert(t5 =~= Seq::<Event>::empty());
    assert(run_actions(f5, t5) =~= Seq::<ActionSpec>::empty());
    assert(run_actions(f4, t4) =~= seq![ActionSpec::ProbeComposeInstalled]);
    assert(run_actions(f3, t3) =~= seq![
        ActionSpec::ProbeUserGroups(trim_seq(e3.output)),
        ActionSpec::ProbeComposeInstalled,
    ]);
    assert(run_actions(f2, t2) =~= seq![
        ActionSpec::ResolveIdentity,
        ActionSpec::ProbeUserGroups(trim_seq(e3.output)),
        ActionSpec::ProbeComposeInstalled,
    ]);
    assert(run_actions(f1, t1) =~= seq![
        ActionSpec::ProbeServiceActive,
        ActionSpec::ResolveIdentity,
        ActionSpec::ProbeUserGroups(trim_seq(e3.output)),
        ActionSpec::ProbeComposeInstalled,
    ]);
    assert(run_actions(f0, events) =~= seq![
        ActionSpec::ProbeRuntimeInstalled,
        ActionSpec::ProbeServiceActive,
        ActionSpec::ResolveIdentity,
        ActionSpec::ProbeUserGroups(trim_seq(e3.output)),
        ActionSpec::ProbeComposeInstalled,
    ]);
    assert(run_final(f5, t5) == f5);
    assert(run_final(f4, t4) == f5);
    assert(run_final(f3, t3) == f5);
    assert(run_final(f2, t2) == f5);
    assert(run_final(f1, t1) == f5);
    assert(run_final(f0, events) == f5);
    assert(f5.errors =~= Seq::<StepError>::empty());
}

/// The phases of the fresh-install sub-flow (runtime found absent).
pub open spec fn in_subflow_a(p: PhaseSpec) -> bool {
    match p {
        PhaseSpec::Refresh => true,
        PhaseSpec::ResolveVariant => true,
        PhaseSpec::Install(_) => true,
        PhaseSpec::StartServiceFresh => true,
        PhaseSpec::ResolveIdentityFresh => true,
        PhaseSpec::GrantGroupFresh(_) => true,
        PhaseSpec::RestartServiceFresh => true,
        _ => false,
    }
}

/// The position of a fresh-install phase in the fixed step order.
pub open spec fn subflow_a_index(p: PhaseSpec) -> int {
    match p {
        PhaseSpec::Refresh => 0,
        PhaseSpec::ResolveVariant => 1,
        PhaseSpec::Install(_) => 2,
        PhaseSpec::StartServiceFresh => 3,
        PhaseSpec::ResolveIdentityFresh => 4,
        PhaseSpec::GrantGroupFresh(_) => 5,
        PhaseSpec::RestartServiceFresh => 6,
        _ => 7,
    }
}

/// The phases of compose reconciliation, and the terminal phase.
pub open spec fn in_compose_or_done(p: PhaseSpec) -> bool {
    match p {
        PhaseSpec::ProbeComposeInitial => true,
        PhaseSpec::DetectArch => true,
        PhaseSpec::InstallCompose(_) => true,
        PhaseSpec::ProbeComposeFinal => true,
        PhaseSpec::Done => true,
        _ => false,
    }
}

/// The fresh-install sub-flow keeps its fixed order and halts exactly at
/// the first fatal failure: every step either advances to a later phase
/// of the fixed order with no fatal error recorded, or — on a fatal
/// outcome — jumps straight to compose reconciliation with exactly that
/// step's error appended, performing no later sub-flow step. Non-fatal
/// failures (service start, group grant, service restart) append their
/// error and still advance.
pub proof fn lemma_subflow_a_order(f: FlowSpec, e: Event)
    requires
        in_subflow_a(f.phase),
    ensures
        ({
            let g = spec_step(f, e);
            &&& g.distro == f.distro
            &&& (in_subflow_a(g.phase) || in_compose_or_done(g.phase))
            &&& in_subflow_a(g.phase) ==> subflow_a_index(g.phase) > subflow_a_index(f.phase)
            &&& match f.phase {
                PhaseSpec::Refresh => if e.success || ignorable_refresh_failure(f.distro) {
                    &&& g.phase == (if f.distro == Distro::Amzn {
                        PhaseSpec::ResolveVariant
                    } else {
                        PhaseSpec::Install(fixed_install_command(f.distro))
                    })
                    &&& g.errors == f.errors
                } else {
                    &&& g.phase == PhaseSpec::ProbeComposeInitial
                    &&& g.errors == f.errors.push(StepError::RepositoryRefreshFailed)
                },
                PhaseSpec::ResolveVariant => if !e.success {
                    &&& g.phase == PhaseSpec::ProbeComposeInitial
                    &&& g.errors == f.errors.push(StepError::AmazonReleaseProbeFailed)
                } else {
                    match amazon_variant_command(e.output) {
                        Some(c) => g.phase == PhaseSpec::Install(c) && g.errors == f.errors,
                        None => g.phase == PhaseSpec::ProbeComposeInitial && g.errors
                            == f.errors.push(StepError::UnsupportedPlatformVariant),
                    }
                },
                PhaseSpec::Install(_) => if e.success {
                    g.phase == PhaseSpec::StartServiceFresh && g.errors == f.errors
                } else {
                    g.phase == PhaseSpec::ProbeComposeInitial && g.errors == f.errors.push(
                        StepError::RuntimeInstallFailed,
                    )
                },
                PhaseSpec::StartServiceFresh => g.phase == PhaseSpec::ResolveIdentityFresh
                    && g.errors == (if e.success {
                    f.errors
                } else {
                    f.errors.push(StepError::ServiceStartFailed)
                }),
                PhaseSpec::ResolveIdentityFresh => if e.success {
                    g.phase == PhaseSpec::GrantGroupFresh(trim_seq(e.output)) && g.errors
                        == f.errors
                } else {
                    g.phase == PhaseSpec::ProbeComposeInitial && g.errors == f.errors.push(
                        StepError::IdentityResolutionFailed,
                    )
                },
                PhaseSpec::GrantGroupFresh(_) => g.phase == PhaseSpec::RestartServiceFresh
                    && g.errors == (if e.success {
                    f.errors
                } else {
                    f.errors.push(StepError::GroupGrantFailed)
                }),
                PhaseSpec::RestartServiceFresh => g.phase == PhaseSpec::ProbeComposeInitial
                    && g.errors == (if e.success {
                    f.errors
                } else {
                    f.errors.push(StepError::ServiceRestartFailed)
                }),
                _ => true,
            }
        }),
{
}

/// Once a run has left for compose reconciliation it never returns to
/// either sub-flow: no later step asks for a repository refresh, a
/// runtime install, a service start or restart, or a group grant.
pub proof fn lemma_compose_never_returns(f: FlowSpec, e: Event)
    requires
        in_compose_or_done(f.phase),
    ensures
        in_compose_or_done(spec_step(f, e).phase),
        match action_of(f.phase, f.distro) {
            Some(a) => match a {
                ActionSpec::ProbeComposeInstalled => true,
                ActionSpec::DetectArchitecture => true,
                ActionSpec::InstallComposePlugin(_) => true,
                _ => false,
            },
            None => f.phase is Done,
        },
{
}

/// Reconciliation on a healthy runtime performs no mutation: when the
/// runtime is present, its service is active, the identity resolves, and
/// the user already holds the privileged group, sub-flow B emits only the
/// three read-only lookups and reaches compose reconciliation with its
/// findings and error list untouched.
pub proof fn lemma_reconciliation_no_mutation(f: FlowSpec, e1: Event, e2: Event, e3: Event)
    requires
        f.phase == PhaseSpec::ProbeService,
        reports_active(e1.output),
        e2.success,
        mentions_docker_group(e3.output),
    ensures
        ({
            let g1 = spec_step(f, e1);
            let g2 = spec_step(g1, e2);
            let g3 = spec_step(g2, e3);
            &&& action_of(f.phase, f.distro) == Some(ActionSpec::ProbeServiceActive)
            &&& action_of(g1.phase, f.distro) == Some(ActionSpec::ResolveIdentity)
            &&& action_of(g2.phase, f.distro) == Some(
                ActionSpec::ProbeUserGroups(trim_seq(e2.output)),
            )
            &&& !is_mutating(ActionSpec::ProbeServiceActive)
            &&& !is_mutating(ActionSpec::ResolveIdentity)
            &&& !is_mutating(ActionSpec::ProbeUserGroups(trim_seq(e2.output)))
            &&& g3.phase == PhaseSpec::ProbeComposeInitial
            &&& g3.errors == f.errors
            &&& g3.relogin_required == f.relogin_required
            &&& g3.compose_present == f.compose_present
        }),
{
}

/// Compose reconciliation's success is decided by the re-probe alone:
/// whatever the install pipeline reported — including a pipeline that
/// exits cleanly but leaves a corrupt binary behind — the machine
/// re-probes, records the compose finding from that probe, and reports
/// `ComposePluginInstallFailed` exactly when the re-probe still finds the
/// plugin absent.
pub proof fn lemma_compose_decided_by_reprobe(f: FlowSpec, pipeline: Event, reprobe: Event)
    requires
        f.phase matches PhaseSpec::InstallCompose(_),
    ensures
        ({
            let g = spec_step(spec_step(f, pipeline), reprobe);
            &&& g.phase is Done
            &&& g.compose_present == (f.compose_present || mentions_compose(reprobe.output))
            &&& g.errors == (if mentions_compose(reprobe.output) {
                f.errors
            } else {
                f.errors.push(StepError::ComposePluginInstallFailed)
            })
        }),
{
}

/// A fixed measure on phases, strictly decreased by every step: the
/// number of steps a run can still take from that phase.
pub open spec fn phase_measure(p: PhaseSpec) -> int {
    match p {
        PhaseSpec::ProbeRuntime => 17,
        PhaseSpec::Refresh => 16,
        PhaseSpec::ResolveVariant => 15,
        PhaseSpec::Install(_) => 14,
        PhaseSpec::StartServiceFresh => 13,
        PhaseSpec::ResolveIdentityFresh => 12,
        PhaseSpec::GrantGroupFresh(_) => 11,
        PhaseSpec::RestartServiceFresh => 10,
        PhaseSpec::ProbeService => 9,
        PhaseSpec::StartServiceRecon => 8,
        PhaseSpec::ResolveIdentityRecon => 7,
        PhaseSpec::ProbeGroups(_) => 6,
        PhaseSpec::GrantGroupRecon(_) => 5,
        PhaseSpec::ProbeComposeInitial => 4,
        PhaseSpec::DetectArch => 3,
        PhaseSpec::InstallCompose(_) => 2,
        PhaseSpec::ProbeComposeFinal => 1,
        PhaseSpec::Done => 0,
    }
}

/// Every run terminates: whatever the outcomes, each step strictly
/// decreases the phase measure, so the machine reaches `Done` and stops
/// asking for actions after a bounded number of steps.
pub proof fn lemma_every_run_terminates(f: FlowSpec, e: Event)
    requires
        !(f.phase is Done),
    ensures
        phase_measure(spec_step(f, e).phase) < phase_measure(f.phase),
{
}

/// The report only grows: no step ever discards a recorded error, forgets
/// an owed relogin notice, or withdraws a positive compose finding, and
/// the platform never changes mid-run.
pub proof fn lemma_report_is_append_only(f: FlowSpec, e: Event)
    ensures
        ({
            let g = spec_step(f, e);
            &&& f.errors.is_prefix_of(g.errors)
            &&& f.relogin_required ==> g.relogin_required
            &&& f.compose_present ==> g.compose_present
            &&& g.distro == f.distro
        }),
{
    let g = spec_step(f, e);
    assert(f.errors =~= g.errors.subrange(0, f.errors.len() as int));
}

/// Amazon variant resolution: a release descriptor naming the 2023
/// generation selects the yum path; one naming only the legacy
/// generation selects the extras path; any other descriptor halts the
/// fresh-install sub-flow as an unsupported platform variant. The 2023
/// marker is decisive even though it contains the legacy marker as a
/// substring.
pub proof fn lemma_amazon_variant_resolution(f: FlowSpec, e: Event)
    requires
        f.phase == PhaseSpec::ResolveVariant,
        e.success,
    ensures
        ({
            let g = spec_step(f, e);
            &&& contains_seq(e.output, "Amazon Linux release 2023"@) ==> g.phase
                == PhaseSpec::Install(InstallCommand::YumDocker) && g.errors == f.errors
            &&& (!contains_seq(e.output, "Amazon Linux release 2023"@) && contains_seq(
                e.output,
                "Amazon Linux release 2"@,
            )) ==> g.phase == PhaseSpec::Install(InstallCommand::AmazonExtrasDocker) && g.errors
                == f.errors
            &&& (!contains_seq(e.output, "Amazon Linux release 2023"@) && !contains_seq(
                e.output,
                "Amazon Linux release 2"@,
            )) ==> g.phase == PhaseSpec::ProbeComposeInitial && g.errors == f.errors.push(
                StepError::UnsupportedPlatformVariant,
            )
        }),
{
}

} // verus!
