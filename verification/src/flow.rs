//! The installation planner/executor: a state machine that maps the
//! findings of idempotent capability probes to the minimal ordered
//! sequence of corrective actions, for the platform the classifier chose.
//!
//! The machine never runs a command itself. [`Flow::next_action`] names
//! the next command to run; the caller runs it and hands the outcome back
//! through [`Flow::step`]. Fatal failures inside a sub-flow skip the rest
//! of that sub-flow and fall through to compose reconciliation, which is
//! independent; reported (non-fatal) failures are accumulated and the
//! flow continues.

use vstd::prelude::*;
use vstd::string::*;

use crate::platform::Distro;
use crate::text::{contains_seq, contains_str, trim_seq, trim_str, str_equal};

verus! {

/// The outcome of one external command: whether it exited successfully,
/// and what it wrote on its standard output.
#[derive(Clone, Debug)]
pub struct CmdOutcome {
    pub success: bool,
    pub output: String,
}

/// A command outcome as the specification sees it.
pub struct Event {
    pub success: bool,
    pub output: Seq<char>,
}

impl View for CmdOutcome {
    type V = Event;

    open spec fn view(&self) -> Event {
        Event { success: self.success, output: self.output@ }
    }
}

/// The concrete runtime-install command, resolved per platform (and, for
/// the Amazon family, per release generation).
#[derive(Clone, Copy, Debug, PartialEq, Eq, Structural)]
pub enum InstallCommand {
    /// Arch: install through pacman.
    PacmanDocker,
    /// Debian family: install the distribution package.
    AptDockerIo,
    /// Fedora: install through dnf.
    DnfDocker,
    /// RHEL and Oracle Linux: add the upstream repository and install the
    /// full engine/plugin set.
    DnfDockerCe,
    /// Amazon Linux 2023 generation: install through yum.
    YumDocker,
    /// Amazon Linux 2 generation: install through the extras channel.
    AmazonExtrasDocker,
}

/// The outcome classes of the corrective steps. Fatal ones halt the rest
/// of their sub-flow; the others are reported and siblings continue.
#[derive(Clone, Copy, Debug, PartialEq, Eq, Structural)]
pub enum StepError {
    /// Package-repository refresh failed (fatal to the fresh-install
    /// sub-flow, except where the failure is ignorable by platform).
    RepositoryRefreshFailed,
    /// The Amazon release descriptor could not be read (fatal).
    AmazonReleaseProbeFailed,
    /// The Amazon release descriptor names neither supported generation
    /// (fatal).
    UnsupportedPlatformVariant,
    /// The runtime package install failed (fatal).
    RuntimeInstallFailed,
    /// Enabling/starting the runtime service failed (reported).
    ServiceStartFailed,
    /// The invoking identity could not be resolved (fatal to its
    /// sub-flow: the group grant is meaningless without it).
    IdentityResolutionFailed,
    /// Granting privileged-group membership failed (reported).
    GroupGrantFailed,
    /// Restarting the runtime service failed (reported).
    ServiceRestartFailed,
    /// The host CPU architecture could not be detected (fatal to compose
    /// reconciliation).
    ArchitectureDetectionFailed,
    /// The compose plugin is still absent after the install pipeline ran
    /// (reported; decided by the re-probe alone).
    ComposePluginInstallFailed,
}

/// The diagnostic line each reported outcome carries to the operator.
pub open spec fn spec_message(e: StepError) -> Seq<char> {
    match e {
        StepError::RepositoryRefreshFailed => "Failed to update package repositories"@,
        StepError::AmazonReleaseProbeFailed => "Failed to determine Amazon Linux version"@,
        StepError::UnsupportedPlatformVariant => "Unsupported Amazon Linux version"@,
        StepError::RuntimeInstallFailed => "Docker installation failed"@,
        StepError::ServiceStartFailed => "Failed to start Docker service"@,
        StepError::IdentityResolutionFailed => "Failed to get current username"@,
        StepError::GroupGrantFailed => "Failed to add user to docker group"@,
        StepError::ServiceRestartFailed => "Failed to restart docker service"@,
        StepError::ArchitectureDetectionFailed => "failed to detect system architecture"@,
        StepError::ComposePluginInstallFailed => "docker compose installation failed"@,
    }
}

impl StepError {
    /// A human-readable diagnostic line for the operator.
    pub fn message(&self) -> (r: String)
        ensures
            r@ == spec_message(*self),
    {
        match self {
            StepError::RepositoryRefreshFailed => String::from_str(
                "Failed to update package repositories",
            ),
            StepError::AmazonReleaseProbeFailed => String::from_str(
                "Failed to determine Amazon Linux version",
            ),
            StepError::UnsupportedPlatformVariant => String::from_str(
                "Unsupported Amazon Linux version",
            ),
            StepError::RuntimeInstallFailed => String::from_str("Docker installation failed"),
            StepError::ServiceStartFailed => String::from_str("Failed to start Docker service"),
            StepError::IdentityResolutionFailed => String::from_str(
                "Failed to get current username",
            ),
            StepError::GroupGrantFailed => String::from_str("Failed to add user to docker group"),
            StepError::ServiceRestartFailed => String::from_str(
                "Failed to restart docker service",
            ),
            StepError::ArchitectureDetectionFailed => String::from_str(
                "failed to detect system architecture",
            ),
            StepError::ComposePluginInstallFailed => String::from_str(
                "docker compose installation failed",
            ),
        }
    }
}

/// A corrective action or probe for the caller to run. Probes and
/// identity/architecture lookups are read-only; the rest mutate the host.
#[derive(Clone, Debug, PartialEq, Eq)]
pub enum Action {
    /// Look the runtime executable up on the search path.
    ProbeRuntimeInstalled,
    /// Refresh the package repositories with the platform's command.
    RefreshRepositories(Distro),
    /// Read the OS release descriptor that tells the two Amazon
    /// generations apart.
    ProbeAmazonRelease,
    /// Install the runtime package.
    InstallRuntime(InstallCommand),
    /// Enable and start the runtime service (idempotent).
    EnableService,
    /// Resolve the invoking identity.
    ResolveIdentity,
    /// Grant the named user membership of the runtime's privileged group.
    GrantGroupMembership(String),
    /// Restart the runtime service to pick up a fresh install.
    RestartService,
    /// Ask the service manager whether the runtime service is active.
    ProbeServiceActive,
    /// List the named user's group memberships.
    ProbeUserGroups(String),
    /// List the runtime's subcommands to see whether compose is present.
    ProbeComposeInstalled,
    /// Detect the host CPU architecture.
    DetectArchitecture,
    /// Download and install the compose plugin for the named
    /// architecture.
    InstallComposePlugin(String),
}

/// An action as the specification sees it.
pub enum ActionSpec {
    ProbeRuntimeInstalled,
    RefreshRepositories(Distro),
    ProbeAmazonRelease,
    InstallRuntime(InstallCommand),
    EnableService,
    ResolveIdentity,
    GrantGroupMembership(Seq<char>),
    RestartService,
    ProbeServiceActive,
    ProbeUserGroups(Seq<char>),
    ProbeComposeInstalled,
    DetectArchitecture,
    InstallComposePlugin(Seq<char>),
}

impl View for Action {
    type V = ActionSpec;

    open spec fn view(&self) -> ActionSpec {
        match self {
            Action::ProbeRuntimeInstalled => ActionSpec::ProbeRuntimeInstalled,
            Action::RefreshRepositories(d) => ActionSpec::RefreshRepositories(*d),
            Action::ProbeAmazonRelease => ActionSpec::ProbeAmazonRelease,
            Action::InstallRuntime(c) => ActionSpec::InstallRuntime(*c),
            Action::EnableService => ActionSpec::EnableService,
            Action::ResolveIdentity => ActionSpec::ResolveIdentity,
            Action::GrantGroupMembership(u) => ActionSpec::GrantGroupMembership(u@),
            Action::RestartService => ActionSpec::RestartService,
            Action::ProbeServiceActive => ActionSpec::ProbeServiceActive,
            Action::ProbeUserGroups(u) => ActionSpec::ProbeUserGroups(u@),
            Action::ProbeComposeInstalled => ActionSpec::ProbeComposeInstalled,
            Action::DetectArchitecture => ActionSpec::DetectArchitecture,
            Action::InstallComposePlugin(a) => ActionSpec::InstallComposePlugin(a@),
        }
    }
}

/// Whether an action changes host state. Probes and lookups do not.
pub open spec fn is_mutating(a: ActionSpec) -> bool {
    match a {
        ActionSpec::RefreshRepositories(_) => true,
        ActionSpec::InstallRuntime(_) => true,
        ActionSpec::EnableService => true,
        ActionSpec::GrantGroupMembership(_) => true,
        ActionSpec::RestartService => true,
        ActionSpec::InstallComposePlugin(_) => true,
        _ => false,
    }
}

/// Where the machine stands. The fresh-install sub-flow (runtime absent)
/// and the reconciliation sub-flow (runtime present) are mutually
/// exclusive; compose reconciliation follows either.
#[derive(Clone, Debug, PartialEq, Eq)]
pub enum Phase {
    /// Ask whether the runtime is installed; the answer selects the
    /// sub-flow.
    ProbeRuntime,
    /// Fresh install: refresh the package repositories.
    Refresh,
    /// Fresh install, Amazon family only: probe the release descriptor.
    ResolveVariant,
    /// Fresh install: run the resolved install command.
    Install(InstallCommand),
    /// Fresh install: enable and start the service.
    StartServiceFresh,
    /// Fresh install: resolve the invoking identity.
    ResolveIdentityFresh,
    /// Fresh install: grant the resolved user group membership.
    GrantGroupFresh(String),
    /// Fresh install: restart the service to pick up the install.
    RestartServiceFresh,
    /// Reconciliation: ask whether the service is active.
    ProbeService,
    /// Reconciliation: start the service (best effort).
    StartServiceRecon,
    /// Reconciliation: resolve the invoking identity.
    ResolveIdentityRecon,
    /// Reconciliation: ask whether the user already has the group.
    ProbeGroups(String),
    /// Reconciliation: grant the group membership.
    GrantGroupRecon(String),
    /// Compose reconciliation: the initial presence probe.
    ProbeComposeInitial,
    /// Compose reconciliation: detect the CPU architecture.
    DetectArch,
    /// Compose reconciliation: run the download/install pipeline.
    InstallCompose(String),
    /// Compose reconciliation: the decisive re-probe after the pipeline.
    ProbeComposeFinal,
    /// Nothing left to do.
    Done,
}

/// A phase as the specification sees it.
pub enum PhaseSpec {
    ProbeRuntime,
    Refresh,
    ResolveVariant,
    Install(InstallCommand),
    StartServiceFresh,
    ResolveIdentityFresh,
    GrantGroupFresh(Seq<char>),
    RestartServiceFresh,
    ProbeService,
    StartServiceRecon,
    ResolveIdentityRecon,
    ProbeGroups(Seq<char>),
    GrantGroupRecon(Seq<char>),
    ProbeComposeInitial,
    DetectArch,
    InstallCompose(Seq<char>),
    ProbeComposeFinal,
    Done,
}

impl View for Phase {
    type V = PhaseSpec;

    open spec fn view(&self) -> PhaseSpec {
        match self {
            Phase::ProbeRuntime => PhaseSpec::ProbeRuntime,
            Phase::Refresh => PhaseSpec::Refresh,
            Phase::ResolveVariant => PhaseSpec::ResolveVariant,
            Phase::Install(c) => PhaseSpec::Install(*c),
            Phase::StartServiceFresh => PhaseSpec::StartServiceFresh,
            Phase::ResolveIdentityFresh => PhaseSpec::ResolveIdentityFresh,
            Phase::GrantGroupFresh(u) => PhaseSpec::GrantGroupFresh(u@),
            Phase::RestartServiceFresh => PhaseSpec::RestartServiceFresh,
            Phase::ProbeService => PhaseSpec::ProbeService,
            Phase::StartServiceRecon => PhaseSpec::StartServiceRecon,
            Phase::ResolveIdentityRecon => PhaseSpec::ResolveIdentityRecon,
            Phase::ProbeGroups(u) => PhaseSpec::ProbeGroups(u@),
            Phase::GrantGroupRecon(u) => PhaseSpec::GrantGroupRecon(u@),
            Phase::ProbeComposeInitial => PhaseSpec::ProbeComposeInitial,
            Phase::DetectArch => PhaseSpec::DetectArch,
            Phase::InstallCompose(a) => PhaseSpec::InstallCompose(a@),
            Phase::ProbeComposeFinal => PhaseSpec::ProbeComposeFinal,
            Phase::Done => PhaseSpec::Done,
        }
    }
}

/// The whole machine state as the specification sees it.
#[verifier::ext_equal]
pub struct FlowSpec {
    pub distro: Distro,
    pub phase: PhaseSpec,
    pub errors: Seq<StepError>,
    pub relogin_required: bool,
    pub compose_present: bool,
}

/// On these platforms a failing repository refresh conventionally means
/// "updates are available" and is treated as success for flow control.
pub open spec fn ignorable_refresh_failure(d: Distro) -> bool {
    d == Distro::Fedora || d == Distro::Rhel
}

/// The fixed per-platform install command, for every platform that does
/// not need the Amazon release probe.
pub open spec fn fixed_install_command(d: Distro) -> InstallCommand {
    match d {
        Distro::Ubuntu | Distro::Debian => InstallCommand::AptDockerIo,
        Distro::Fedora => InstallCommand::DnfDocker,
        Distro::Rhel | Distro::Ol => InstallCommand::DnfDockerCe,
        Distro::Arch => InstallCommand::PacmanDocker,
        // Amazon resolves through the release probe instead; the machine
        // never asks for a fixed command there.
        Distro::Amzn => InstallCommand::YumDocker,
    }
}

/// Which install command an Amazon release descriptor selects. The 2023
/// generation is tested first: its marker contains the legacy marker as
/// a substring.
pub open spec fn amazon_variant_command(release: Seq<char>) -> Option<InstallCommand> {
    if contains_seq(release, "Amazon Linux release 2023"@) {
        Some(InstallCommand::YumDocker)
    } else if contains_seq(release, "Amazon Linux release 2"@) {
        Some(InstallCommand::AmazonExtrasDocker)
    } else {
        None
    }
}

/// The service-manager query reports the literal active state.
pub open spec fn reports_active(out: Seq<char>) -> bool {
    trim_seq(out) == "active"@
}

/// The subcommand listing mentions the compose plugin.
pub open spec fn mentions_compose(out: Seq<char>) -> bool {
    contains_seq(out, "compose"@)
}

/// The membership listing already names the privileged group.
pub open spec fn mentions_docker_group(out: Seq<char>) -> bool {
    contains_seq(out, "docker"@)
}

/// The action each phase asks the caller to run; `None` once done.
pub open spec fn action_of(p: PhaseSpec, d: Distro) -> Option<ActionSpec> {
    match p {
        PhaseSpec::ProbeRuntime => Some(ActionSpec::ProbeRuntimeInstalled),
        PhaseSpec::Refresh => Some(ActionSpec::RefreshRepositories(d)),
        PhaseSpec::ResolveVariant => Some(ActionSpec::ProbeAmazonRelease),
        PhaseSpec::Install(c) => Some(ActionSpec::InstallRuntime(c)),
        PhaseSpec::StartServiceFresh => Some(ActionSpec::EnableService),
        PhaseSpec::ResolveIdentityFresh => Some(ActionSpec::ResolveIdentity),
        PhaseSpec::GrantGroupFresh(u) => Some(ActionSpec::GrantGroupMembership(u)),
        PhaseSpec::RestartServiceFresh => Some(ActionSpec::RestartService),
        PhaseSpec::ProbeService => Some(ActionSpec::ProbeServiceActive),
        PhaseSpec::StartServiceRecon => Some(ActionSpec::EnableService),
        PhaseSpec::ResolveIdentityRecon => Some(ActionSpec::ResolveIdentity),
        PhaseSpec::ProbeGroups(u) => Some(ActionSpec::ProbeUserGroups(u)),
        PhaseSpec::GrantGroupRecon(u) => Some(ActionSpec::GrantGroupMembership(u)),
        PhaseSpec::ProbeComposeInitial => Some(ActionSpec::ProbeComposeInstalled),
        PhaseSpec::DetectArch => Some(ActionSpec::DetectArchitecture),
        PhaseSpec::InstallCompose(a) => Some(ActionSpec::InstallComposePlugin(a)),
        PhaseSpec::ProbeComposeFinal => Some(ActionSpec::ProbeComposeInstalled),
        PhaseSpec::Done => None,
    }
}

/// The machine's transition function: the whole decision logic of the
/// executor in one place. Fatal failures jump to compose reconciliation
/// (or straight to `Done` inside it); reported failures append their
/// error and continue.
pub open spec fn spec_step(f: FlowSpec, e: Event) -> FlowSpec {
    match f.phase {
        PhaseSpec::ProbeRuntime => FlowSpec {
            phase: if e.success {
                PhaseSpec::ProbeService
            } else {
                PhaseSpec::Refresh
            },
            ..f
        },
        PhaseSpec::Refresh => if e.success || ignorable_refresh_failure(f.distro) {
            FlowSpec {
                phase: if f.distro == Distro::Amzn {
                    PhaseSpec::ResolveVariant
                } else {
                    PhaseSpec::Install(fixed_install_command(f.distro))
                },
                ..f
            }
        } else {
            FlowSpec {
                phase: PhaseSpec::ProbeComposeInitial,
                errors: f.errors.push(StepError::RepositoryRefreshFailed),
                ..f
            }
        },
        PhaseSpec::ResolveVariant => if !e.success {
            FlowSpec {
                phase: PhaseSpec::ProbeComposeInitial,
                errors: f.errors.push(StepError::AmazonReleaseProbeFailed),
                ..f
            }
        } else {
            match amazon_variant_command(e.output) {
                Some(c) => FlowSpec { phase: PhaseSpec::Install(c), ..f },
                None => FlowSpec {
                    phase: PhaseSpec::ProbeComposeInitial,
                    errors: f.errors.push(StepError::UnsupportedPlatformVariant),
                    ..f
                },
            }
        },
        PhaseSpec::Install(_) => if e.success {
            FlowSpec { phase: PhaseSpec::StartServiceFresh, ..f }
        } else {
            FlowSpec {
                phase: PhaseSpec::ProbeComposeInitial,
                errors: f.errors.push(StepError::RuntimeInstallFailed),
                ..f
            }
        },
        PhaseSpec::StartServiceFresh => FlowSpec {
            phase: PhaseSpec::ResolveIdentityFresh,
            errors: if e.success {
                f.errors
            } else {
                f.errors.push(StepError::ServiceStartFailed)
            },
            ..f
        },
        PhaseSpec::ResolveIdentityFresh => if e.success {
            FlowSpec { phase: PhaseSpec::GrantGroupFresh(trim_seq(e.output)), ..f }
        } else {
            FlowSpec {
                phase: PhaseSpec::ProbeComposeInitial,
                errors: f.errors.push(StepError::IdentityResolutionFailed),
                ..f
            }
        },
        PhaseSpec::GrantGroupFresh(_) => if e.success {
            FlowSpec { phase: PhaseSpec::RestartServiceFresh, relogin_required: true, ..f }
        } else {
            FlowSpec {
                phase: PhaseSpec::RestartServiceFresh,
                errors: f.errors.push(StepError::GroupGrantFailed),
                ..f
            }
        },
        PhaseSpec::RestartServiceFresh => FlowSpec {
            phase: PhaseSpec::ProbeComposeInitial,
            errors: if e.success {
                f.errors
            } else {
                f.errors.push(StepError::ServiceRestartFailed)
            },
            ..f
        },
        PhaseSpec::ProbeService => FlowSpec {
            phase: if reports_active(e.output) {
                PhaseSpec::ResolveIdentityRecon
            } else {
                PhaseSpec::StartServiceRecon
            },
            ..f
        },
        PhaseSpec::StartServiceRecon => FlowSpec {
            phase: PhaseSpec::ResolveIdentityRecon,
            errors: if e.success {
                f.errors
            } else {
                f.errors.push(StepError::ServiceStartFailed)
            },
            ..f
        },
        PhaseSpec::ResolveIdentityRecon => if e.success {
            FlowSpec { phase: PhaseSpec::ProbeGroups(trim_seq(e.output)), ..f }
        } else {
            FlowSpec {
                phase: PhaseSpec::ProbeComposeInitial,
                errors: f.errors.push(StepError::IdentityResolutionFailed),
                ..f
            }
        },
        PhaseSpec::ProbeGroups(u) => FlowSpec {
            phase: if mentions_docker_group(e.output) {
                PhaseSpec::ProbeComposeInitial
            } else {
                PhaseSpec::GrantGroupRecon(u)
            },
            ..f
        },
        PhaseSpec::GrantGroupRecon(_) => if e.success {
            FlowSpec { phase: PhaseSpec::ProbeComposeInitial, relogin_required: true, ..f }
        } else {
            FlowSpec {
                phase: PhaseSpec::ProbeComposeInitial,
                errors: f.errors.push(StepError::GroupGrantFailed),
                ..f
            }
        },
        PhaseSpec::ProbeComposeInitial => if mentions_compose(e.output) {
            FlowSpec { phase: PhaseSpec::Done, compose_present: true, ..f }
        } else {
            FlowSpec { phase: PhaseSpec::DetectArch, ..f }
        },
        PhaseSpec::DetectArch => if e.success {
            FlowSpec { phase: PhaseSpec::InstallCompose(trim_seq(e.output)), ..f }
        } else {
            FlowSpec {
                phase: PhaseSpec::Done,
                errors: f.errors.push(StepError::ArchitectureDetectionFailed),
                ..f
            }
        },
        PhaseSpec::InstallCompose(_) => FlowSpec { phase: PhaseSpec::ProbeComposeFinal, ..f },
        PhaseSpec::ProbeComposeFinal => if mentions_compose(e.output) {
            FlowSpec { phase: PhaseSpec::Done, compose_present: true, ..f }
        } else {
            FlowSpec {
                phase: PhaseSpec::Done,
                errors: f.errors.push(StepError::ComposePluginInstallFailed),
                ..f
            }
        },
        PhaseSpec::Done => f,
    }
}

/// The machine's starting state for a classified platform.
pub open spec fn init_flow(d: Distro) -> FlowSpec {
    FlowSpec {
        distro: d,
        phase: PhaseSpec::ProbeRuntime,
        errors: Seq::empty(),
        relogin_required: false,
        compose_present: false,
    }
}

/// The provisioning state machine. Build one with [`Flow::new`], then
/// alternate [`Flow::next_action`] and [`Flow::step`] until no action is
/// left; the error list and the two findings describe the run.
pub struct Flow {
    pub distro: Distro,
    pub phase: Phase,
    /// Every step outcome worth reporting, in the order it happened.
    pub errors: Vec<StepError>,
    /// A group membership was granted: the operator needs a fresh login
    /// session before it takes effect.
    pub relogin_required: bool,
    /// The decisive compose finding: present initially, or present on the
    /// re-probe after the install pipeline.
    pub compose_present: bool,
}

impl View for Flow {
    type V = FlowSpec;

    open spec fn view(&self) -> FlowSpec {
        FlowSpec {
            distro: self.distro,
            phase: self.phase@,
            errors: self.errors@,
            relogin_required: self.relogin_required,
            compose_present: self.compose_present,
        }
    }
}

impl Flow {
    /// A fresh machine for a classified platform: no findings, no errors,
    /// starting at the runtime probe.
    pub fn new(distro: Distro) -> (f: Flow)
        ensures
            f@ == init_flow(distro),
    {
        let f = Flow {
            distro,
            phase: Phase::ProbeRuntime,
            errors: Vec::new(),
            relogin_required: false,
            compose_present: false,
        };
        proof {
            assert(f@ =~= init_flow(distro));
        }
        f
    }

    /// The next command the caller must run, or `None` when the run is
    /// complete.
    pub fn next_action(&self) -> (r: Option<Action>)
        ensures
            match r {
                Some(a) => action_of(self@.phase, self@.distro) == Some(a@),
                None => action_of(self@.phase, self@.distro) is None,
            },
    {
        match &self.phase {
            Phase::ProbeRuntime => Some(Action::ProbeRuntimeInstalled),
            Phase::Refresh => Some(Action::RefreshRepositories(self.distro)),
            Phase::ResolveVariant => Some(Action::ProbeAmazonRelease),
            Phase::Install(c) => Some(Action::InstallRuntime(*c)),
            Phase::StartServiceFresh => Some(Action::EnableService),
            Phase::ResolveIdentityFresh => Some(Action::ResolveIdentity),
            Phase::GrantGroupFresh(u) => Some(Action::GrantGroupMembership(u.clone())),
            Phase::RestartServiceFresh => Some(Action::RestartService),
            Phase::ProbeService => Some(Action::ProbeServiceActive),
            Phase::StartServiceRecon => Some(Action::EnableService),
            Phase::ResolveIdentityRecon => Some(Action::ResolveIdentity),
            Phase::ProbeGroups(u) => Some(Action::ProbeUserGroups(u.clone())),
            Phase::GrantGroupRecon(u) => Some(Action::GrantGroupMembership(u.clone())),
            Phase::ProbeComposeInitial => Some(Action::ProbeComposeInstalled),
            Phase::DetectArch => Some(Action::DetectArchitecture),
            Phase::InstallCompose(a) => Some(Action::InstallComposePlugin(a.clone())),
            Phase::ProbeComposeFinal => Some(Action::ProbeComposeInstalled),
            Phase::Done => None,
        }
    }

    /// Feeds the outcome of the action last asked for back into the
    /// machine. The whole effect is pinned by the transition function.
    pub fn step(&mut self, outcome: &CmdOutcome)
        ensures
            final(self)@ == spec_step(old(self)@, outcome@),
    {
        match &self.phase {
            Phase::ProbeRuntime => {
                self.phase = if outcome.success {
                    Phase::ProbeService
                } else {
                    Phase::Refresh
                };
            },
            Phase::Refresh => {
                let ignorable = matches!(self.distro, Distro::Fedora | Distro::Rhel);
                if outcome.success || ignorable {
                    self.phase = match self.distro {
                        Distro::Amzn => Phase::ResolveVariant,
                        Distro::Ubuntu | Distro::Debian => Phase::Install(
                            InstallCommand::AptDockerIo,
                        ),
                        Distro::Fedora => Phase::Install(InstallCommand::DnfDocker),
                        Distro::Rhel | Distro::Ol => Phase::Install(InstallCommand::DnfDockerCe),
                        Distro::Arch => Phase::Install(InstallCommand::PacmanDocker),
                    };
                } else {
                    self.errors.push(StepError::RepositoryRefreshFailed);
                    self.phase = Phase::ProbeComposeInitial;
                }
            },
            Phase::ResolveVariant => {
                if !outcome.success {
                    self.errors.push(StepError::AmazonReleaseProbeFailed);
                    self.phase = Phase::ProbeComposeInitial;
                } else if contains_str(outcome.output.as_str(), "Amazon Linux release 2023") {
                    self.phase = Phase::Install(InstallCommand::YumDocker);
                } else if contains_str(outcome.output.as_str(), "Amazon Linux release 2") {
                    self.phase = Phase::Install(InstallCommand::AmazonExtrasDocker);
                } else {
                    self.errors.push(StepError::UnsupportedPlatformVariant);
                    self.phase = Phase::ProbeComposeInitial;
                }
            },
            Phase::Install(_) => {
                if outcome.success {
                    self.phase = Phase::StartServiceFresh;
                } else {
                    self.errors.push(StepError::RuntimeInstallFailed);
                    self.phase = Phase::ProbeComposeInitial;
                }
            },
            Phase::StartServiceFresh => {
                if !outcome.success {
                    self.errors.push(StepError::ServiceStartFailed);
                }
                self.phase = Phase::ResolveIdentityFresh;
            },
            Phase::ResolveIdentityFresh => {
                if outcome.success {
                    let user = trim_str(outcome.output.as_str());
                    self.phase = Phase::GrantGroupFresh(user);
                } else {
                    self.errors.push(StepError::IdentityResolutionFailed);
                    self.phase = Phase::ProbeComposeInitial;
                }
            },
            Phase::GrantGroupFresh(_) => {
                if outcome.success {
                    self.relogin_required = true;
                } else {
                    self.errors.push(StepError::GroupGrantFailed);
                }
                self.phase = Phase::RestartServiceFresh;
            },
            Phase::RestartServiceFresh => {
                if !outcome.success {
                    self.errors.push(StepError::ServiceRestartFailed);
                }
                self.phase = Phase::ProbeComposeInitial;
            },
            Phase::ProbeService => {
                let trimmed = trim_str(outcome.output.as_str());
                let active = str_equal(trimmed.as_str(), "active");
                self.phase = if active {
                    Phase::ResolveIdentityRecon
                } else {
                    Phase::StartServiceRecon
                };
            },
            Phase::StartServiceRecon => {
                if !outcome.success {
                    self.errors.push(StepError::ServiceStartFailed);
                }
                self.phase = Phase::ResolveIdentityRecon;
            },
            Phase::ResolveIdentityRecon => {
                if outcome.success {
                    let user = trim_str(outcome.output.as_str());
                    self.phase = Phase::ProbeGroups(user);
                } else {
                    self.errors.push(StepError::IdentityResolutionFailed);
                    self.phase = Phase::ProbeComposeInitial;
                }
            },
            Phase::ProbeGroups(u) => {
                let user = u.clone();
                if contains_str(outcome.output.as_str(), "docker") {
                    self.phase = Phase::ProbeComposeInitial;
                } else {
                    self.phase = Phase::GrantGroupRecon(user);
                }
            },
            Phase::GrantGroupRecon(_) => {
                if outcome.success {
                    self.relogin_required = true;
                } else {
                    self.errors.push(StepError::GroupGrantFailed);
                }
                self.phase = Phase::ProbeComposeInitial;
            },
            Phase::ProbeComposeInitial => {
                if contains_str(outcome.output.as_str(), "compose") {
                    self.compose_present = true;
                    self.phase = Phase::Done;
                } else {
                    self.phase = Phase::DetectArch;
                }
            },
            Phase::DetectArch => {
                if outcome.success {
                    let arch = trim_str(outcome.output.as_str());
                    self.phase = Phase::InstallCompose(arch);
                } else {
                    self.errors.push(StepError::ArchitectureDetectionFailed);
                    self.phase = Phase::Done;
                }
            },
            Phase::InstallCompose(_) => {
                self.phase = Phase::ProbeComposeFinal;
            },
            Phase::ProbeComposeFinal => {
                if contains_str(outcome.output.as_str(), "compose") {
                    self.compose_present = true;
                    self.phase = Phase::Done;
                } else {
                    self.errors.push(StepError::ComposePluginInstallFailed);
                    self.phase = Phase::Done;
                }
            },
            Phase::Done => {},
        }
        proof {
            assert(self@ =~= spec_step(old(self)@, outcome@));
        }
    }

    /// The run is complete: no action is left to perform.
    pub fn is_done(&self) -> (r: bool)
        ensures
            r == (self@.phase is Done),
    {
        matches!(self.phase, Phase::Done)
    }
}

} // verus!
