//! The fixed distro-to-command tables: the exact shell text behind each
//! action the machine can ask for, pinned character for character by
//! [`spec_command`].

use vstd::prelude::*;
use vstd::string::*;

use crate::flow::{Action, ActionSpec, InstallCommand};
use crate::platform::Distro;

verus! {

/// The platform-specific repository-refresh command.
pub open spec fn spec_refresh_command(d: Distro) -> Seq<char> {
    match d {
        Distro::Arch => "sudo pacman -Syy --noconfirm"@,
        Distro::Ubuntu | Distro::Debian => "sudo apt-get update"@,
        Distro::Fedora | Distro::Rhel => "sudo dnf check-update || true"@,
        Distro::Amzn | Distro::Ol => "sudo yum update -y"@,
    }
}

/// The resolved runtime-install command.
pub open spec fn spec_install_command(c: InstallCommand) -> Seq<char> {
    match c {
        InstallCommand::PacmanDocker => "sudo pacman -S --noconfirm docker"@,
        InstallCommand::AptDockerIo => "sudo apt-get install -y docker.io"@,
        InstallCommand::DnfDocker => "sudo dnf install -y docker"@,
        InstallCommand::DnfDockerCe => "sudo dnf -y install dnf-plugins-core && sudo dnf config-manager --add-repo https://download.docker.com/linux/rhel/docker-ce.repo && sudo dnf install -y docker-ce docker-ce-cli containerd.io docker-buildx-plugin docker-compose-plugin"@,
        InstallCommand::YumDocker => "sudo yum install -y docker"@,
        InstallCommand::AmazonExtrasDocker => "sudo amazon-linux-extras install -y docker"@,
    }
}

/// The shell text for every action the machine can ask for.
pub open spec fn spec_command(a: ActionSpec) -> Seq<char> {
    match a {
        ActionSpec::ProbeRuntimeInstalled => "command -v docker"@,
        ActionSpec::RefreshRepositories(d) => spec_refresh_command(d),
        ActionSpec::ProbeAmazonRelease => "cat /etc/system-release"@,
        ActionSpec::InstallRuntime(c) => spec_install_command(c),
        ActionSpec::EnableService => "sudo systemctl enable --now docker"@,
        ActionSpec::ResolveIdentity => "whoami"@,
        ActionSpec::GrantGroupMembership(u) => "sudo usermod -aG docker "@ + u,
        ActionSpec::RestartService => "sudo systemctl restart docker"@,
        ActionSpec::ProbeServiceActive => "systemctl is-active docker"@,
        ActionSpec::ProbeUserGroups(u) => "groups "@ + u,
        ActionSpec::ProbeComposeInstalled => "docker help"@,
        ActionSpec::DetectArchitecture => "uname -m"@,
        ActionSpec::InstallComposePlugin(arch) => "sudo mkdir -p /usr/local/lib/docker/cli-plugins && sudo curl -L 'https://github.com/docker/compose/releases/latest/download/docker-compose-linux-"@
            + arch
            + "' -o /usr/local/lib/docker/cli-plugins/docker-compose && sudo chmod +x /usr/local/lib/docker/cli-plugins/docker-compose"@,
    }
}

/// Renders an action as the shell command the caller should hand to the
/// command-execution boundary.
pub fn command_text(a: &Action) -> (r: String)
    ensures
        r@ == spec_command(a@),
{
    match a {
        Action::ProbeRuntimeInstalled => String::from_str("command -v docker"),
        Action::RefreshRepositories(d) => match d {
            Distro::Arch => String::from_str("sudo pacman -Syy --noconfirm"),
            Distro::Ubuntu | Distro::Debian => String::from_str("sudo apt-get update"),
            Distro::Fedora | Distro::Rhel => String::from_str("sudo dnf check-update || true"),
            Distro::Amzn | Distro::Ol => String::from_str("sudo yum update -y"),
        },
        Action::ProbeAmazonRelease => String::from_str("cat /etc/system-release"),
        Action::InstallRuntime(c) => match c {
            InstallCommand::PacmanDocker => String::from_str("sudo pacman -S --noconfirm docker"),
            InstallCommand::AptDockerIo => String::from_str("sudo apt-get install -y docker.io"),
            InstallCommand::DnfDocker => String::from_str("sudo dnf install -y docker"),
            InstallCommand::DnfDockerCe => String::from_str(
                "sudo dnf -y install dnf-plugins-core && sudo dnf config-manager --add-repo https://download.docker.com/linux/rhel/docker-ce.repo && sudo dnf install -y docker-ce docker-ce-cli containerd.io docker-buildx-plugin docker-compose-plugin",
            ),
            InstallCommand::YumDocker => String::from_str("sudo yum install -y docker"),
            InstallCommand::AmazonExtrasDocker => String::from_str(
                "sudo amazon-linux-extras install -y docker",
            ),
        },
        Action::EnableService => String::from_str("sudo systemctl enable --now docker"),
        Action::ResolveIdentity => String::from_str("whoami"),
        Action::GrantGroupMembership(u) => String::from_str("sudo usermod -aG docker ").concat(
            u.as_str(),
        ),
        Action::RestartService => String::from_str("sudo systemctl restart docker"),
        Action::ProbeServiceActive => String::from_str("systemctl is-active docker"),
        Action::ProbeUserGroups(u) => String::from_str("groups ").concat(u.as_str()),
        Action::ProbeComposeInstalled => String::from_str("docker help"),
        Action::DetectArchitecture => String::from_str("uname -m"),
        Action::InstallComposePlugin(arch) => String::from_str(
            "sudo mkdir -p /usr/local/lib/docker/cli-plugins && sudo curl -L 'https://github.com/docker/compose/releases/latest/download/docker-compose-linux-",
        ).concat(arch.as_str()).concat(
            "' -o /usr/local/lib/docker/cli-plugins/docker-compose && sudo chmod +x /usr/local/lib/docker/cli-plugins/docker-compose",
        ),
    }
}

} // verus!
