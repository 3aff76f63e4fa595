//! `neon setup install-packages`: the shell-experience packages, their
//! per-platform install commands, the install plan and its report.
use vstd::prelude::*;
use vstd::string::*;

use crate::install::{command_line, is_command, status_answer, str_views, winget, winget_args, InstallSpec, Platform};
use crate::setup::languages::path_answer;
use crate::text::{contains_spec, join, join_spec, lowercase, lowercase_of, occurs_at, trim, trim_spec, views};

verus! {

// --- Package enum ---

/// A shell-experience package that `neon setup install-packages` can install.
#[derive(Debug, Clone, Copy, PartialEq, Eq, Structural)]
pub enum Package {
    Zsh,
    OhMyPosh,
    OhMyZsh,
    PoshGit,
    Lazygit,
    Fzf,
    Bat,
    Zoxide,
    Eza,
    GitDelta,
    Ripgrep,
    Fd,
}

/// All packages in canonical order.
pub open spec fn all_packages() -> Seq<Package> {
    seq![
        Package::Zsh,
        Package::OhMyPosh,
        Package::OhMyZsh,
        Package::PoshGit,
        Package::Lazygit,
        Package::Fzf,
        Package::Bat,
        Package::Zoxide,
        Package::Eza,
        Package::GitDelta,
        Package::Ripgrep,
        Package::Fd,
    ]
}

/// The short name of a package (used for `--skip` matching).
pub open spec fn package_name(p: Package) -> Seq<char> {
    match p {
        Package::Zsh => "zsh"@,
        Package::OhMyPosh => "oh-my-posh"@,
        Package::OhMyZsh => "oh-my-zsh"@,
        Package::PoshGit => "posh-git"@,
        Package::Lazygit => "lazygit"@,
        Package::Fzf => "fzf"@,
        Package::Bat => "bat"@,
        Package::Zoxide => "zoxide"@,
        Package::Eza => "eza"@,
        Package::GitDelta => "git-delta"@,
        Package::Ripgrep => "ripgrep"@,
        Package::Fd => "fd"@,
    }
}

/// The user-facing name of a package.
pub open spec fn package_display_name(p: Package) -> Seq<char> {
    match p {
        Package::Zsh => "zsh"@,
        Package::OhMyPosh => "Oh My Posh"@,
        Package::OhMyZsh => "Oh My Zsh"@,
        Package::PoshGit => "posh-git"@,
        Package::Lazygit => "lazygit"@,
        Package::Fzf => "fzf"@,
        Package::Bat => "bat"@,
        Package::Zoxide => "zoxide"@,
        Package::Eza => "eza"@,
        Package::GitDelta => "git-delta (delta)"@,
        Package::Ripgrep => "ripgrep (rg)"@,
        Package::Fd => "fd"@,
    }
}

impl Package {
    /// All packages in canonical order.
    pub fn all() -> (r: &'static [Package])
        ensures
            r@ == all_packages(),
    {
        &[
            Package::Zsh,
            Package::OhMyPosh,
            Package::OhMyZsh,
            Package::PoshGit,
            Package::Lazygit,
            Package::Fzf,
            Package::Bat,
            Package::Zoxide,
            Package::Eza,
            Package::GitDelta,
            Package::Ripgrep,
            Package::Fd,
        ]
    }

    /// Short name used for `--skip` matching and output lines.
    pub fn name(self) -> (r: &'static str)
        ensures
            r@ == package_name(self),
    {
        match self {
            Package::Zsh => "zsh",
            Package::OhMyPosh => "oh-my-posh",
            Package::OhMyZsh => "oh-my-zsh",
            Package::PoshGit => "posh-git",
            Package::Lazygit => "lazygit",
            Package::Fzf => "fzf",
            Package::Bat => "bat",
            Package::Zoxide => "zoxide",
            Package::Eza => "eza",
            Package::GitDelta => "git-delta",
            Package::Ripgrep => "ripgrep",
            Package::Fd => "fd",
        }
    }

    /// User-facing display name.
    pub fn display_name(self) -> (r: &'static str)
        ensures
            r@ == package_display_name(self),
    {
        match self {
            Package::Zsh => "zsh",
            Package::OhMyPosh => "Oh My Posh",
            Package::OhMyZsh => "Oh My Zsh",
            Package::PoshGit => "posh-git",
            Package::Lazygit => "lazygit",
            Package::Fzf => "fzf",
            Package::Bat => "bat",
            Package::Zoxide => "zoxide",
            Package::Eza => "eza",
            Package::GitDelta => "git-delta (delta)",
            Package::Ripgrep => "ripgrep (rg)",
            Package::Fd => "fd",
        }
    }
}

// --- Install commands ---

/// The PowerShell command that installs posh-git.
pub const POSH_GIT_COMMAND: &'static str = "Install-Module posh-git -Scope CurrentUser -Force";

/// The Oh My Posh installer script for Linux.
pub const OH_MY_POSH_LINUX_SCRIPT: &'static str = "curl -fsSL https://ohmyposh.dev/install.sh | bash -s --";

/// The Oh My Zsh unattended installer (Linux and macOS).
pub const OH_MY_ZSH_SCRIPT: &'static str = r#"sh -c "$(curl -fsSL https://raw.githubusercontent.com/ohmyzsh/ohmyzsh/master/tools/install.sh)" "" --unattended"#;

/// The lazygit release installer for Linux.
pub const LAZYGIT_LINUX_SCRIPT: &'static str = "set -euo pipefail; \
                 LAZYGIT_VERSION=$(curl -fsSL \"https://api.github.com/repos/jesseduffield/lazygit/releases/latest\" | grep -Po '\"tag_name\": \"v\\K[^\"]*') && \
                 curl -fLo /tmp/lazygit.tar.gz \"https://github.com/jesseduffield/lazygit/releases/latest/download/lazygit_${LAZYGIT_VERSION}_Linux_x86_64.tar.gz\" && \
                 tar xf /tmp/lazygit.tar.gz -C /tmp lazygit && \
                 sudo install /tmp/lazygit /usr/local/bin";

/// The zoxide installer script for Linux.
pub const ZOXIDE_LINUX_SCRIPT: &'static str = "curl -sSfL https://raw.githubusercontent.com/ajeetdsouza/zoxide/main/install.sh | sh";

/// `apt-get install -y <name>` (run through `sudo`).
pub open spec fn apt_args(name: Seq<char>) -> Seq<Seq<char>> {
    seq!["apt-get"@, "install"@, "-y"@, name]
}

/// `brew install <name>`.
pub open spec fn brew_args(name: Seq<char>) -> Seq<Seq<char>> {
    seq!["install"@, name]
}

/// The Windows install command for a package, if it applies on Windows.
pub open spec fn windows_command(p: Package) -> Option<(Seq<char>, Seq<Seq<char>>)> {
    match p {
        Package::Zsh => None,
        Package::OhMyZsh => None,
        Package::OhMyPosh => Some(("winget"@, winget_args("JanDeDobbeleer.OhMyPosh"@))),
        Package::PoshGit => Some(
            (
                "powershell"@,
                seq!["-NoProfile"@, "-NonInteractive"@, "-Command"@, POSH_GIT_COMMAND@],
            ),
        ),
        Package::Lazygit => Some(("winget"@, winget_args("JesseDuffield.lazygit"@))),
        Package::Fzf => Some(("winget"@, winget_args("junegunn.fzf"@))),
        Package::Bat => Some(("winget"@, winget_args("sharkdp.bat"@))),
        Package::Zoxide => Some(("winget"@, winget_args("ajeetdsouza.zoxide"@))),
        Package::Eza => Some(("winget"@, winget_args("eza-community.eza"@))),
        Package::GitDelta => Some(("winget"@, winget_args("dandavison.delta"@))),
        Package::Ripgrep => Some(("winget"@, winget_args("BurntSushi.ripgrep.MSVC"@))),
        Package::Fd => Some(("winget"@, winget_args("sharkdp.fd"@))),
    }
}

/// On Windows every package but zsh and Oh My Zsh has an install command:
/// posh-git through `powershell`, all others through
/// `winget install --id <id> -e --accept-source-agreements
/// --accept-package-agreements` with a non-empty package id.
pub proof fn law_windows_command_shape(p: Package)
    ensures
        windows_command(p) is None <==> (p == Package::Zsh || p == Package::OhMyZsh),
        p == Package::PoshGit ==> windows_command(p).unwrap().0 == "powershell"@,
        !(p == Package::Zsh || p == Package::OhMyZsh || p == Package::PoshGit) ==> (windows_command(
            p,
        ).unwrap().0 == "winget"@ && exists|id: Seq<char>|
            id.len() > 0 && windows_command(p).unwrap().1 == #[trigger] winget_args(id)),
{
    reveal_strlit("JanDeDobbeleer.OhMyPosh");
    reveal_strlit("JesseDuffield.lazygit");
    reveal_strlit("junegunn.fzf");
    reveal_strlit("sharkdp.bat");
    reveal_strlit("ajeetdsouza.zoxide");
    reveal_strlit("eza-community.eza");
    reveal_strlit("dandavison.delta");
    reveal_strlit("BurntSushi.ripgrep.MSVC");
    reveal_strlit("sharkdp.fd");
    let id: Seq<char> = match p {
        Package::OhMyPosh => "JanDeDobbeleer.OhMyPosh"@,
        Package::Lazygit => "JesseDuffield.lazygit"@,
        Package::Fzf => "junegunn.fzf"@,
        Package::Bat => "sharkdp.bat"@,
        Package::Zoxide => "ajeetdsouza.zoxide"@,
        Package::Eza => "eza-community.eza"@,
        Package::GitDelta => "dandavison.delta"@,
        Package::Ripgrep => "BurntSushi.ripgrep.MSVC"@,
        Package::Fd => "sharkdp.fd"@,
        _ => seq![],
    };
    if !(p == Package::Zsh || p == Package::OhMyZsh || p == Package::PoshGit) {
        assert(id.len() > 0);
        assert(windows_command(p).unwrap().1 == winget_args(id));
    }
}

/// The winget package of a package installed through winget names the tool:
/// its id holds the package's name (`delta` for git-delta, `OhMyPosh` for
/// Oh My Posh), and two different packages never share an id.
pub proof fn law_windows_package_ids(p: Package, q: Package)
    ensures
        windows_command(p) is Some && windows_command(p).unwrap().0 == "winget"@ ==> contains_spec(
            windows_command(p).unwrap().1[2],
            if p == Package::GitDelta {
                "delta"@
            } else if p == Package::OhMyPosh {
                "OhMyPosh"@
            } else {
                package_name(p)
            },
        ),
        windows_command(p) is Some && windows_command(p).unwrap().0 == "winget"@ && windows_command(
            q,
        ) is Some && windows_command(q).unwrap().0 == "winget"@ && p != q ==> windows_command(
            p,
        ).unwrap().1[2] != windows_command(q).unwrap().1[2],
{
    reveal_strlit("winget");
    reveal_strlit("powershell");
    assert("winget"@.len() == 6 && "powershell"@.len() == 10);
    reveal_strlit("JanDeDobbeleer.OhMyPosh");
    reveal_strlit("OhMyPosh");
    assert("JanDeDobbeleer.OhMyPosh"@.len() == 23 && "JanDeDobbeleer.OhMyPosh"@[0] == 'J');
    reveal_strlit("JesseDuffield.lazygit");
    reveal_strlit("lazygit");
    assert("JesseDuffield.lazygit"@.len() == 21 && "JesseDuffield.lazygit"@[0] == 'J');
    reveal_strlit("junegunn.fzf");
    reveal_strlit("fzf");
    assert("junegunn.fzf"@.len() == 12 && "junegunn.fzf"@[0] == 'j');
    reveal_strlit("sharkdp.bat");
    reveal_strlit("bat");
    assert("sharkdp.bat"@.len() == 11 && "sharkdp.bat"@[0] == 's');
    reveal_strlit("ajeetdsouza.zoxide");
    reveal_strlit("zoxide");
    assert("ajeetdsouza.zoxide"@.len() == 18 && "ajeetdsouza.zoxide"@[0] == 'a');
    reveal_strlit("eza-community.eza");
    reveal_strlit("eza");
    assert("eza-community.eza"@.len() == 17 && "eza-community.eza"@[0] == 'e');
    reveal_strlit("dandavison.delta");
    reveal_strlit("delta");
    assert("dandavison.delta"@.len() == 16 && "dandavison.delta"@[0] == 'd');
    reveal_strlit("BurntSushi.ripgrep.MSVC");
    reveal_strlit("ripgrep");
    assert("BurntSushi.ripgrep.MSVC"@.len() == 23 && "BurntSushi.ripgrep.MSVC"@[0] == 'B');
    reveal_strlit("sharkdp.fd");
    reveal_strlit("fd");
    assert("sharkdp.fd"@.len() == 10 && "sharkdp.fd"@[0] == 's');
    match p {
        Package::OhMyPosh => {
            assert("JanDeDobbeleer.OhMyPosh"@.subrange(15, 23) =~= "OhMyPosh"@);
            assert(occurs_at("JanDeDobbeleer.OhMyPosh"@, "OhMyPosh"@, 15));
        },
        Package::Lazygit => {
            assert("JesseDuffield.lazygit"@.subrange(14, 21) =~= "lazygit"@);
            assert(occurs_at("JesseDuffield.lazygit"@, "lazygit"@, 14));
        },
        Package::Fzf => {
            assert("junegunn.fzf"@.subrange(9, 12) =~= "fzf"@);
            assert(occurs_at("junegunn.fzf"@, "fzf"@, 9));
        },
        Package::Bat => {
            assert("sharkdp.bat"@.subrange(8, 11) =~= "bat"@);
            assert(occurs_at("sharkdp.bat"@, "bat"@, 8));
        },
        Package::Zoxide => {
            assert("ajeetdsouza.zoxide"@.subrange(12, 18) =~= "zoxide"@);
            assert(occurs_at("ajeetdsouza.zoxide"@, "zoxide"@, 12));
        },
        Package::Eza => {
            assert("eza-community.eza"@.subrange(0, 3) =~= "eza"@);
            assert(occurs_at("eza-community.eza"@, "eza"@, 0));
        },
        Package::GitDelta => {
            assert("dandavison.delta"@.subrange(11, 16) =~= "delta"@);
            assert(occurs_at("dandavison.delta"@, "delta"@, 11));
        },
        Package::Ripgrep => {
            assert("BurntSushi.ripgrep.MSVC"@.subrange(11, 18) =~= "ripgrep"@);
            assert(occurs_at("BurntSushi.ripgrep.MSVC"@, "ripgrep"@, 11));
        },
        Package::Fd => {
            assert("sharkdp.fd"@.subrange(8, 10) =~= "fd"@);
            assert(occurs_at("sharkdp.fd"@, "fd"@, 8));
        },
        _ => {},
    }
}

/// The Linux install command for a package, if it applies on Linux.
pub open spec fn linux_command(p: Package) -> Option<(Seq<char>, Seq<Seq<char>>)> {
    match p {
        Package::Zsh => Some(("sudo"@, apt_args("zsh"@))),
        Package::OhMyPosh => Some(("bash"@, seq!["-c"@, OH_MY_POSH_LINUX_SCRIPT@])),
        Package::OhMyZsh => Some(("sh"@, seq!["-c"@, OH_MY_ZSH_SCRIPT@])),
        Package::PoshGit => None,
        Package::Lazygit => Some(("bash"@, seq!["-c"@, LAZYGIT_LINUX_SCRIPT@])),
        Package::Fzf => Some(("sudo"@, apt_args("fzf"@))),
        Package::Bat => Some(("sudo"@, apt_args("bat"@))),
        Package::Zoxide => Some(("sh"@, seq!["-c"@, ZOXIDE_LINUX_SCRIPT@])),
        Package::Eza => Some(("sudo"@, apt_args("eza"@))),
        Package::GitDelta => Some(("sudo"@, apt_args("git-delta"@))),
        Package::Ripgrep => Some(("sudo"@, apt_args("ripgrep"@))),
        Package::Fd => Some(("sudo"@, apt_args("fd-find"@))),
    }
}

/// The Linux packages that come from apt are zsh, fzf, bat, eza, git-delta,
/// ripgrep and fd, each installed under its own name except fd, whose
/// Debian package is `fd-find`; on macOS brew installs every package it
/// handles under its own name except Oh My Posh, which comes from its tap.
pub proof fn law_package_names(p: Package)
    ensures
        (linux_command(p) is Some && linux_command(p).unwrap().0 == "sudo"@) <==> (p
            == Package::Zsh || p == Package::Fzf || p == Package::Bat || p == Package::Eza || p
            == Package::GitDelta || p == Package::Ripgrep || p == Package::Fd),
        linux_command(p) is Some && linux_command(p).unwrap().0 == "sudo"@ ==> linux_command(
            p,
        ).unwrap().1 == apt_args(
            if p == Package::Fd {
                "fd-find"@
            } else {
                package_name(p)
            },
        ),
        macos_command(p) is Some && macos_command(p).unwrap().0 == "brew"@ ==> macos_command(
            p,
        ).unwrap().1 == brew_args(
            if p == Package::OhMyPosh {
                "jandedobbeleer/oh-my-posh/oh-my-posh"@
            } else {
                package_name(p)
            },
        ),
{
    reveal_strlit("sudo");
    reveal_strlit("bash");
    reveal_strlit("sh");
    reveal_strlit("brew");
    assert("sudo"@.len() == 4 && "bash"@.len() == 4 && "sh"@.len() == 2 && "brew"@.len() == 4);
    assert("sudo"@[0] == 's' && "bash"@[0] == 'b');
}

/// The macOS install command for a package, if it applies on macOS.
pub open spec fn macos_command(p: Package) -> Option<(Seq<char>, Seq<Seq<char>>)> {
    match p {
        Package::Zsh => Some(("brew"@, brew_args("zsh"@))),
        Package::OhMyPosh => Some(("brew"@, brew_args("jandedobbeleer/oh-my-posh/oh-my-posh"@))),
        Package::OhMyZsh => Some(("sh"@, seq!["-c"@, OH_MY_ZSH_SCRIPT@])),
        Package::PoshGit => None,
        Package::Lazygit => Some(("brew"@, brew_args("lazygit"@))),
        Package::Fzf => Some(("brew"@, brew_args("fzf"@))),
        Package::Bat => Some(("brew"@, brew_args("bat"@))),
        Package::Zoxide => Some(("brew"@, brew_args("zoxide"@))),
        Package::Eza => Some(("brew"@, brew_args("eza"@))),
        Package::GitDelta => Some(("brew"@, brew_args("git-delta"@))),
        Package::Ripgrep => Some(("brew"@, brew_args("ripgrep"@))),
        Package::Fd => Some(("brew"@, brew_args("fd"@))),
    }
}

/// The install command for a package on a platform; none where the package
/// does not apply and on an unknown platform.
pub open spec fn package_command(p: Package, platform: Platform) -> Option<
    (Seq<char>, Seq<Seq<char>>),
> {
    match platform {
        Platform::Windows => windows_command(p),
        Platform::Linux => linux_command(p),
        Platform::MacOs => macos_command(p),
        Platform::Unknown => None,
    }
}

/// The result of an install-command lookup matches a command table entry.
pub open spec fn matches_command(r: Option<InstallSpec>, cmd: Option<(Seq<char>, Seq<Seq<char>>)>) -> bool {
    match cmd {
        Some(c) => r matches Some(s) && is_command(s, c),
        None => r is None,
    }
}

fn apt(name: &str) -> (r: InstallSpec)
    ensures
        r.program@ == "sudo"@,
        views(r.args@) == apt_args(name@),
{
    let r = InstallSpec::new("sudo", &["apt-get", "install", "-y", name]);
    assert(str_views(seq!["apt-get", "install", "-y", name]) =~= apt_args(name@));
    r
}

fn brew(name: &str) -> (r: InstallSpec)
    ensures
        r.program@ == "brew"@,
        views(r.args@) == brew_args(name@),
{
    let r = InstallSpec::new("brew", &["install", name]);
    assert(str_views(seq!["install", name]) =~= brew_args(name@));
    r
}

fn shell(program: &str, script: &str) -> (r: InstallSpec)
    ensures
        r.program@ == program@,
        views(r.args@) == seq!["-c"@, script@],
{
    let r = InstallSpec::new(program, &["-c", script]);
    assert(str_views(seq!["-c", script]) =~= seq!["-c"@, script@]);
    r
}

fn windows_spec(pkg: Package) -> (r: Option<InstallSpec>)
    ensures
        matches_command(r, windows_command(pkg)),
{
    match pkg {
        Package::Zsh => None,
        Package::OhMyZsh => None,
        Package::OhMyPosh => Some(winget("JanDeDobbeleer.OhMyPosh")),
        Package::PoshGit => {
            let r = InstallSpec::new(
                "powershell",
                &["-NoProfile", "-NonInteractive", "-Command", POSH_GIT_COMMAND],
            );
            assert(str_views(seq!["-NoProfile", "-NonInteractive", "-Command", POSH_GIT_COMMAND])
                =~= seq!["-NoProfile"@, "-NonInteractive"@, "-Command"@, POSH_GIT_COMMAND@]);
            Some(r)
        },
        Package::Lazygit => Some(winget("JesseDuffield.lazygit")),
        Package::Fzf => Some(winget("junegunn.fzf")),
        Package::Bat => Some(winget("sharkdp.bat")),
        Package::Zoxide => Some(winget("ajeetdsouza.zoxide")),
        Package::Eza => Some(winget("eza-community.eza")),
        Package::GitDelta => Some(winget("dandavison.delta")),
        Package::Ripgrep => Some(winget("BurntSushi.ripgrep.MSVC")),
        Package::Fd => Some(winget("sharkdp.fd")),
    }
}

fn linux_spec(pkg: Package) -> (r: Option<InstallSpec>)
    ensures
        matches_command(r, linux_command(pkg)),
{
    match pkg {
        Package::Zsh => Some(apt("zsh")),
        Package::OhMyPosh => Some(shell("bash", OH_MY_POSH_LINUX_SCRIPT)),
        Package::OhMyZsh => Some(shell("sh", OH_MY_ZSH_SCRIPT)),
        Package::PoshGit => None,
        Package::Lazygit => Some(shell("bash", LAZYGIT_LINUX_SCRIPT)),
        Package::Fzf => Some(apt("fzf")),
        Package::Bat => Some(apt("bat")),
        Package::Zoxide => Some(shell("sh", ZOXIDE_LINUX_SCRIPT)),
        Package::Eza => Some(apt("eza")),
        Package::GitDelta => Some(apt("git-delta")),
        Package::Ripgrep => Some(apt("ripgrep")),
        Package::Fd => Some(apt("fd-find")),
    }
}

fn macos_spec(pkg: Package) -> (r: Option<InstallSpec>)
    ensures
        matches_command(r, macos_command(pkg)),
{
    match pkg {
        Package::Zsh => Some(brew("zsh")),
        Package::OhMyPosh => Some(brew("jandedobbeleer/oh-my-posh/oh-my-posh")),
        Package::OhMyZsh => Some(shell("sh", OH_MY_ZSH_SCRIPT)),
        Package::PoshGit => None,
        Package::Lazygit => Some(brew("lazygit")),
        Package::Fzf => Some(brew("fzf")),
        Package::Bat => Some(brew("bat")),
        Package::Zoxide => Some(brew("zoxide")),
        Package::Eza => Some(brew("eza")),
        Package::GitDelta => Some(brew("git-delta")),
        Package::Ripgrep => Some(brew("ripgrep")),
        Package::Fd => Some(brew("fd")),
    }
}

/// Resolve the install spec for `pkg` on the given platform; none when the
/// package is not applicable there or the platform is unknown.
pub fn install_spec(pkg: Package, platform: Platform) -> (r: Option<InstallSpec>)
    ensures
        matches_command(r, package_command(pkg, platform)),
{
    match platform {
        Platform::Windows => windows_spec(pkg),
        Platform::Linux => linux_spec(pkg),
        Platform::MacOs => macos_spec(pkg),
        Platform::Unknown => None,
    }
}

// --- Plan types ---

/// The resolved action for one package.
#[derive(Debug, PartialEq, Eq)]
pub enum PkgAction {
    /// Package is already installed — no action needed.
    AlreadyInstalled,
    /// Package will be installed using the given spec.
    WillInstall(InstallSpec),
    /// Package was excluded via `--skip`.
    Skipped,
    /// Package is not applicable on this platform (e.g. zsh on Windows).
    NotApplicable,
    /// Platform is not recognised.
    PlatformUnsupported,
}

/// The plan for a single package.
#[derive(Debug)]
pub struct PkgPlan {
    pub pkg: Package,
    pub action: PkgAction,
}

/// The full plan for all packages.
#[derive(Debug)]
pub struct PackageInstallPlan {
    pub items: Vec<PkgPlan>,
}

/// The probe is consulted for a package: not skipped, on a known platform,
/// and applicable there.
pub open spec fn probed(p: Package, skip: Seq<Seq<char>>, platform: Platform) -> bool {
    !skip.contains(package_name(p)) && !(platform is Unknown) && package_command(p, platform) is Some
}

/// The action planned for a package.  Applicability is decided before the
/// install probe, so an inapplicable package is never `AlreadyInstalled`.
pub open spec fn pkg_planned(
    p: Package,
    skip: Seq<Seq<char>>,
    platform: Platform,
    installed: bool,
    action: PkgAction,
) -> bool {
    if skip.contains(package_name(p)) {
        action is Skipped
    } else if platform is Unknown {
        action is PlatformUnsupported
    } else {
        match package_command(p, platform) {
            None => action is NotApplicable,
            Some(c) => if installed {
                action is AlreadyInstalled
            } else {
                action matches PkgAction::WillInstall(s) && is_command(s, c)
            },
        }
    }
}

/// Package runs are idempotent: a package is only ever scheduled for
/// installation when it is not skipped, applies on the platform and the
/// probe found it missing.
pub proof fn law_packages_install_only_what_is_missing(
    p: Package,
    skip: Seq<Seq<char>>,
    platform: Platform,
    installed: bool,
    action: PkgAction,
)
    requires
        pkg_planned(p, skip, platform, installed, action),
    ensures
        action is WillInstall ==> !skip.contains(package_name(p)) && !installed
            && package_command(p, platform) is Some,
{
}

/// The probe answered `installed` for `p` (when it was asked at all).
pub open spec fn pkg_probe_said<F: Fn(Package, Platform) -> bool>(
    probe: F,
    p: Package,
    skip: Seq<Seq<char>>,
    platform: Platform,
    installed: bool,
) -> bool {
    probed(p, skip, platform) ==> call_ensures(probe, (p, platform), installed)
}

/// Item `i` of a plan is the `i`-th package with the action it is owed.
pub open spec fn pkg_item_ok<F: Fn(Package, Platform) -> bool>(
    item: PkgPlan,
    i: int,
    skip: Seq<Seq<char>>,
    platform: Platform,
    probe: F,
) -> bool {
    &&& item.pkg == all_packages()[i]
    &&& exists|installed: bool|
        #[trigger] pkg_probe_said(probe, item.pkg, skip, platform, installed) && pkg_planned(
            item.pkg,
            skip,
            platform,
            installed,
            item.action,
        )
}

// --- Installed probes ---

/// The command that lists the posh-git PowerShell module (exit 0 when present).
pub open spec fn posh_git_probe_args() -> Seq<Seq<char>> {
    seq![
        "-NoProfile"@,
        "-NonInteractive"@,
        "-Command"@,
        "if (Get-Module -ListAvailable -Name posh-git) { exit 0 } else { exit 1 }"@,
    ]
}

/// A PATH probe under `first`, falling back to `second` (asked only when the
/// first name is absent): distros that rename a binary (`batcat`, `fdfind`).
pub open spec fn either_on_path<F: Fn(&str) -> bool>(
    on_path: F,
    first: Seq<char>,
    second: Seq<char>,
    r: bool,
) -> bool {
    (r && path_answer(on_path, first, true)) || (path_answer(on_path, first, false) && path_answer(
        on_path,
        second,
        r,
    ))
}

/// What the installed check concludes for `pkg` from the probes' answers:
/// PATH binaries by name (`bat`/`batcat` and `fd`/`fdfind` either way),
/// Oh My Zsh as the `~/.oh-my-zsh` directory, posh-git as a PowerShell
/// module on Windows (never present elsewhere).
pub open spec fn pkg_installed_result<
    F: Fn(&str) -> bool,
    D: Fn(&str) -> bool,
    S: Fn(&str, &[&str]) -> bool,
>(pkg: Package, platform: Platform, on_path: F, home_dir_exists: D, status: S, r: bool) -> bool {
    match pkg {
        Package::Zsh => path_answer(on_path, "zsh"@, r),
        Package::OhMyPosh => path_answer(on_path, "oh-my-posh"@, r),
        Package::OhMyZsh => exists|t: &str| t@ == ".oh-my-zsh"@ && #[trigger] call_ensures(home_dir_exists, (t,), r),
        Package::PoshGit => if platform == Platform::Windows {
            status_answer(status, "powershell"@, posh_git_probe_args(), r)
        } else {
            !r
        },
        Package::Lazygit => path_answer(on_path, "lazygit"@, r),
        Package::Fzf => path_answer(on_path, "fzf"@, r),
        Package::Bat => either_on_path(on_path, "bat"@, "batcat"@, r),
        Package::Zoxide => path_answer(on_path, "zoxide"@, r),
        Package::Eza => path_answer(on_path, "eza"@, r),
        Package::GitDelta => path_answer(on_path, "delta"@, r),
        Package::Ripgrep => path_answer(on_path, "rg"@, r),
        Package::Fd => either_on_path(on_path, "fd"@, "fdfind"@, r),
    }
}

/// Asks `on_path` about `name`.
fn ask_path(on_path: &impl Fn(&str) -> bool, name: &str) -> (r: bool)
    requires
        forall|t: &str| call_requires(*on_path, (t,)),
    ensures
        path_answer(*on_path, name@, r),
{
    let r = on_path(name);
    assert(call_ensures(*on_path, (name,), r));
    r
}

/// Asks `on_path` about `first`, then about `second` when `first` is absent.
fn ask_either(on_path: &impl Fn(&str) -> bool, first: &str, second: &str) -> (r: bool)
    requires
        forall|t: &str| call_requires(*on_path, (t,)),
    ensures
        either_on_path(*on_path, first@, second@, r),
{
    if ask_path(on_path, first) {
        true
    } else {
        ask_path(on_path, second)
    }
}

/// Whether `pkg` is already installed, as the probes answer.  `on_path`
/// says whether a program is on PATH, `home_dir_exists` whether a
/// directory under the home directory exists, and `status` whether a
/// command exits successfully.
pub fn is_installed(
    pkg: Package,
    platform: Platform,
    on_path: &impl Fn(&str) -> bool,
    home_dir_exists: &impl Fn(&str) -> bool,
    status: &impl Fn(&str, &[&str]) -> bool,
) -> (r: bool)
    requires
        forall|t: &str| call_requires(*on_path, (t,)),
        forall|t: &str| call_requires(*home_dir_exists, (t,)),
        forall|p: &str, a: &[&str]| call_requires(*status, (p, a)),
    ensures
        pkg_installed_result(pkg, platform, *on_path, *home_dir_exists, *status, r),
{
    match pkg {
        Package::Zsh => ask_path(on_path, "zsh"),
        Package::OhMyPosh => ask_path(on_path, "oh-my-posh"),
        Package::OhMyZsh => {
            let r = home_dir_exists(".oh-my-zsh");
            assert(call_ensures(*home_dir_exists, (".oh-my-zsh",), r));
            r
        },
        Package::PoshGit => {
            if platform == Platform::Windows {
                let args: [&str; 4] = [
                    "-NoProfile",
                    "-NonInteractive",
                    "-Command",
                    "if (Get-Module -ListAvailable -Name posh-git) { exit 0 } else { exit 1 }",
                ];
                let a: &[&str] = &args;
                let ok = status("powershell", a);
                assert(call_ensures(*status, ("powershell", a), ok));
                assert(str_views(a@) =~= posh_git_probe_args());
                ok
            } else {
                false
            }
        },
        Package::Lazygit => ask_path(on_path, "lazygit"),
        Package::Fzf => ask_path(on_path, "fzf"),
        Package::Bat => ask_either(on_path, "bat", "batcat"),
        Package::Zoxide => ask_path(on_path, "zoxide"),
        Package::Eza => ask_path(on_path, "eza"),
        Package::GitDelta => ask_path(on_path, "delta"),
        Package::Ripgrep => ask_path(on_path, "rg"),
        Package::Fd => ask_either(on_path, "fd", "fdfind"),
    }
}

/// Whether `name` is one of `names`.
pub fn names_contain(names: &[String], name: &str) -> (r: bool)
    ensures
        r == views(names@).contains(name@),
{
    let mut i: usize = 0;
    while i < names.len()
        invariant
            i <= names.len(),
            forall|k: int| 0 <= k < i ==> names@[k]@ != name@,
        decreases names.len() - i,
    {
        if crate::text::str_eq(names[i].as_str(), name) {
            assert(views(names@)[i as int] == name@);
            return true;
        }
        i = i + 1;
    }
    assert forall|k: int| 0 <= k < views(names@).len() implies views(names@)[k] != name@ by {
        assert(views(names@)[k] == names@[k]@);
    }
    false
}

/// Build an install plan without executing anything.  `skip` holds package
/// names to exclude; `check_installed` is only asked about packages that
/// apply on the platform.
pub fn build_plan(
    skip: &[String],
    platform: Platform,
    check_installed: impl Fn(Package, Platform) -> bool,
) -> (r: PackageInstallPlan)
    requires
        forall|p: Package| call_requires(check_installed, (p, platform)),
    ensures
        r.items@.len() == 12,
        forall|i: int|
            0 <= i < 12 ==> pkg_item_ok(#[trigger] r.items@[i], i, views(skip@), platform, check_installed),
{
    let pkgs = Package::all();
    let mut items: Vec<PkgPlan> = Vec::new();
    let mut i: usize = 0;
    while i < 12
        invariant
            i <= 12,
            pkgs@ == all_packages(),
            items@.len() == i,
            forall|p: Package| call_requires(check_installed, (p, platform)),
            forall|k: int|
                0 <= k < i ==> pkg_item_ok(#[trigger] items@[k], k, views(skip@), platform, check_installed),
        decreases 12 - i,
    {
        let pkg = pkgs[i];
        let item = if names_contain(skip, pkg.name()) {
            assert(pkg_probe_said(check_installed, pkg, views(skip@), platform, false));
            PkgPlan { pkg, action: PkgAction::Skipped }
        } else if platform == Platform::Unknown {
            assert(pkg_probe_said(check_installed, pkg, views(skip@), platform, false));
            PkgPlan { pkg, action: PkgAction::PlatformUnsupported }
        } else {
            match install_spec(pkg, platform) {
                None => {
                    assert(pkg_probe_said(check_installed, pkg, views(skip@), platform, false));
                    PkgPlan { pkg, action: PkgAction::NotApplicable }
                },
                Some(spec) => {
                    let installed = check_installed(pkg, platform);
                    assert(pkg_probe_said(check_installed, pkg, views(skip@), platform, installed));
                    if installed {
                        PkgPlan { pkg, action: PkgAction::AlreadyInstalled }
                    } else {
                        PkgPlan { pkg, action: PkgAction::WillInstall(spec) }
                    }
                },
            }
        };
        items.push(item);
        i = i + 1;
    }
    PackageInstallPlan { items }
}

// --- Formatting ---

/// The report line for one planned package.
pub open spec fn pkg_line(name: Seq<char>, action: PkgAction, dry_run: bool) -> Seq<char> {
    match action {
        PkgAction::AlreadyInstalled => "  \u{2713} "@ + name + ": already installed\n"@,
        PkgAction::WillInstall(spec) => if dry_run {
            "  \u{2192} "@ + name + ": would run: "@ + command_line(spec.program@, views(spec.args@))
                + "\n"@
        } else {
            "  \u{2192} "@ + name + ": installing via "@ + spec.program@ + "...\n"@
        },
        PkgAction::Skipped => "  ~ "@ + name + ": skipped (--skip list)\n"@,
        PkgAction::NotApplicable => "  ~ "@ + name + ": not applicable on this platform\n"@,
        PkgAction::PlatformUnsupported => "  ! "@ + name + ": platform not recognised\n"@,
    }
}

/// The report lines for the planned packages, in order.
pub open spec fn pkg_lines(items: Seq<PkgPlan>, dry_run: bool) -> Seq<char>
    decreases items.len(),
{
    if items.len() == 0 {
        seq![]
    } else {
        pkg_lines(items.subrange(0, items.len() - 1), dry_run) + pkg_line(
            package_display_name(items[items.len() - 1].pkg),
            items[items.len() - 1].action,
            dry_run,
        )
    }
}

/// The report for a package install plan.
pub open spec fn packages_report(items: Seq<PkgPlan>, dry_run: bool) -> Seq<char> {
    (if dry_run {
        "Installing shell-experience packages... (dry run \u{2014} no changes will be made)\n"@
    } else {
        "Installing shell-experience packages...\n"@
    }) + pkg_lines(items, dry_run)
}

fn push_pkg_line(s: &mut String, item: &PkgPlan, dry_run: bool)
    ensures
        final(s)@ == old(s)@ + pkg_line(package_display_name(item.pkg), item.action, dry_run),
{
    let name = item.pkg.display_name();
    match &item.action {
        PkgAction::AlreadyInstalled => {
            s.append("  \u{2713} ");
            s.append(name);
            s.append(": already installed\n");
        },
        PkgAction::WillInstall(spec) => {
            if dry_run {
                s.append("  \u{2192} ");
                s.append(name);
                s.append(": would run: ");
                let d = spec.display();
                s.append(d.as_str());
                s.append("\n");
            } else {
                s.append("  \u{2192} ");
                s.append(name);
                s.append(": installing via ");
                s.append(spec.program.as_str());
                s.append("...\n");
            }
        },
        PkgAction::Skipped => {
            s.append("  ~ ");
            s.append(name);
            s.append(": skipped (--skip list)\n");
        },
        PkgAction::NotApplicable => {
            s.append("  ~ ");
            s.append(name);
            s.append(": not applicable on this platform\n");
        },
        PkgAction::PlatformUnsupported => {
            s.append("  ! ");
            s.append(name);
            s.append(": platform not recognised\n");
        },
    }
}

/// Format the plan as a human-readable string.
pub fn format_plan(plan: &PackageInstallPlan, dry_run: bool) -> (r: String)
    ensures
        r@ == packages_report(plan.items@, dry_run),
{
    let mut s = if dry_run {
        String::from_str(
            "Installing shell-experience packages... (dry run \u{2014} no changes will be made)\n",
        )
    } else {
        String::from_str("Installing shell-experience packages...\n")
    };
    let ghost head = s@;
    let mut i: usize = 0;
    assert(plan.items@.subrange(0, 0) =~= Seq::<PkgPlan>::empty());
    assert(head + pkg_lines(Seq::<PkgPlan>::empty(), dry_run) =~= head);
    while i < plan.items.len()
        invariant
            i <= plan.items.len(),
            s@ == head + pkg_lines(plan.items@.subrange(0, i as int), dry_run),
        decreases plan.items.len() - i,
    {
        push_pkg_line(&mut s, &plan.items[i], dry_run);
        proof {
            let p = plan.items@.subrange(0, i + 1);
            assert(p.subrange(0, p.len() - 1) =~= plan.items@.subrange(0, i as int));
        }
        i = i + 1;
    }
    assert(plan.items@.subrange(0, plan.items.len() as int) =~= plan.items@);
    s
}

// --- Results and summary ---

/// Result for one package after execution.
#[derive(Debug)]
pub enum PkgResult {
    AlreadyInstalled,
    Installed,
    Failed(String),
    Skipped,
    NotApplicable,
    PlatformUnsupported,
}

/// Display names of the packages whose result is `Installed`
/// (`failed == false`) or `Failed` (`failed == true`), in order.
pub open spec fn pkg_result_names(results: Seq<(Package, PkgResult)>, failed: bool) -> Seq<Seq<char>>
    decreases results.len(),
{
    if results.len() == 0 {
        seq![]
    } else {
        let rest = pkg_result_names(results.subrange(0, results.len() - 1), failed);
        let (p, r) = results[results.len() - 1];
        if (failed && r is Failed) || (!failed && r is Installed) {
            rest.push(package_display_name(p))
        } else {
            rest
        }
    }
}

/// How many packages were already installed.
pub open spec fn already_count(results: Seq<(Package, PkgResult)>) -> nat
    decreases results.len(),
{
    if results.len() == 0 {
        0
    } else {
        already_count(results.subrange(0, results.len() - 1)) + if results[results.len()
            - 1].1 is AlreadyInstalled {
            1nat
        } else {
            0nat
        }
    }
}

/// The closing summary after a package install run.
pub open spec fn pkg_summary_text(
    installed: Seq<Seq<char>>,
    failed: Seq<Seq<char>>,
    already: nat,
) -> Seq<char> {
    "\nSummary:\n"@ + if installed.len() == 0 && failed.len() == 0 {
        if already > 0 {
            "  All requested packages already installed.\n"@
        } else {
            "  Nothing to install.\n"@
        }
    } else {
        (if installed.len() > 0 {
            "  Installed:  "@ + join_spec(installed, ", "@) + "\n"@
        } else {
            seq![]
        }) + (if failed.len() > 0 {
            "  Failed:     "@ + join_spec(failed, ", "@) + "\n"@
        } else {
            seq![]
        })
    }
}

fn pkg_names_where(results: &[(Package, PkgResult)], failed: bool) -> (r: Vec<String>)
    ensures
        views(r@) == pkg_result_names(results@, failed),
{
    let mut out: Vec<String> = Vec::new();
    let mut i: usize = 0;
    while i < results.len()
        invariant
            i <= results.len(),
            views(out@) == pkg_result_names(results@.subrange(0, i as int), failed),
        decreases results.len() - i,
    {
        let hit = match &results[i].1 {
            PkgResult::Failed(_) => failed,
            PkgResult::Installed => !failed,
            _ => false,
        };
        let ghost before = out@;
        if hit {
            out.push(String::from_str(results[i].0.display_name()));
            assert(views(out@) =~= views(before).push(package_display_name(results@[i as int].0)));
        }
        proof {
            let p = results@.subrange(0, i + 1);
            assert(p.subrange(0, p.len() - 1) =~= results@.subrange(0, i as int));
        }
        i = i + 1;
    }
    assert(results@.subrange(0, results.len() as int) =~= results@);
    out
}

fn count_already(results: &[(Package, PkgResult)]) -> (r: usize)
    ensures
        r == already_count(results@),
{
    let mut n: usize = 0;
    let mut i: usize = 0;
    while i < results.len()
        invariant
            i <= results.len(),
            n == already_count(results@.subrange(0, i as int)),
            n <= i,
        decreases results.len() - i,
    {
        proof {
            let p = results@.subrange(0, i + 1);
            assert(p.subrange(0, p.len() - 1) =~= results@.subrange(0, i as int));
        }
        if let PkgResult::AlreadyInstalled = &results[i].1 {
            n = n + 1;
        }
        i = i + 1;
    }
    assert(results@.subrange(0, results.len() as int) =~= results@);
    n
}

/// `r` is what running `item` gives: actions that need no install map to
/// the matching result; an install is `Installed` when `install` answered
/// `Ok`, and `Failed` with its message when it answered `Err`.
pub open spec fn pkg_result_ok<F: Fn(Package, &InstallSpec) -> Result<(), String>>(
    install: F,
    item: PkgPlan,
    r: PkgResult,
) -> bool {
    match item.action {
        PkgAction::AlreadyInstalled => r is AlreadyInstalled,
        PkgAction::Skipped => r is Skipped,
        PkgAction::NotApplicable => r is NotApplicable,
        PkgAction::PlatformUnsupported => r is PlatformUnsupported,
        PkgAction::WillInstall(spec) => exists|out: Result<(), String>|
            #[trigger] call_ensures(install, (item.pkg, &spec), out) && match out {
                Ok(_) => r is Installed,
                Err(m) => r matches PkgResult::Failed(f) && f@ == m@,
            },
    }
}

/// Runs the plan: `install` is called once for each package to install, in
/// plan order, and every package gets its result.
pub fn execute_plan(
    plan: &PackageInstallPlan,
    install: &impl Fn(Package, &InstallSpec) -> Result<(), String>,
) -> (r: Vec<(Package, PkgResult)>)
    requires
        forall|p: Package, s: &InstallSpec| call_requires(*install, (p, s)),
    ensures
        r@.len() == plan.items@.len(),
        forall|i: int|
            0 <= i < r@.len() ==> (#[trigger] r@[i]).0 == plan.items@[i].pkg && pkg_result_ok(
                *install,
                plan.items@[i],
                r@[i].1,
            ),
{
    let mut results: Vec<(Package, PkgResult)> = Vec::new();
    let mut i: usize = 0;
    while i < plan.items.len()
        invariant
            i <= plan.items@.len(),
            results@.len() == i,
            forall|p: Package, s: &InstallSpec| call_requires(*install, (p, s)),
            forall|k: int|
                0 <= k < i ==> (#[trigger] results@[k]).0 == plan.items@[k].pkg && pkg_result_ok(
                    *install,
                    plan.items@[k],
                    results@[k].1,
                ),
        decreases plan.items@.len() - i,
    {
        let item = &plan.items[i];
        let result = match &item.action {
            PkgAction::AlreadyInstalled => PkgResult::AlreadyInstalled,
            PkgAction::Skipped => PkgResult::Skipped,
            PkgAction::NotApplicable => PkgResult::NotApplicable,
            PkgAction::PlatformUnsupported => PkgResult::PlatformUnsupported,
            PkgAction::WillInstall(spec) => {
                let out = install(item.pkg, spec);
                assert(call_ensures(*install, (item.pkg, spec), out));
                match out {
                    Ok(()) => PkgResult::Installed,
                    Err(m) => PkgResult::Failed(m),
                }
            },
        };
        results.push((item.pkg, result));
        i = i + 1;
    }
    results
}

/// The summary of the install results.
pub fn summary(results: &[(Package, PkgResult)]) -> (r: String)
    ensures
        r@ == pkg_summary_text(
            pkg_result_names(results@, false),
            pkg_result_names(results@, true),
            already_count(results@),
        ),
{
    let installed = pkg_names_where(results, false);
    let failed = pkg_names_where(results, true);
    let already = count_already(results);
    let mut s = String::from_str("\nSummary:\n");
    if installed.len() == 0 && failed.len() == 0 {
        if already > 0 {
            s.append("  All requested packages already installed.\n");
        } else {
            s.append("  Nothing to install.\n");
        }
    } else {
        let ghost head = s@;
        if installed.len() > 0 {
            s.append("  Installed:  ");
            let j = join(&installed, ", ");
            s.append(j.as_str());
            s.append("\n");
        }
        if failed.len() > 0 {
            s.append("  Failed:     ");
            let j = join(&failed, ", ");
            s.append(j.as_str());
            s.append("\n");
        }
        assert(s@ =~= head + (if installed@.len() > 0 {
            "  Installed:  "@ + join_spec(views(installed@), ", "@) + "\n"@
        } else {
            seq![]
        }) + (if failed@.len() > 0 {
            "  Failed:     "@ + join_spec(views(failed@), ", "@) + "\n"@
        } else {
            seq![]
        }));
    }
    s
}

/// Whether any package failed to install.
pub fn any_failed(results: &[(Package, PkgResult)]) -> (r: bool)
    ensures
        r == (exists|i: int| 0 <= i < results@.len() && (#[trigger] results@[i]).1 is Failed),
{
    let mut i: usize = 0;
    while i < results.len()
        invariant
            i <= results.len(),
            forall|k: int| 0 <= k < i ==> !((#[trigger] results@[k]).1 is Failed),
        decreases results.len() - i,
    {
        if let PkgResult::Failed(_) = &results[i].1 {
            assert(results@[i as int].1 is Failed);
            return true;
        }
        i = i + 1;
    }
    false
}

// --- CLI args ---

/// Arguments for `neon setup install-packages`.
#[derive(Debug)]
pub struct InstallPackagesArgs {
    /// Print what would run without executing anything.
    pub dry_run: bool,
    /// Skip specific packages by name.
    pub skip: Vec<String>,
}

/// The skip list as matched: each entry trimmed and lowercased, empty ones dropped.
pub open spec fn normalized_skip(skip: Seq<Seq<char>>) -> Seq<Seq<char>>
    decreases skip.len(),
{
    if skip.len() == 0 {
        seq![]
    } else {
        let rest = normalized_skip(skip.subrange(0, skip.len() - 1));
        let t = lowercase_of(trim_spec(skip[skip.len() - 1]));
        if t.len() == 0 {
            rest
        } else {
            rest.push(t)
        }
    }
}

/// Normalise the `--skip` list for case-insensitive matching.
pub fn normalize_skip(skip: &Vec<String>) -> (r: Vec<String>)
    ensures
        views(r@) == normalized_skip(views(skip@)),
{
    let mut out: Vec<String> = Vec::new();
    let mut i: usize = 0;
    while i < skip.len()
        invariant
            i <= skip.len(),
            views(out@) == normalized_skip(views(skip@.subrange(0, i as int))),
        decreases skip.len() - i,
    {
        let t = trim(skip[i].as_str());
        let l = lowercase(t.as_str());
        proof {
            let p = views(skip@.subrange(0, i + 1));
            assert(p.subrange(0, p.len() - 1) =~= views(skip@.subrange(0, i as int)));
            assert(p[p.len() - 1] == skip@[i as int]@);
        }
        let ghost before = out@;
        if l.unicode_len() > 0 {
            out.push(l);
            assert(views(out@) =~= views(before).push(out@[out@.len() - 1]@));
        }
        i = i + 1;
    }
    assert(skip@.subrange(0, skip.len() as int) =~= skip@);
    out
}

} // verus!
