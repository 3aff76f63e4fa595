//! `neon setup install-apps`: the core apps, their per-platform install
//! commands, the install plan and its report.
use vstd::prelude::*;
use vstd::string::*;

use crate::setup::languages::path_answer;
use crate::text::{
    contains, contains_spec, join, join_spec, lowercase, lowercase_of, split_char, split_spec,
    str_eq, trim, trim_spec, views, is_ws, lead_ws, trail_ws, trim_start_spec, lemma_first_index,
};

verus! {

// --- App enum ---

/// A core app that `neon setup install-apps` can install.
#[derive(Debug, Clone, Copy, PartialEq, Eq, Structural)]
pub enum App {
    Git,
    Gh,
    Docker,
    Obsidian,
}

/// The four core apps in canonical order.
pub open spec fn all_apps() -> Seq<App> {
    seq![App::Git, App::Gh, App::Docker, App::Obsidian]
}

/// The short name of an app.
pub open spec fn app_name(a: App) -> Seq<char> {
    match a {
        App::Git => "git"@,
        App::Gh => "gh"@,
        App::Docker => "docker"@,
        App::Obsidian => "obsidian"@,
    }
}

/// The app a short name stands for, if any.
pub open spec fn app_named(t: Seq<char>) -> Option<App> {
    if t == "git"@ {
        Some(App::Git)
    } else if t == "gh"@ {
        Some(App::Gh)
    } else if t == "docker"@ {
        Some(App::Docker)
    } else if t == "obsidian"@ {
        Some(App::Obsidian)
    } else {
        None
    }
}

/// Each app's name reads back as that app, alone or as a whole `--tool`
/// list; so the four names are distinct.
pub proof fn law_app_name_round_trip(a: App)
    ensures
        app_named(app_name(a)) == Some(a),
        parse_tokens(split_spec(app_name(a), ',')) == Ok::<Seq<App>, Seq<char>>(seq![a]),
{
    reveal_strlit("git");
    reveal_strlit("gh");
    reveal_strlit("docker");
    reveal_strlit("obsidian");
    let n = app_name(a);
    assert(n.len() > 0);
    assert(forall|k: int| 0 <= k < n.len() ==> n[k] != ',');
    lemma_first_index(n, ',', n.len() as int);
    assert(split_spec(n, ',') == seq![n]);
    assert(!is_ws(n[0]) && !is_ws(n[n.len() - 1]));
    assert(lead_ws(n) == 0);
    assert(n.subrange(0, n.len() as int) =~= n);
    assert(trim_start_spec(n) == n);
    assert(trail_ws(n) == 0);
    assert(trim_spec(n) == n);
    let toks = seq![n];
    assert(toks.subrange(0, 0) =~= Seq::<Seq<char>>::empty());
    assert(parse_tokens(toks.subrange(0, 0)) == Ok::<Seq<App>, Seq<char>>(seq![]));
    assert(seq![].push(a) =~= seq![a]);
}

/// Reads the tokens of a `--tool` list left to right: blank tokens are
/// ignored, the first unknown token is the error.
pub open spec fn parse_tokens(toks: Seq<Seq<char>>) -> Result<Seq<App>, Seq<char>>
    decreases toks.len(),
{
    if toks.len() == 0 {
        Ok(seq![])
    } else {
        match parse_tokens(toks.subrange(0, toks.len() - 1)) {
            Err(e) => Err(e),
            Ok(apps) => {
                let t = trim_spec(toks[toks.len() - 1]);
                if t.len() == 0 {
                    Ok(apps)
                } else {
                    match app_named(t) {
                        Some(a) => Ok(apps.push(a)),
                        None => Err(t),
                    }
                }
            },
        }
    }
}

/// The tokens of a `--tool` list that are not blank, trimmed, in order.
pub open spec fn kept_tokens(toks: Seq<Seq<char>>) -> Seq<Seq<char>>
    decreases toks.len(),
{
    if toks.len() == 0 {
        seq![]
    } else {
        let rest = kept_tokens(toks.subrange(0, toks.len() - 1));
        let t = trim_spec(toks[toks.len() - 1]);
        if t.len() == 0 {
            rest
        } else {
            rest.push(t)
        }
    }
}

/// A `--tool` list parses exactly when each of its non-blank tokens,
/// trimmed, names an app, and then gives those apps in order, duplicates
/// kept.
pub proof fn law_parse_tokens_closed_form(toks: Seq<Seq<char>>)
    ensures
        parse_tokens(toks) is Ok <==> forall|i: int|
            0 <= i < kept_tokens(toks).len() ==> #[trigger] app_named(kept_tokens(toks)[i]) is Some,
        parse_tokens(toks) matches Ok(apps) ==> apps.len() == kept_tokens(toks).len() && forall|
            i: int,
        |
            0 <= i < apps.len() ==> app_named(kept_tokens(toks)[i]) == Some(#[trigger] apps[i]),
    decreases toks.len(),
{
    if toks.len() > 0 {
        let init = toks.subrange(0, toks.len() - 1);
        law_parse_tokens_closed_form(init);
        let k0 = kept_tokens(init);
        let k = kept_tokens(toks);
        let t = trim_spec(toks[toks.len() - 1]);
        if t.len() > 0 {
            assert(k == k0.push(t));
            assert forall|i: int| 0 <= i < k0.len() implies k[i] == k0[i] by {}
            if parse_tokens(init) is Ok && app_named(t) is None {
                assert(app_named(k[k0.len() as int]) is None);
            }
            if !(parse_tokens(init) is Ok) {
                let j = choose|j: int| 0 <= j < k0.len() && !(#[trigger] app_named(k0[j]) is Some);
                assert(app_named(k[j]) is None);
            }
        }
    }
}

/// Why a `--tool` list was rejected.
#[derive(Debug, Clone, PartialEq, Eq)]
pub enum InstallError {
    /// A token that names no app.
    UnknownApp(String),
    /// The list names no app at all.
    EmptyList,
}

impl InstallError {
    /// The message shown to the user.
    pub fn message(&self) -> (r: String)
        ensures
            r@ == install_error_message(*self),
    {
        match self {
            InstallError::UnknownApp(t) => {
                let mut s = String::from_str("unknown app '");
                s.append(t.as_str());
                s.append("'; valid choices: git, gh, docker, obsidian");
                s
            },
            InstallError::EmptyList => String::from_str("--tool list must not be empty"),
        }
    }
}

/// The message of each rejection.
pub open spec fn install_error_message(e: InstallError) -> Seq<char> {
    match e {
        InstallError::UnknownApp(t) => "unknown app '"@ + t@ + "'; valid choices: git, gh, docker, obsidian"@,
        InstallError::EmptyList => "--tool list must not be empty"@,
    }
}

impl App {
    /// All four core apps, in canonical order.
    pub fn all() -> (r: &'static [App])
        ensures
            r@ == all_apps(),
    {
        &[App::Git, App::Gh, App::Docker, App::Obsidian]
    }

    /// Short name used in CLI `--tool` list and output lines.
    pub fn name(self) -> (r: &'static str)
        ensures
            r@ == app_name(self),
    {
        match self {
            App::Git => "git",
            App::Gh => "gh",
            App::Docker => "docker",
            App::Obsidian => "obsidian",
        }
    }

    fn from_name(t: &str) -> (r: Option<App>)
        ensures
            r == app_named(t@),
    {
        if str_eq(t, "git") {
            Some(App::Git)
        } else if str_eq(t, "gh") {
            Some(App::Gh)
        } else if str_eq(t, "docker") {
            Some(App::Docker)
        } else if str_eq(t, "obsidian") {
            Some(App::Obsidian)
        } else {
            None
        }
    }

    /// Parse a comma-separated app list string, e.g. `"git,gh"`.
    pub fn parse_list(s: &str) -> (r: Result<Vec<App>, InstallError>)
        ensures
            match parse_tokens(split_spec(s@, ',')) {
                Err(t) => r matches Err(InstallError::UnknownApp(u)) && u@ == t,
                Ok(apps) => if apps.len() == 0 {
                    r == Err::<Vec<App>, InstallError>(InstallError::EmptyList)
                } else {
                    r matches Ok(v) && v@ == apps
                },
            },
    {
        let toks = split_char(s, ',');
        let ghost tv = views(toks@);
        let mut apps: Vec<App> = Vec::new();
        let mut i: usize = 0;
        assert(tv.subrange(0, 0) =~= Seq::<Seq<char>>::empty());
        while i < toks.len()
            invariant
                i <= toks.len(),
                tv == views(toks@),
                tv == split_spec(s@, ','),
                parse_tokens(tv.subrange(0, i as int)) == Ok::<Seq<App>, Seq<char>>(apps@),
            decreases toks.len() - i,
        {
            let t = trim(toks[i].as_str());
            proof {
                assert(tv.subrange(0, i + 1).subrange(0, i as int) =~= tv.subrange(0, i as int));
                assert(tv.subrange(0, i + 1)[i as int] == toks@[i as int]@);
            }
            if t.unicode_len() > 0 {
                match App::from_name(t.as_str()) {
                    Some(a) => apps.push(a),
                    None => {
                        proof {
                            lemma_parse_tokens_err_stays(tv, i as int + 1);
                        }
                        return Err(InstallError::UnknownApp(t));
                    },
                }
            }
            i = i + 1;
        }
        assert(tv.subrange(0, toks.len() as int) =~= tv);
        if apps.len() == 0 {
            return Err(InstallError::EmptyList);
        }
        Ok(apps)
    }
}

/// Once a prefix of the tokens holds an unknown name, the whole list fails with it.
proof fn lemma_parse_tokens_err_stays(toks: Seq<Seq<char>>, i: int)
    requires
        0 <= i <= toks.len(),
        parse_tokens(toks.subrange(0, i)) is Err,
    ensures
        parse_tokens(toks) == parse_tokens(toks.subrange(0, i)),
    decreases toks.len() - i,
{
    if i < toks.len() {
        assert(toks.subrange(0, i + 1).subrange(0, i) =~= toks.subrange(0, i));
        lemma_parse_tokens_err_stays(toks, i + 1);
    } else {
        assert(toks.subrange(0, i) =~= toks);
    }
}

// --- Platform ---

/// The platform the installer runs on.
#[derive(Debug, Clone, Copy, PartialEq, Eq, Structural)]
pub enum Platform {
    Windows,
    Linux,
    MacOs,
    Unknown,
}

/// The platform for a value of `std::env::consts::OS`.
pub open spec fn platform_of(os: Seq<char>) -> Platform {
    if os == "windows"@ {
        Platform::Windows
    } else if os == "linux"@ {
        Platform::Linux
    } else if os == "macos"@ {
        Platform::MacOs
    } else {
        Platform::Unknown
    }
}

/// Maps `std::env::consts::OS` to a platform.
pub fn platform_from_os(os: &str) -> (r: Platform)
    ensures
        r == platform_of(os@),
{
    if str_eq(os, "windows") {
        Platform::Windows
    } else if str_eq(os, "linux") {
        Platform::Linux
    } else if str_eq(os, "macos") {
        Platform::MacOs
    } else {
        Platform::Unknown
    }
}

// --- Install spec ---

/// A single install command (program + args).
#[derive(Debug, Clone, PartialEq, Eq)]
pub struct InstallSpec {
    pub program: String,
    pub args: Vec<String>,
}

/// The views of a slice of string slices.
pub open spec fn str_views(a: Seq<&str>) -> Seq<Seq<char>> {
    a.map_values(|x: &str| x@)
}

/// `program arg1 arg2 …`
pub open spec fn command_line(program: Seq<char>, args: Seq<Seq<char>>) -> Seq<char> {
    if args.len() == 0 {
        program
    } else {
        program + " "@ + join_spec(args, " "@)
    }
}

/// The owned copies of a slice of string slices.
pub fn owned_args(args: &[&str]) -> (r: Vec<String>)
    ensures
        views(r@) == str_views(args@),
{
    let mut out: Vec<String> = Vec::new();
    let mut i: usize = 0;
    while i < args.len()
        invariant
            i <= args.len(),
            views(out@) == str_views(args@.subrange(0, i as int)),
        decreases args.len() - i,
    {
        let ghost before = out@;
        out.push(String::from_str(args[i]));
        proof {
            assert(views(out@) =~= views(before).push(args@[i as int]@));
            assert(str_views(args@.subrange(0, i + 1)) =~= str_views(
                args@.subrange(0, i as int),
            ).push(args@[i as int]@));
        }
        i = i + 1;
    }
    assert(args@.subrange(0, args.len() as int) =~= args@);
    out
}

/// The display form of a program and its arguments.
pub fn command_display(program: &String, args: &Vec<String>) -> (r: String)
    ensures
        r@ == command_line(program@, views(args@)),
{
    if args.len() == 0 {
        program.clone()
    } else {
        let mut s = program.clone();
        s.append(" ");
        let rest = join(args, " ");
        s.append(rest.as_str());
        s
    }
}

impl InstallSpec {
    /// An install command from a program and its arguments.
    pub fn new(program: &str, args: &[&str]) -> (r: Self)
        ensures
            r.program@ == program@,
            views(r.args@) == str_views(args@),
    {
        InstallSpec { program: String::from_str(program), args: owned_args(args) }
    }

    /// Human-readable representation: `program arg1 arg2 …`
    pub fn display(&self) -> (r: String)
        ensures
            r@ == command_line(self.program@, views(self.args@)),
    {
        command_display(&self.program, &self.args)
    }
}

/// `winget install --id <id> -e` with both agreements accepted.
pub open spec fn winget_args(id: Seq<char>) -> Seq<Seq<char>> {
    seq![
        "install"@,
        "--id"@,
        id,
        "-e"@,
        "--accept-source-agreements"@,
        "--accept-package-agreements"@,
    ]
}

/// The `winget` install command for a package id.
pub fn winget(id: &str) -> (r: InstallSpec)
    ensures
        r.program@ == "winget"@,
        views(r.args@) == winget_args(id@),
{
    let r = InstallSpec::new(
        "winget",
        &["install", "--id", id, "-e", "--accept-source-agreements", "--accept-package-agreements"],
    );
    proof {
        assert(str_views(
            seq![
                "install",
                "--id",
                id,
                "-e",
                "--accept-source-agreements",
                "--accept-package-agreements",
            ],
        ) =~= winget_args(id@));
    }
    r
}

/// The shell script that installs the GitHub CLI on Debian-family Linux.
pub const GH_LINUX_SCRIPT: &'static str = "type -p curl >/dev/null || (sudo apt-get update && sudo apt-get install curl -y) && \
                     curl -fsSL https://cli.github.com/packages/githubcli-archive-keyring.gpg | \
                     sudo dd of=/usr/share/keyrings/githubcli-archive-keyring.gpg && \
                     sudo chmod go+r /usr/share/keyrings/githubcli-archive-keyring.gpg && \
                     echo \"deb [arch=$(dpkg --print-architecture) signed-by=/usr/share/keyrings/githubcli-archive-keyring.gpg] https://cli.github.com/packages stable main\" | \
                     sudo tee /etc/apt/sources.list.d/github-cli.list > /dev/null && \
                     sudo apt-get update && sudo apt-get install gh -y";

/// The shell script that installs Docker on Linux.
pub const DOCKER_LINUX_SCRIPT: &'static str = "curl -fsSL https://get.docker.com | sudo sh";

/// The shell script that installs Obsidian on Linux through snap or flatpak.
pub const OBSIDIAN_LINUX_SCRIPT: &'static str = "if command -v snap >/dev/null 2>&1; then \
                     sudo snap install obsidian --classic; \
                     elif command -v flatpak >/dev/null 2>&1; then \
                     flatpak install -y flathub md.obsidian.Obsidian; \
                     else echo 'error: neither snap nor flatpak found' >&2; exit 1; fi";

/// The install command (program, arguments) for `app` on `platform`;
/// none on macOS (not yet supported) and on an unknown platform.
pub open spec fn app_command(app: App, platform: Platform) -> Option<(Seq<char>, Seq<Seq<char>>)> {
    match platform {
        Platform::Windows => Some(
            match app {
                App::Git => ("winget"@, winget_args("Git.Git"@)),
                App::Gh => ("winget"@, winget_args("GitHub.cli"@)),
                App::Docker => ("winget"@, winget_args("Docker.DockerDesktop"@)),
                App::Obsidian => ("winget"@, winget_args("Obsidian.Obsidian"@)),
            },
        ),
        Platform::Linux => Some(
            match app {
                App::Git => ("sudo"@, seq!["apt-get"@, "install"@, "-y"@, "git"@]),
                App::Gh => ("bash"@, seq!["-c"@, GH_LINUX_SCRIPT@]),
                App::Docker => ("bash"@, seq!["-c"@, DOCKER_LINUX_SCRIPT@]),
                App::Obsidian => ("bash"@, seq!["-c"@, OBSIDIAN_LINUX_SCRIPT@]),
            },
        ),
        Platform::MacOs | Platform::Unknown => None,
    }
}

/// On Windows each app installs through `winget install --id <id> -e ...`
/// with its own winget package (Git.Git for git, GitHub.cli for gh,
/// Docker.DockerDesktop for docker, Obsidian.Obsidian for obsidian), so two
/// different apps never install the same package.
pub proof fn law_windows_app_packages(a: App, b: App)
    ensures
        app_command(a, Platform::Windows) is Some,
        app_command(a, Platform::Windows).unwrap().0 == "winget"@,
        app_command(a, Platform::Windows).unwrap().1 == winget_args(
            app_command(a, Platform::Windows).unwrap().1[2],
        ),
        app_command(App::Git, Platform::Windows).unwrap().1[2] == "Git.Git"@,
        app_command(App::Gh, Platform::Windows).unwrap().1[2] == "GitHub.cli"@,
        app_command(App::Docker, Platform::Windows).unwrap().1[2] == "Docker.DockerDesktop"@,
        app_command(App::Obsidian, Platform::Windows).unwrap().1[2] == "Obsidian.Obsidian"@,
        a != b ==> app_command(a, Platform::Windows).unwrap().1[2] != app_command(
            b,
            Platform::Windows,
        ).unwrap().1[2],
{
    reveal_strlit("Git.Git");
    reveal_strlit("GitHub.cli");
    reveal_strlit("Docker.DockerDesktop");
    reveal_strlit("Obsidian.Obsidian");
    assert("Git.Git"@.len() == 7);
    assert("GitHub.cli"@.len() == 10);
    assert("Docker.DockerDesktop"@.len() == 20);
    assert("Obsidian.Obsidian"@.len() == 17);
}

/// `spec` is the command `cmd`.
pub open spec fn is_command(spec: InstallSpec, cmd: (Seq<char>, Seq<Seq<char>>)) -> bool {
    spec.program@ == cmd.0 && views(spec.args@) == cmd.1
}

/// The install command for `app` on `platform`, if the platform is supported.
pub fn install_spec(app: App, platform: Platform) -> (r: Option<InstallSpec>)
    ensures
        match app_command(app, platform) {
            Some(cmd) => r matches Some(s) && is_command(s, cmd),
            None => r is None,
        },
{
    match platform {
        Platform::Windows => Some(
            match app {
                App::Git => winget("Git.Git"),
                App::Gh => winget("GitHub.cli"),
                App::Docker => winget("Docker.DockerDesktop"),
                App::Obsidian => winget("Obsidian.Obsidian"),
            },
        ),
        Platform::Linux => {
            let s = match app {
                App::Git => InstallSpec::new("sudo", &["apt-get", "install", "-y", "git"]),
                App::Gh => InstallSpec::new("bash", &["-c", GH_LINUX_SCRIPT]),
                App::Docker => InstallSpec::new("bash", &["-c", DOCKER_LINUX_SCRIPT]),
                App::Obsidian => InstallSpec::new("bash", &["-c", OBSIDIAN_LINUX_SCRIPT]),
            };
            proof {
                assert(str_views(seq!["apt-get", "install", "-y", "git"]) =~= seq![
                    "apt-get"@,
                    "install"@,
                    "-y"@,
                    "git"@,
                ]);
                assert(str_views(seq!["-c", GH_LINUX_SCRIPT]) =~= seq!["-c"@, GH_LINUX_SCRIPT@]);
                assert(str_views(seq!["-c", DOCKER_LINUX_SCRIPT]) =~= seq![
                    "-c"@,
                    DOCKER_LINUX_SCRIPT@,
                ]);
                assert(str_views(seq!["-c", OBSIDIAN_LINUX_SCRIPT]) =~= seq![
                    "-c"@,
                    OBSIDIAN_LINUX_SCRIPT@,
                ]);
            }
            Some(s)
        },
        Platform::MacOs | Platform::Unknown => None,
    }
}

// --- Plan types ---

/// The resolved action for one app.
#[derive(Debug, PartialEq, Eq)]
pub enum AppAction {
    /// App is already installed — no action needed.
    AlreadyInstalled,
    /// App will be installed using the given spec.
    WillInstall(InstallSpec),
    /// App was not requested in `--tool`.
    Skipped,
    /// Platform not yet supported for this app.
    PlatformUnsupported,
}

/// The plan for a single app.
#[derive(Debug)]
pub struct AppPlan {
    pub app: App,
    pub action: AppAction,
}

/// The full plan for all four apps.
#[derive(Debug)]
pub struct InstallPlan {
    pub items: Vec<AppPlan>,
}

/// The action planned for `app`, given whether it was requested and whether
/// the probe found it installed.
pub open spec fn planned_action(
    app: App,
    requested: Seq<App>,
    platform: Platform,
    installed: bool,
    action: AppAction,
) -> bool {
    if !requested.contains(app) {
        action is Skipped
    } else if installed {
        action is AlreadyInstalled
    } else {
        match app_command(app, platform) {
            Some(cmd) => action matches AppAction::WillInstall(s) && is_command(s, cmd),
            None => action is PlatformUnsupported,
        }
    }
}

/// Install runs are idempotent: an app is only ever scheduled for
/// installation when it was requested and the probe found it missing, so a
/// second run after a successful one installs nothing.
pub proof fn law_install_only_what_is_missing(
    app: App,
    requested: Seq<App>,
    platform: Platform,
    installed: bool,
    action: AppAction,
)
    requires
        planned_action(app, requested, platform, installed, action),
    ensures
        action is WillInstall ==> requested.contains(app) && !installed,
{
}

/// The probe answered `installed` for `app` (when it was asked at all).
pub open spec fn probe_said<F: Fn(App, Platform) -> bool>(
    probe: F,
    app: App,
    platform: Platform,
    requested: Seq<App>,
    installed: bool,
) -> bool {
    requested.contains(app) ==> call_ensures(probe, (app, platform), installed)
}

/// Item `i` of a plan is the `i`-th core app with the action it is owed.
pub open spec fn plan_item_ok<F: Fn(App, Platform) -> bool>(
    item: AppPlan,
    i: int,
    requested: Seq<App>,
    platform: Platform,
    probe: F,
) -> bool {
    &&& item.app == all_apps()[i]
    &&& exists|installed: bool|
        #[trigger] probe_said(probe, item.app, platform, requested, installed) && planned_action(
            item.app,
            requested,
            platform,
            installed,
            item.action,
        )
}

fn slice_contains(requested: &[App], app: App) -> (r: bool)
    ensures
        r == requested@.contains(app),
{
    let mut i: usize = 0;
    while i < requested.len()
        invariant
            i <= requested.len(),
            forall|k: int| 0 <= k < i ==> requested@[k] != app,
        decreases requested.len() - i,
    {
        if requested[i] == app {
            assert(requested@[i as int] == app);
            return true;
        }
        i = i + 1;
    }
    false
}

/// Build a plan without executing anything.  `check_installed` is only asked
/// about requested apps.
pub fn build_plan(
    requested: &[App],
    platform: Platform,
    check_installed: impl Fn(App, Platform) -> bool,
) -> (r: InstallPlan)
    requires
        forall|a: App| call_requires(check_installed, (a, platform)),
    ensures
        r.items@.len() == 4,
        forall|i: int|
            0 <= i < 4 ==> plan_item_ok(#[trigger] r.items@[i], i, requested@, platform, check_installed),
{
    let apps = App::all();
    let mut items: Vec<AppPlan> = Vec::new();
    let mut i: usize = 0;
    while i < 4
        invariant
            i <= 4,
            apps@ == all_apps(),
            items@.len() == i,
            forall|a: App| call_requires(check_installed, (a, platform)),
            forall|k: int|
                0 <= k < i ==> plan_item_ok(#[trigger] items@[k], k, requested@, platform, check_installed),
        decreases 4 - i,
    {
        let app = apps[i];
        let item = if !slice_contains(requested, app) {
            assert(probe_said(check_installed, app, platform, requested@, false));
            AppPlan { app, action: AppAction::Skipped }
        } else {
            let installed = check_installed(app, platform);
            assert(probe_said(check_installed, app, platform, requested@, installed));
            if installed {
                AppPlan { app, action: AppAction::AlreadyInstalled }
            } else {
                let action = match install_spec(app, platform) {
                    Some(spec) => AppAction::WillInstall(spec),
                    None => AppAction::PlatformUnsupported,
                };
                AppPlan { app, action }
            }
        };
        items.push(item);
        i = i + 1;
    }
    InstallPlan { items }
}

// --- Installed check ---

/// `status` answered `ok` for `<program> <args>` (exit status success).
pub open spec fn status_answer<S: Fn(&str, &[&str]) -> bool>(
    status: S,
    program: Seq<char>,
    args: Seq<Seq<char>>,
    ok: bool,
) -> bool {
    exists|p: &str, a: &[&str]|
        p@ == program && str_views(a@) == args && #[trigger] call_ensures(status, (p, a), ok)
}

/// `output` answered `out` for `<program> <args>` (its stdout, or nothing
/// when it could not run).
pub open spec fn output_answer<O: Fn(&str, &[&str]) -> Option<String>>(
    output: O,
    program: Seq<char>,
    args: Seq<Seq<char>>,
    out: Option<String>,
) -> bool {
    exists|p: &str, a: &[&str]|
        p@ == program && str_views(a@) == args && #[trigger] call_ensures(output, (p, a), out)
}

/// `winget list` output lists Obsidian (its name appears, in any case).
pub open spec fn winget_lists_obsidian_spec(text: Seq<char>) -> bool {
    contains_spec(lowercase_of(text), "obsidian"@)
}

/// Whether already lowercased `winget list` output names Obsidian.
pub fn lowered_lists_obsidian(lower: &str) -> (r: bool)
    ensures
        r == contains_spec(lower@, "obsidian"@),
{
    contains(lower, "obsidian")
}

/// Whether `winget list --id Obsidian.Obsidian` output shows Obsidian
/// installed: winget prints a header row plus one row per match.
pub fn winget_lists_obsidian(text: &str) -> (r: bool)
    ensures
        r == winget_lists_obsidian_spec(text@),
{
    let lower = lowercase(text);
    lowered_lists_obsidian(lower.as_str())
}

/// What the installed check concludes for `app`, given the probes'
/// answers: git, gh and docker by PATH; Obsidian through winget on Windows,
/// snap then flatpak on Linux (flatpak asked only when snap says no), never
/// elsewhere.
pub open spec fn installed_result<
    F: Fn(&str) -> bool,
    S: Fn(&str, &[&str]) -> bool,
    O: Fn(&str, &[&str]) -> Option<String>,
>(app: App, platform: Platform, on_path: F, status: S, output: O, r: bool) -> bool {
    match app {
        App::Git => path_answer(on_path, "git"@, r),
        App::Gh => path_answer(on_path, "gh"@, r),
        App::Docker => path_answer(on_path, "docker"@, r),
        App::Obsidian => match platform {
            Platform::Windows => exists|out: Option<String>|
                output_answer(output, "winget"@, seq!["list"@, "--id"@, "Obsidian.Obsidian"@], out)
                    && r == (out matches Some(t) && winget_lists_obsidian_spec(t@)),
            Platform::Linux => (r && status_answer(status, "snap"@, seq!["list"@, "obsidian"@], true))
                || (status_answer(status, "snap"@, seq!["list"@, "obsidian"@], false)
                && status_answer(
                status,
                "flatpak"@,
                seq!["info"@, "md.obsidian.Obsidian"@],
                r,
            )),
            _ => !r,
        },
    }
}

/// Asks `status` about `<program> <args>`.
fn ask_status(status: &impl Fn(&str, &[&str]) -> bool, program: &str, args: &[&str]) -> (ok: bool)
    requires
        forall|p: &str, a: &[&str]| call_requires(*status, (p, a)),
    ensures
        status_answer(*status, program@, str_views(args@), ok),
{
    let ok = status(program, args);
    assert(call_ensures(*status, (program, args), ok));
    ok
}

/// Whether `app` is already installed, as the probes answer.
pub fn is_installed(
    app: App,
    platform: Platform,
    on_path: &impl Fn(&str) -> bool,
    status: &impl Fn(&str, &[&str]) -> bool,
    output: &impl Fn(&str, &[&str]) -> Option<String>,
) -> (r: bool)
    requires
        forall|t: &str| call_requires(*on_path, (t,)),
        forall|p: &str, a: &[&str]| call_requires(*status, (p, a)),
        forall|p: &str, a: &[&str]| call_requires(*output, (p, a)),
    ensures
        installed_result(app, platform, *on_path, *status, *output, r),
{
    match app {
        App::Git => {
            let r = on_path("git");
            assert(call_ensures(*on_path, ("git",), r));
            r
        },
        App::Gh => {
            let r = on_path("gh");
            assert(call_ensures(*on_path, ("gh",), r));
            r
        },
        App::Docker => {
            let r = on_path("docker");
            assert(call_ensures(*on_path, ("docker",), r));
            r
        },
        App::Obsidian => match platform {
            Platform::Windows => {
                let args: &[&str] = &["list", "--id", "Obsidian.Obsidian"];
                assert(str_views(args@) =~= seq!["list"@, "--id"@, "Obsidian.Obsidian"@]);
                let out = output("winget", args);
                assert(call_ensures(*output, ("winget", args), out));
                assert(output_answer(
                    *output,
                    "winget"@,
                    seq!["list"@, "--id"@, "Obsidian.Obsidian"@],
                    out,
                ));
                match out {
                    Some(t) => winget_lists_obsidian(t.as_str()),
                    None => false,
                }
            },
            Platform::Linux => {
                let snap_args: &[&str] = &["list", "obsidian"];
                assert(str_views(snap_args@) =~= seq!["list"@, "obsidian"@]);
                let snap_ok = ask_status(status, "snap", snap_args);
                if snap_ok {
                    return true;
                }
                let flat_args: &[&str] = &["info", "md.obsidian.Obsidian"];
                assert(str_views(flat_args@) =~= seq!["info"@, "md.obsidian.Obsidian"@]);
                ask_status(status, "flatpak", flat_args)
            },
            _ => false,
        },
    }
}

// --- Formatting ---

/// The report line for one planned app.
pub open spec fn action_line(name: Seq<char>, action: AppAction, dry_run: bool) -> Seq<char> {
    match action {
        AppAction::AlreadyInstalled => "  \u{2713} "@ + name + ": already installed\n"@,
        AppAction::WillInstall(spec) => if dry_run {
            "  \u{2192} "@ + name + ": would run: "@ + command_line(spec.program@, views(spec.args@))
                + "\n"@
        } else {
            "  \u{2192} "@ + name + ": installing via "@ + spec.program@ + "...\n"@
        },
        AppAction::Skipped => "  ~ "@ + name + ": skipped (not in --tool list)\n"@,
        AppAction::PlatformUnsupported => "  ! "@ + name + ": not yet supported on this platform\n"@,
    }
}

/// The report lines for the planned apps, in order.
pub open spec fn plan_lines(items: Seq<AppPlan>, dry_run: bool) -> Seq<char>
    decreases items.len(),
{
    if items.len() == 0 {
        seq![]
    } else {
        plan_lines(items.subrange(0, items.len() - 1), dry_run) + action_line(
            app_name(items[items.len() - 1].app),
            items[items.len() - 1].action,
            dry_run,
        )
    }
}

/// The report for an install plan.
pub open spec fn install_report(items: Seq<AppPlan>, dry_run: bool) -> Seq<char> {
    (if dry_run {
        "Installing core apps... (dry run \u{2014} no changes will be made)\n"@
    } else {
        "Installing core apps...\n"@
    }) + plan_lines(items, dry_run)
}

fn push_action_line(s: &mut String, item: &AppPlan, dry_run: bool)
    ensures
        final(s)@ == old(s)@ + action_line(app_name(item.app), item.action, dry_run),
{
    let name = item.app.name();
    match &item.action {
        AppAction::AlreadyInstalled => {
            s.append("  \u{2713} ");
            s.append(name);
            s.append(": already installed\n");
        },
        AppAction::WillInstall(spec) => {
            if dry_run {
                s.append("  \u{2192} ");
                s.append(name);
                s.append(": would run: ");
                let d = spec.display();
                s.append(d.as_str());
                s.append("\n");
            } else {
                s.append("  \u{2192} ");
                s.append(name);
                s.append(": installing via ");
                s.append(spec.program.as_str());
                s.append("...\n");
            }
        },
        AppAction::Skipped => {
            s.append("  ~ ");
            s.append(name);
            s.append(": skipped (not in --tool list)\n");
        },
        AppAction::PlatformUnsupported => {
            s.append("  ! ");
            s.append(name);
            s.append(": not yet supported on this platform\n");
        },
    }
}

/// Format the plan as a human-readable string.
pub fn format_plan(plan: &InstallPlan, dry_run: bool) -> (r: String)
    ensures
        r@ == install_report(plan.items@, dry_run),
{
    let mut s = if dry_run {
        String::from_str("Installing core apps... (dry run \u{2014} no changes will be made)\n")
    } else {
        String::from_str("Installing core apps...\n")
    };
    let ghost head = s@;
    let mut i: usize = 0;
    assert(plan.items@.subrange(0, 0) =~= Seq::<AppPlan>::empty());
    assert(head + plan_lines(Seq::<AppPlan>::empty(), dry_run) =~= head);
    while i < plan.items.len()
        invariant
            i <= plan.items.len(),
            s@ == head + plan_lines(plan.items@.subrange(0, i as int), dry_run),
        decreases plan.items.len() - i,
    {
        push_action_line(&mut s, &plan.items[i], dry_run);
        proof {
            let p = plan.items@.subrange(0, i + 1);
            assert(p.subrange(0, p.len() - 1) =~= plan.items@.subrange(0, i as int));
        }
        i = i + 1;
    }
    assert(plan.items@.subrange(0, plan.items.len() as int) =~= plan.items@);
    s
}

// --- Results and summary ---

/// Result for one app after execution.
#[derive(Debug)]
pub enum AppResult {
    AlreadyInstalled,
    Installed,
    Failed(String),
    Skipped,
    PlatformUnsupported,
}

/// Names of the apps whose result is `Installed` (`failed == false`) or
/// `Failed` (`failed == true`), in order.
pub open spec fn result_names(results: Seq<(App, AppResult)>, failed: bool) -> Seq<Seq<char>>
    decreases results.len(),
{
    if results.len() == 0 {
        seq![]
    } else {
        let rest = result_names(results.subrange(0, results.len() - 1), failed);
        let (a, r) = results[results.len() - 1];
        if (failed && r is Failed) || (!failed && r is Installed) {
            rest.push(app_name(a))
        } else {
            rest
        }
    }
}

/// The closing summary after an install run.
pub open spec fn summary_text(installed: Seq<Seq<char>>, failed: Seq<Seq<char>>) -> Seq<char> {
    "\nSummary:\n"@ + if installed.len() == 0 && failed.len() == 0 {
        "  Nothing to install.\n"@
    } else {
        (if installed.len() > 0 {
            "  Installed:  "@ + join_spec(installed, ", "@) + "\n"@
        } else {
            seq![]
        }) + (if failed.len() > 0 {
            "  Failed:     "@ + join_spec(failed, ", "@) + "\n"@
        } else {
            seq![]
        })
    }
}

fn names_where(results: &[(App, AppResult)], failed: bool) -> (r: Vec<String>)
    ensures
        views(r@) == result_names(results@, failed),
{
    let mut out: Vec<String> = Vec::new();
    let mut i: usize = 0;
    while i < results.len()
        invariant
            i <= results.len(),
            views(out@) == result_names(results@.subrange(0, i as int), failed),
        decreases results.len() - i,
    {
        let hit = match &results[i].1 {
            AppResult::Failed(_) => failed,
            AppResult::Installed => !failed,
            _ => false,
        };
        let ghost before = out@;
        if hit {
            out.push(String::from_str(results[i].0.name()));
            assert(views(out@) =~= views(before).push(app_name(results@[i as int].0)));
        }
        proof {
            let p = results@.subrange(0, i + 1);
            assert(p.subrange(0, p.len() - 1) =~= results@.subrange(0, i as int));
        }
        i = i + 1;
    }
    assert(results@.subrange(0, results.len() as int) =~= results@);
    out
}

/// `r` is what running `item` gives: actions that need no install map to
/// the matching result; an install is `Installed` when `install` answered
/// `Ok`, and `Failed` with its message when it answered `Err`.
pub open spec fn app_result_ok<F: Fn(App, &InstallSpec) -> Result<(), String>>(
    install: F,
    item: AppPlan,
    r: AppResult,
) -> bool {
    match item.action {
        AppAction::AlreadyInstalled => r is AlreadyInstalled,
        AppAction::Skipped => r is Skipped,
        AppAction::PlatformUnsupported => r is PlatformUnsupported,
        AppAction::WillInstall(spec) => exists|out: Result<(), String>|
            #[trigger] call_ensures(install, (item.app, &spec), out) && match out {
                Ok(_) => r is Installed,
                Err(m) => r matches AppResult::Failed(f) && f@ == m@,
            },
    }
}

/// Runs the plan: `install` is called once for each item to install, in
/// plan order, and every item gets its result.
pub fn execute_plan(
    plan: &InstallPlan,
    install: &impl Fn(App, &InstallSpec) -> Result<(), String>,
) -> (r: Vec<(App, AppResult)>)
    requires
        forall|a: App, s: &InstallSpec| call_requires(*install, (a, s)),
    ensures
        r@.len() == plan.items@.len(),
        forall|i: int|
            0 <= i < r@.len() ==> (#[trigger] r@[i]).0 == plan.items@[i].app && app_result_ok(
                *install,
                plan.items@[i],
                r@[i].1,
            ),
{
    let mut results: Vec<(App, AppResult)> = Vec::new();
    let mut i: usize = 0;
    while i < plan.items.len()
        invariant
            i <= plan.items@.len(),
            results@.len() == i,
            forall|a: App, s: &InstallSpec| call_requires(*install, (a, s)),
            forall|k: int|
                0 <= k < i ==> (#[trigger] results@[k]).0 == plan.items@[k].app && app_result_ok(
                    *install,
                    plan.items@[k],
                    results@[k].1,
                ),
        decreases plan.items@.len() - i,
    {
        let item = &plan.items[i];
        let result = match &item.action {
            AppAction::AlreadyInstalled => AppResult::AlreadyInstalled,
            AppAction::Skipped => AppResult::Skipped,
            AppAction::PlatformUnsupported => AppResult::PlatformUnsupported,
            AppAction::WillInstall(spec) => {
                let out = install(item.app, spec);
                assert(call_ensures(*install, (item.app, spec), out));
                match out {
                    Ok(()) => AppResult::Installed,
                    Err(m) => AppResult::Failed(m),
                }
            },
        };
        results.push((item.app, result));
        i = i + 1;
    }
    results
}

/// The summary of the install results.
pub fn summary(results: &[(App, AppResult)]) -> (r: String)
    ensures
        r@ == summary_text(result_names(results@, false), result_names(results@, true)),
{
    let installed = names_where(results, false);
    let failed = names_where(results, true);
    let mut s = String::from_str("\nSummary:\n");
    if installed.len() == 0 && failed.len() == 0 {
        s.append("  Nothing to install.\n");
    } else {
        let ghost head = s@;
        if installed.len() > 0 {
            s.append("  Installed:  ");
            let j = join(&installed, ", ");
            s.append(j.as_str());
            s.append("\n");
        }
        let ghost mid = s@;
        if failed.len() > 0 {
            s.append("  Failed:     ");
            let j = join(&failed, ", ");
            s.append(j.as_str());
            s.append("\n");
        }
        assert(s@ =~= head + (if installed@.len() > 0 {
            "  Installed:  "@ + join_spec(views(installed@), ", "@) + "\n"@
        } else {
            seq![]
        }) + (if failed@.len() > 0 {
            "  Failed:     "@ + join_spec(views(failed@), ", "@) + "\n"@
        } else {
            seq![]
        }));
    }
    s
}

/// Whether any app failed to install.
pub fn any_failed(results: &[(App, AppResult)]) -> (r: bool)
    ensures
        r == (exists|i: int| 0 <= i < results@.len() && (#[trigger] results@[i]).1 is Failed),
{
    let mut i: usize = 0;
    while i < results.len()
        invariant
            i <= results.len(),
            forall|k: int| 0 <= k < i ==> !((#[trigger] results@[k]).1 is Failed),
        decreases results.len() - i,
    {
        if let AppResult::Failed(_) = &results[i].1 {
            assert(results@[i as int].1 is Failed);
            return true;
        }
        i = i + 1;
    }
    false
}

/// Whether the plan has anything to install.
pub fn plan_has_work(plan: &InstallPlan) -> (r: bool)
    ensures
        r == (exists|i: int|
            0 <= i < plan.items@.len() && (#[trigger] plan.items@[i]).action is WillInstall),
{
    let mut i: usize = 0;
    while i < plan.items.len()
        invariant
            i <= plan.items.len(),
            forall|k: int| 0 <= k < i ==> !((#[trigger] plan.items@[k]).action is WillInstall),
        decreases plan.items.len() - i,
    {
        if let AppAction::WillInstall(_) = &plan.items[i].action {
            assert(plan.items@[i as int].action is WillInstall);
            return true;
        }
        i = i + 1;
    }
    false
}

/// Whether a trimmed, lowercased answer accepts: `y` or `yes`.
pub fn is_yes(lower: &str) -> (r: bool)
    ensures
        r == (lower@ == "y"@ || lower@ == "yes"@),
{
    str_eq(lower, "y") || str_eq(lower, "yes")
}

/// Whether an answer to a `[y/N]` prompt accepts: `y` or `yes`, after
/// trimming, in any case.
pub fn confirmed(answer: &str) -> (r: bool)
    ensures
        r == (lowercase_of(trim_spec(answer@)) == "y"@ || lowercase_of(trim_spec(answer@))
            == "yes"@),
{
    let t = trim(answer);
    let l = lowercase(t.as_str());
    is_yes(l.as_str())
}

// --- CLI args ---

/// Arguments for `neon setup install-apps`.
#[derive(Debug)]
pub struct InstallAppsArgs {
    /// Comma-separated list of tools to install (default: all).
    pub tools: Option<String>,
    /// Print what would run without executing anything.
    pub dry_run: bool,
    /// Skip confirmation prompt.
    pub yes: bool,
}

/// The apps an install run is about: the `--tool` list when given, else all four.
pub fn requested_apps(args: &InstallAppsArgs) -> (r: Result<Vec<App>, InstallError>)
    ensures
        match &args.tools {
            None => r matches Ok(v) && v@ == all_apps(),
            Some(s) => match parse_tokens(split_spec(s@, ',')) {
                Err(t) => r matches Err(InstallError::UnknownApp(u)) && u@ == t,
                Ok(apps) => if apps.len() == 0 {
                    r == Err::<Vec<App>, InstallError>(InstallError::EmptyList)
                } else {
                    r matches Ok(v) && v@ == apps
                },
            },
        },
{
    match &args.tools {
        Some(s) => App::parse_list(s.as_str()),
        None => {
            let mut v: Vec<App> = Vec::new();
            v.push(App::Git);
            v.push(App::Gh);
            v.push(App::Docker);
            v.push(App::Obsidian);
            assert(v@ =~= all_apps());
            Ok(v)
        },
    }
}

} // verus!
