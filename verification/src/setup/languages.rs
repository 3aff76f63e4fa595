//! `neon setup install-languages`: the language toolchains, their
//! per-platform install sequences, the install plan and its report.
use vstd::prelude::*;
use vstd::string::*;

pub use crate::install::Platform;
use crate::install::{command_display, command_line, owned_args, str_views, winget, winget_args};
use crate::text::{contains_spec, join, join_spec, occurs_at, str_eq, views};

verus! {

// --- Language enum ---

/// A language toolchain that `neon setup install-languages` can install.
#[derive(Debug, Clone, Copy, PartialEq, Eq, Structural)]
pub enum Language {
    Node,
    Python,
    Rust,
    Go,
}

/// All four languages in canonical installation order.
pub open spec fn all_languages() -> Seq<Language> {
    seq![Language::Node, Language::Python, Language::Rust, Language::Go]
}

/// The short name of a language (used in `--skip` and output lines).
pub open spec fn language_name(l: Language) -> Seq<char> {
    match l {
        Language::Node => "node"@,
        Language::Python => "python"@,
        Language::Rust => "rust"@,
        Language::Go => "go"@,
    }
}

impl Language {
    /// All four languages, in canonical installation order.
    pub fn all() -> (r: &'static [Language])
        ensures
            r@ == all_languages(),
    {
        &[Language::Node, Language::Python, Language::Rust, Language::Go]
    }

    /// Short name used in `--skip` list and output lines.
    pub fn name(self) -> (r: &'static str)
        ensures
            r@ == language_name(self),
    {
        match self {
            Language::Node => "node",
            Language::Python => "python",
            Language::Rust => "rust",
            Language::Go => "go",
        }
    }
}

// --- Install spec ---

/// A single install command (program + args) for a given step.
#[derive(Debug, Clone, PartialEq, Eq)]
pub struct LangInstallSpec {
    pub program: String,
    pub args: Vec<String>,
}

impl LangInstallSpec {
    /// An install step from a program and its arguments.
    pub fn new(program: &str, args: &[&str]) -> (r: Self)
        ensures
            r.program@ == program@,
            views(r.args@) == str_views(args@),
    {
        LangInstallSpec { program: String::from_str(program), args: owned_args(args) }
    }

    /// Human-readable representation: `program arg1 arg2 …`
    pub fn display(&self) -> (r: String)
        ensures
            r@ == command_line(self.program@, views(self.args@)),
    {
        command_display(&self.program, &self.args)
    }
}

/// A sequence of install steps for a language (node needs nvm first, then
/// two nvm sub-commands; all others are single-step).
#[derive(Debug, Clone, PartialEq, Eq)]
pub struct LangInstallPlan {
    pub steps: Vec<LangInstallSpec>,
}

/// The (program, arguments) of each step, in order.
pub open spec fn step_commands(steps: Seq<LangInstallSpec>) -> Seq<(Seq<char>, Seq<Seq<char>>)> {
    steps.map_values(|s: LangInstallSpec| (s.program@, views(s.args@)))
}

/// The nvm installer for Linux and macOS.
pub const NVM_INSTALL_SCRIPT: &'static str = "curl -fsSL https://raw.githubusercontent.com/nvm-sh/nvm/v0.40.3/install.sh | bash";

/// Installs the latest LTS node through nvm (Linux and macOS).
pub const NVM_LTS_SCRIPT: &'static str = "source ~/.nvm/nvm.sh && nvm install --lts";

/// Switches to the latest LTS node through nvm (Linux and macOS).
pub const NVM_USE_LTS_SCRIPT: &'static str = "source ~/.nvm/nvm.sh && nvm use --lts";

/// The rustup installer for Linux and macOS.
pub const RUSTUP_SCRIPT: &'static str = "curl --proto '=https' --tlsv1.2 -sSf https://sh.rustup.rs | sh -s -- -y";

/// The install sequence for a language on a platform; none on an unknown platform.
pub open spec fn language_steps(l: Language, p: Platform) -> Option<
    Seq<(Seq<char>, Seq<Seq<char>>)>,
> {
    match p {
        Platform::Windows => Some(
            match l {
                Language::Node => seq![
                    ("winget"@, winget_args("CoreyButler.NVMforWindows"@)),
                    ("nvm"@, seq!["install"@, "lts"@]),
                    ("nvm"@, seq!["use"@, "lts"@]),
                ],
                Language::Python => seq![
                    (
                        "winget"@,
                        seq![
                            "install"@,
                            "--id"@,
                            "Python.Python.3"@,
                            "--source"@,
                            "winget"@,
                            "--accept-source-agreements"@,
                            "--accept-package-agreements"@,
                        ],
                    ),
                ],
                Language::Rust => seq![("winget"@, winget_args("Rustlang.Rustup"@))],
                Language::Go => seq![("winget"@, winget_args("GoLang.Go"@))],
            },
        ),
        Platform::Linux => Some(
            match l {
                Language::Node => seq![
                    ("bash"@, seq!["-c"@, NVM_INSTALL_SCRIPT@]),
                    ("bash"@, seq!["-c"@, NVM_LTS_SCRIPT@]),
                    ("bash"@, seq!["-c"@, NVM_USE_LTS_SCRIPT@]),
                ],
                Language::Python => seq![
                    ("sudo"@, seq!["apt-get"@, "install"@, "-y"@, "python3"@, "python3-pip"@]),
                ],
                Language::Rust => seq![("bash"@, seq!["-c"@, RUSTUP_SCRIPT@])],
                Language::Go => seq![("sudo"@, seq!["apt-get"@, "install"@, "-y"@, "golang-go"@])],
            },
        ),
        Platform::MacOs => Some(
            match l {
                Language::Node => seq![
                    ("bash"@, seq!["-c"@, NVM_INSTALL_SCRIPT@]),
                    ("bash"@, seq!["-c"@, NVM_LTS_SCRIPT@]),
                    ("bash"@, seq!["-c"@, NVM_USE_LTS_SCRIPT@]),
                ],
                Language::Python => seq![("brew"@, seq!["install"@, "python"@])],
                Language::Rust => seq![("bash"@, seq!["-c"@, RUSTUP_SCRIPT@])],
                Language::Go => seq![("brew"@, seq!["install"@, "go"@])],
            },
        ),
        Platform::Unknown => None,
    }
}

fn step(program: &str, args: &[&str]) -> (r: LangInstallSpec)
    ensures
        r.program@ == program@,
        views(r.args@) == str_views(args@),
{
    LangInstallSpec::new(program, args)
}

fn winget_step(id: &str) -> (r: LangInstallSpec)
    ensures
        r.program@ == "winget"@,
        views(r.args@) == winget_args(id@),
{
    let w = winget(id);
    LangInstallSpec { program: w.program, args: w.args }
}

fn one(s: LangInstallSpec) -> (r: LangInstallPlan)
    ensures
        step_commands(r.steps@) == seq![(s.program@, views(s.args@))],
{
    let mut v: Vec<LangInstallSpec> = Vec::new();
    v.push(s);
    assert(step_commands(v@) =~= seq![(s.program@, views(s.args@))]);
    LangInstallPlan { steps: v }
}

fn three(a: LangInstallSpec, b: LangInstallSpec, c: LangInstallSpec) -> (r: LangInstallPlan)
    ensures
        step_commands(r.steps@) == seq![
            (a.program@, views(a.args@)),
            (b.program@, views(b.args@)),
            (c.program@, views(c.args@)),
        ],
{
    let ghost ca = (a.program@, views(a.args@));
    let ghost cb = (b.program@, views(b.args@));
    let ghost cc = (c.program@, views(c.args@));
    let mut v: Vec<LangInstallSpec> = Vec::new();
    v.push(a);
    v.push(b);
    v.push(c);
    assert(step_commands(v@) =~= seq![ca, cb, cc]);
    LangInstallPlan { steps: v }
}

fn windows_steps(language: Language) -> (r: LangInstallPlan)
    ensures
        Some(step_commands(r.steps@)) == language_steps(language, Platform::Windows),
{
    match language {
        Language::Node => {
            let a = winget_step("CoreyButler.NVMforWindows");
            let b = step("nvm", &["install", "lts"]);
            let c = step("nvm", &["use", "lts"]);
            assert(str_views(seq!["install", "lts"]) =~= seq!["install"@, "lts"@]);
            assert(str_views(seq!["use", "lts"]) =~= seq!["use"@, "lts"@]);
            let ghost ca = (a.program@, views(a.args@));
            let ghost cb = (b.program@, views(b.args@));
            let ghost cc = (c.program@, views(c.args@));
            let mut v: Vec<LangInstallSpec> = Vec::new();
            v.push(a);
            v.push(b);
            v.push(c);
            assert(step_commands(v@) =~= seq![ca, cb, cc]);
            LangInstallPlan { steps: v }
        },
        Language::Python => {
            let s = step(
                "winget",
                &[
                    "install",
                    "--id",
                    "Python.Python.3",
                    "--source",
                    "winget",
                    "--accept-source-agreements",
                    "--accept-package-agreements",
                ],
            );
            assert(str_views(
                seq![
                    "install",
                    "--id",
                    "Python.Python.3",
                    "--source",
                    "winget",
                    "--accept-source-agreements",
                    "--accept-package-agreements",
                ],
            ) =~= seq![
                "install"@,
                "--id"@,
                "Python.Python.3"@,
                "--source"@,
                "winget"@,
                "--accept-source-agreements"@,
                "--accept-package-agreements"@,
            ]);
            one(s)
        },
        Language::Rust => one(winget_step("Rustlang.Rustup")),
        Language::Go => one(winget_step("GoLang.Go")),
    }
}

fn unix_node_steps() -> (r: LangInstallPlan)
    ensures
        step_commands(r.steps@) == seq![
            ("bash"@, seq!["-c"@, NVM_INSTALL_SCRIPT@]),
            ("bash"@, seq!["-c"@, NVM_LTS_SCRIPT@]),
            ("bash"@, seq!["-c"@, NVM_USE_LTS_SCRIPT@]),
        ],
{
    assert(str_views(seq!["-c", NVM_INSTALL_SCRIPT]) =~= seq!["-c"@, NVM_INSTALL_SCRIPT@]);
    assert(str_views(seq!["-c", NVM_LTS_SCRIPT]) =~= seq!["-c"@, NVM_LTS_SCRIPT@]);
    assert(str_views(seq!["-c", NVM_USE_LTS_SCRIPT]) =~= seq!["-c"@, NVM_USE_LTS_SCRIPT@]);
    three(
        step("bash", &["-c", NVM_INSTALL_SCRIPT]),
        step("bash", &["-c", NVM_LTS_SCRIPT]),
        step("bash", &["-c", NVM_USE_LTS_SCRIPT]),
    )
}

fn rustup_steps() -> (r: LangInstallPlan)
    ensures
        step_commands(r.steps@) == seq![("bash"@, seq!["-c"@, RUSTUP_SCRIPT@])],
{
    assert(str_views(seq!["-c", RUSTUP_SCRIPT]) =~= seq!["-c"@, RUSTUP_SCRIPT@]);
    one(step("bash", &["-c", RUSTUP_SCRIPT]))
}

fn linux_steps(language: Language) -> (r: LangInstallPlan)
    ensures
        Some(step_commands(r.steps@)) == language_steps(language, Platform::Linux),
{
    match language {
        Language::Node => unix_node_steps(),
        Language::Python => {
            assert(str_views(seq!["apt-get", "install", "-y", "python3", "python3-pip"]) =~= seq![
                "apt-get"@,
                "install"@,
                "-y"@,
                "python3"@,
                "python3-pip"@,
            ]);
            one(step("sudo", &["apt-get", "install", "-y", "python3", "python3-pip"]))
        },
        Language::Rust => rustup_steps(),
        Language::Go => {
            assert(str_views(seq!["apt-get", "install", "-y", "golang-go"]) =~= seq![
                "apt-get"@,
                "install"@,
                "-y"@,
                "golang-go"@,
            ]);
            one(step("sudo", &["apt-get", "install", "-y", "golang-go"]))
        },
    }
}

fn macos_steps(language: Language) -> (r: LangInstallPlan)
    ensures
        Some(step_commands(r.steps@)) == language_steps(language, Platform::MacOs),
{
    match language {
        Language::Node => unix_node_steps(),
        Language::Python => {
            assert(str_views(seq!["install", "python"]) =~= seq!["install"@, "python"@]);
            one(step("brew", &["install", "python"]))
        },
        Language::Rust => rustup_steps(),
        Language::Go => {
            assert(str_views(seq!["install", "go"]) =~= seq!["install"@, "go"@]);
            one(step("brew", &["install", "go"]))
        },
    }
}

/// On every known platform node takes three steps (nvm first, then two nvm
/// sub-commands) and every other language one.
pub proof fn law_step_counts(l: Language, p: Platform)
    requires
        p != Platform::Unknown,
    ensures
        language_steps(l, p) is Some,
        language_steps(l, p).unwrap().len() == if l == Language::Node {
            3int
        } else {
            1int
        },
{
}

/// The command line of step `i` of the node install sequence on `p`.
pub open spec fn node_step_line(p: Platform, i: int) -> Seq<char> {
    let s = language_steps(Language::Node, p).unwrap();
    command_line(s[i].0, s[i].1)
}

/// `join_spec` of two parts.
proof fn lemma_join_two(a: Seq<char>, b: Seq<char>, sep: Seq<char>)
    ensures
        join_spec(seq![a, b], sep) == a + sep + b,
{
    let q = seq![a, b];
    assert(q.subrange(0, 1) =~= seq![a]);
    assert(join_spec(seq![a], sep) == a);
}

/// On every known platform node is installed in order: the LTS node is
/// installed through nvm (`nvm install`, the second step) before the
/// switch to it (`nvm use`, the third step), and neither step does the
/// other's work.
pub proof fn law_node_step_order(p: Platform)
    requires
        p != Platform::Unknown,
    ensures
        contains_spec(node_step_line(p, 1), "nvm install"@),
        contains_spec(node_step_line(p, 2), "nvm use"@),
        !contains_spec(node_step_line(p, 1), "nvm use"@),
        !contains_spec(node_step_line(p, 2), "nvm install"@),
{
    reveal_strlit("nvm install");
    reveal_strlit("nvm use");
    reveal_strlit(" ");
    let l1 = node_step_line(p, 1);
    let l2 = node_step_line(p, 2);
    if p == Platform::Windows {
        reveal_strlit("nvm");
        reveal_strlit("install");
        reveal_strlit("use");
        reveal_strlit("lts");
        lemma_join_two("install"@, "lts"@, " "@);
        lemma_join_two("use"@, "lts"@, " "@);
        assert(l1 =~= "nvm"@ + " "@ + ("install"@ + " "@ + "lts"@));
        assert(l2 =~= "nvm"@ + " "@ + ("use"@ + " "@ + "lts"@));
        assert(l1.subrange(0, 11) =~= "nvm install"@);
        assert(occurs_at(l1, "nvm install"@, 0));
        assert(l2.subrange(0, 7) =~= "nvm use"@);
        assert(occurs_at(l2, "nvm use"@, 0));
        lemma_lacks_at_most(l1, "nvm use"@);
        lemma_lacks_at_most(l2, "nvm install"@);
    } else {
        reveal_strlit("bash");
        reveal_strlit("-c");
        reveal_strlit("source ~/.nvm/nvm.sh && nvm install --lts");
        reveal_strlit("source ~/.nvm/nvm.sh && nvm use --lts");
        lemma_join_two("-c"@, NVM_LTS_SCRIPT@, " "@);
        lemma_join_two("-c"@, NVM_USE_LTS_SCRIPT@, " "@);
        assert(l1 =~= "bash"@ + " "@ + ("-c"@ + " "@ + NVM_LTS_SCRIPT@));
        assert(l2 =~= "bash"@ + " "@ + ("-c"@ + " "@ + NVM_USE_LTS_SCRIPT@));
        assert(l1.subrange(32, 43) =~= "nvm install"@);
        assert(occurs_at(l1, "nvm install"@, 32));
        assert(l2.subrange(32, 39) =~= "nvm use"@);
        assert(occurs_at(l2, "nvm use"@, 32));
        lemma_lacks_at_most(l1, "nvm use"@);
        lemma_lacks_at_most(l2, "nvm install"@);
    }
}

/// A pattern of the form `nvm <word>` occurs only where its word follows
/// `nvm ` in `s`; a line whose only `nvm ` is followed by another word
/// lacks it.
proof fn lemma_lacks_at_most(s: Seq<char>, pat: Seq<char>)
    requires
        pat.len() >= 5,
        forall|i: int| 0 <= i <= s.len() - pat.len() ==> #[trigger] s[i] != pat[0] || s[i + 1] != pat[1] || s[i + 2] != pat[2] || s[i + 3] != pat[3] || s[i + 4] != pat[4],
    ensures
        !contains_spec(s, pat),
{
    if contains_spec(s, pat) {
        let i = choose|i: int| occurs_at(s, pat, i);
        let w = s.subrange(i, i + pat.len());
        assert(w[0] == s[i] && w[1] == s[i + 1] && w[2] == s[i + 2] && w[3] == s[i + 3] && w[4] == s[i + 4]);
    }
}

/// The word that names a language's installer on a platform: the tool
/// itself, capitalised as Windows package ids write it.
pub open spec fn installer_word(l: Language, p: Platform) -> Seq<char> {
    if p == Platform::Windows {
        match l {
            Language::Node => "NVM"@,
            Language::Python => "Python"@,
            Language::Rust => "Rust"@,
            Language::Go => "Go"@,
        }
    } else {
        match l {
            Language::Node => "nvm"@,
            Language::Python => "python"@,
            Language::Rust => "rustup"@,
            Language::Go => "go"@,
        }
    }
}

/// The first install step of each language installs that language's own
/// toolchain: the winget package id (on Windows) or the last argument (on
/// Linux and macOS) names it.
pub proof fn law_first_step_names_language(l: Language, p: Platform)
    requires
        p != Platform::Unknown,
    ensures
        ({
            let a = language_steps(l, p).unwrap()[0].1;
            contains_spec(
                if p == Platform::Windows {
                    a[2]
                } else {
                    a[a.len() - 1]
                },
                installer_word(l, p),
            )
        }),
{
    reveal_strlit("curl -fsSL https://raw.githubusercontent.com/nvm-sh/nvm/v0.40.3/install.sh | bash");
    reveal_strlit("curl --proto '=https' --tlsv1.2 -sSf https://sh.rustup.rs | sh -s -- -y");
    reveal_strlit("CoreyButler.NVMforWindows");
    reveal_strlit("Go");
    reveal_strlit("GoLang.Go");
    reveal_strlit("NVM");
    reveal_strlit("Python");
    reveal_strlit("Python.Python.3");
    reveal_strlit("Rust");
    reveal_strlit("Rustlang.Rustup");
    reveal_strlit("go");
    reveal_strlit("golang-go");
    reveal_strlit("nvm");
    reveal_strlit("python");
    reveal_strlit("python3-pip");
    reveal_strlit("rustup");
    let a = language_steps(l, p).unwrap()[0].1;
    if p == Platform::Windows && l == Language::Node {
        assert("CoreyButler.NVMforWindows"@.subrange(12, 15) =~= "NVM"@);
        assert(occurs_at("CoreyButler.NVMforWindows"@, "NVM"@, 12));
    }
    if p == Platform::Windows && l == Language::Python {
        assert("Python.Python.3"@.subrange(0, 6) =~= "Python"@);
        assert(occurs_at("Python.Python.3"@, "Python"@, 0));
    }
    if p == Platform::Windows && l == Language::Rust {
        assert("Rustlang.Rustup"@.subrange(0, 4) =~= "Rust"@);
        assert(occurs_at("Rustlang.Rustup"@, "Rust"@, 0));
    }
    if p == Platform::Windows && l == Language::Go {
        assert("GoLang.Go"@.subrange(0, 2) =~= "Go"@);
        assert(occurs_at("GoLang.Go"@, "Go"@, 0));
    }
    if (p == Platform::Linux || p == Platform::MacOs) && l == Language::Node {
        assert(NVM_INSTALL_SCRIPT@.subrange(45, 48) =~= "nvm"@);
        assert(occurs_at(NVM_INSTALL_SCRIPT@, "nvm"@, 45));
    }
    if p == Platform::Linux && l == Language::Python {
        assert("python3-pip"@.subrange(0, 6) =~= "python"@);
        assert(occurs_at("python3-pip"@, "python"@, 0));
    }
    if (p == Platform::Linux || p == Platform::MacOs) && l == Language::Rust {
        assert(RUSTUP_SCRIPT@.subrange(48, 54) =~= "rustup"@);
        assert(occurs_at(RUSTUP_SCRIPT@, "rustup"@, 48));
    }
    if p == Platform::Linux && l == Language::Go {
        assert("golang-go"@.subrange(0, 2) =~= "go"@);
        assert(occurs_at("golang-go"@, "go"@, 0));
    }
    if p == Platform::MacOs && l == Language::Python {
        assert("python"@.subrange(0, 6) =~= "python"@);
        assert(occurs_at("python"@, "python"@, 0));
    }
    if p == Platform::MacOs && l == Language::Go {
        assert("go"@.subrange(0, 2) =~= "go"@);
        assert(occurs_at("go"@, "go"@, 0));
    }
}

/// Resolve the install sequence for `language` on the given platform;
/// none on an unknown platform.
pub fn install_steps(language: Language, platform: Platform) -> (r: Option<LangInstallPlan>)
    ensures
        match language_steps(language, platform) {
            Some(cmds) => r matches Some(p) && step_commands(p.steps@) == cmds,
            None => r is None,
        },
{
    match platform {
        Platform::Windows => Some(windows_steps(language)),
        Platform::Linux => Some(linux_steps(language)),
        Platform::MacOs => Some(macos_steps(language)),
        Platform::Unknown => None,
    }
}

// --- Probe ---

/// `on_path` answered `found` when asked about the program `name`.
pub open spec fn path_answer<F: Fn(&str) -> bool>(on_path: F, name: Seq<char>, found: bool) -> bool {
    exists|t: &str| t@ == name && #[trigger] call_ensures(on_path, (t,), found)
}

/// What the installed-probe concludes from the PATH answers: `node`,
/// `rustup` and `go` by name; Python as `python` or `python3` on Windows
/// (the second asked only when the first is absent), `python3` elsewhere.
pub open spec fn probe_result<F: Fn(&str) -> bool>(
    language: Language,
    platform: Platform,
    on_path: F,
    r: bool,
) -> bool {
    match language {
        Language::Node => path_answer(on_path, "node"@, r),
        Language::Python => if platform is Windows {
            (r && path_answer(on_path, "python"@, true)) || (path_answer(on_path, "python"@, false)
                && path_answer(on_path, "python3"@, r))
        } else {
            path_answer(on_path, "python3"@, r)
        },
        Language::Rust => path_answer(on_path, "rustup"@, r),
        Language::Go => path_answer(on_path, "go"@, r),
    }
}

fn ask(on_path: &impl Fn(&str) -> bool, name: &str) -> (r: bool)
    requires
        forall|t: &str| call_requires(*on_path, (t,)),
    ensures
        path_answer(*on_path, name@, r),
{
    let r = on_path(name);
    assert(call_ensures(*on_path, (name,), r));
    r
}

/// Returns `true` if `language` is already present on PATH, as `on_path`
/// answers for each program name.
pub fn default_probe(language: Language, platform: Platform, on_path: impl Fn(&str) -> bool) -> (r: bool)
    requires
        forall|t: &str| call_requires(on_path, (t,)),
    ensures
        probe_result(language, platform, on_path, r),
{
    match language {
        Language::Node => ask(&on_path, "node"),
        Language::Python => {
            if platform == Platform::Windows {
                let a = ask(&on_path, "python");
                if a {
                    true
                } else {
                    ask(&on_path, "python3")
                }
            } else {
                ask(&on_path, "python3")
            }
        },
        Language::Rust => ask(&on_path, "rustup"),
        Language::Go => ask(&on_path, "go"),
    }
}

// --- Plan types ---

/// The resolved action for one language.
#[derive(Debug, PartialEq, Eq)]
pub enum LangAction {
    /// Language toolchain is already installed — no action needed.
    AlreadyInstalled,
    /// Language toolchain will be installed using the given steps.
    WillInstall(LangInstallPlan),
    /// Language is in the `--skip` list — no action needed.
    Skipped,
    /// Platform not yet supported for this language.
    PlatformUnsupported,
}

/// The plan for a single language.
#[derive(Debug)]
pub struct LangPlan {
    pub language: Language,
    pub action: LangAction,
}

/// The full plan for all languages.
#[derive(Debug)]
pub struct LanguageInstallPlan {
    pub items: Vec<LangPlan>,
}

/// The action planned for a language.
pub open spec fn lang_planned(
    l: Language,
    skip: Seq<Seq<char>>,
    platform: Platform,
    installed: bool,
    action: LangAction,
) -> bool {
    if skip.contains(language_name(l)) {
        action is Skipped
    } else if installed {
        action is AlreadyInstalled
    } else {
        match language_steps(l, platform) {
            Some(cmds) => action matches LangAction::WillInstall(p) && step_commands(p.steps@) == cmds,
            None => action is PlatformUnsupported,
        }
    }
}

/// Language runs are idempotent: a toolchain is only ever scheduled for
/// installation when it is not skipped and the probe found it missing.
pub proof fn law_languages_install_only_what_is_missing(
    l: Language,
    skip: Seq<Seq<char>>,
    platform: Platform,
    installed: bool,
    action: LangAction,
)
    requires
        lang_planned(l, skip, platform, installed, action),
    ensures
        action is WillInstall ==> !skip.contains(language_name(l)) && !installed,
{
}

/// The probe answered `installed` for `l` (when it was asked at all).
pub open spec fn lang_probe_said<F: Fn(Language, Platform) -> bool>(
    probe: F,
    l: Language,
    skip: Seq<Seq<char>>,
    platform: Platform,
    installed: bool,
) -> bool {
    !skip.contains(language_name(l)) ==> call_ensures(probe, (l, platform), installed)
}

/// Item `i` of a plan is the `i`-th language with the action it is owed.
pub open spec fn lang_item_ok<F: Fn(Language, Platform) -> bool>(
    item: LangPlan,
    i: int,
    skip: Seq<Seq<char>>,
    platform: Platform,
    probe: F,
) -> bool {
    &&& item.language == all_languages()[i]
    &&& exists|installed: bool|
        #[trigger] lang_probe_said(probe, item.language, skip, platform, installed) && lang_planned(
            item.language,
            skip,
            platform,
            installed,
            item.action,
        )
}

/// Build a plan without executing anything.  `skip` holds language names to
/// leave out; `probe` is only asked about the others.
pub fn build_plan(skip: &[String], platform: Platform, probe: impl Fn(Language, Platform) -> bool) -> (r: LanguageInstallPlan)
    requires
        forall|l: Language| call_requires(probe, (l, platform)),
    ensures
        r.items@.len() == 4,
        forall|i: int|
            0 <= i < 4 ==> lang_item_ok(#[trigger] r.items@[i], i, views(skip@), platform, probe),
{
    let langs = Language::all();
    let mut items: Vec<LangPlan> = Vec::new();
    let mut i: usize = 0;
    while i < 4
        invariant
            i <= 4,
            langs@ == all_languages(),
            items@.len() == i,
            forall|l: Language| call_requires(probe, (l, platform)),
            forall|k: int|
                0 <= k < i ==> lang_item_ok(#[trigger] items@[k], k, views(skip@), platform, probe),
        decreases 4 - i,
    {
        let lang = langs[i];
        let item = if crate::setup::packages::names_contain(skip, lang.name()) {
            assert(lang_probe_said(probe, lang, views(skip@), platform, false));
            LangPlan { language: lang, action: LangAction::Skipped }
        } else {
            let installed = probe(lang, platform);
            assert(lang_probe_said(probe, lang, views(skip@), platform, installed));
            if installed {
                LangPlan { language: lang, action: LangAction::AlreadyInstalled }
            } else {
                let action = match install_steps(lang, platform) {
                    Some(plan) => LangAction::WillInstall(plan),
                    None => LangAction::PlatformUnsupported,
                };
                LangPlan { language: lang, action }
            }
        };
        items.push(item);
        i = i + 1;
    }
    LanguageInstallPlan { items }
}

// --- Formatting ---

/// One `would run` line per step.
pub open spec fn step_lines(name: Seq<char>, steps: Seq<LangInstallSpec>) -> Seq<char>
    decreases steps.len(),
{
    if steps.len() == 0 {
        seq![]
    } else {
        step_lines(name, steps.subrange(0, steps.len() - 1)) + "  \u{2192} "@ + name
            + ": would run: "@ + command_line(
            steps[steps.len() - 1].program@,
            views(steps[steps.len() - 1].args@),
        ) + "\n"@
    }
}

/// The report lines for one planned language.
pub open spec fn lang_line(name: Seq<char>, action: LangAction, dry_run: bool) -> Seq<char> {
    match action {
        LangAction::AlreadyInstalled => "  \u{2713} "@ + name + " already installed\n"@,
        LangAction::WillInstall(plan) => if dry_run {
            step_lines(name, plan.steps@)
        } else {
            "  \u{2192} installing "@ + name + "...\n"@
        },
        LangAction::Skipped => "  ~ "@ + name + ": skipped (--skip list)\n"@,
        LangAction::PlatformUnsupported => "  ! "@ + name + ": not yet supported on this platform\n"@,
    }
}

/// The report lines for the planned languages, in order.
pub open spec fn lang_lines(items: Seq<LangPlan>, dry_run: bool) -> Seq<char>
    decreases items.len(),
{
    if items.len() == 0 {
        seq![]
    } else {
        lang_lines(items.subrange(0, items.len() - 1), dry_run) + lang_line(
            language_name(items[items.len() - 1].language),
            items[items.len() - 1].action,
            dry_run,
        )
    }
}

/// The report for a language install plan.
pub open spec fn languages_report(items: Seq<LangPlan>, dry_run: bool) -> Seq<char> {
    (if dry_run {
        "Installing language toolchains... (dry run \u{2014} no changes will be made)\n"@
    } else {
        "Installing language toolchains...\n"@
    }) + lang_lines(items, dry_run)
}

fn push_step_lines(s: &mut String, name: &str, steps: &Vec<LangInstallSpec>)
    ensures
        final(s)@ == old(s)@ + step_lines(name@, steps@),
{
    let ghost start = s@;
    let mut i: usize = 0;
    assert(steps@.subrange(0, 0) =~= Seq::<LangInstallSpec>::empty());
    assert(start + step_lines(name@, Seq::<LangInstallSpec>::empty()) =~= start);
    while i < steps.len()
        invariant
            i <= steps.len(),
            s@ == start + step_lines(name@, steps@.subrange(0, i as int)),
        decreases steps.len() - i,
    {
        s.append("  \u{2192} ");
        s.append(name);
        s.append(": would run: ");
        let d = steps[i].display();
        s.append(d.as_str());
        s.append("\n");
        proof {
            let p = steps@.subrange(0, i + 1);
            assert(p.subrange(0, p.len() - 1) =~= steps@.subrange(0, i as int));
        }
        i = i + 1;
    }
    assert(steps@.subrange(0, steps.len() as int) =~= steps@);
}

fn push_lang_line(s: &mut String, item: &LangPlan, dry_run: bool)
    ensures
        final(s)@ == old(s)@ + lang_line(language_name(item.language), item.action, dry_run),
{
    let name = item.language.name();
    match &item.action {
        LangAction::AlreadyInstalled => {
            s.append("  \u{2713} ");
            s.append(name);
            s.append(" already installed\n");
        },
        LangAction::WillInstall(plan) => {
            if dry_run {
                push_step_lines(s, name, &plan.steps);
            } else {
                s.append("  \u{2192} installing ");
                s.append(name);
                s.append("...\n");
            }
        },
        LangAction::Skipped => {
            s.append("  ~ ");
            s.append(name);
            s.append(": skipped (--skip list)\n");
        },
        LangAction::PlatformUnsupported => {
            s.append("  ! ");
            s.append(name);
            s.append(": not yet supported on this platform\n");
        },
    }
}

/// Format the plan as a human-readable string.
pub fn format_plan(plan: &LanguageInstallPlan, dry_run: bool) -> (r: String)
    ensures
        r@ == languages_report(plan.items@, dry_run),
{
    let mut s = if dry_run {
        String::from_str(
            "Installing language toolchains... (dry run \u{2014} no changes will be made)\n",
        )
    } else {
        String::from_str("Installing language toolchains...\n")
    };
    let ghost head = s@;
    let mut i: usize = 0;
    assert(plan.items@.subrange(0, 0) =~= Seq::<LangPlan>::empty());
    assert(head + lang_lines(Seq::<LangPlan>::empty(), dry_run) =~= head);
    while i < plan.items.len()
        invariant
            i <= plan.items.len(),
            s@ == head + lang_lines(plan.items@.subrange(0, i as int), dry_run),
        decreases plan.items.len() - i,
    {
        push_lang_line(&mut s, &plan.items[i], dry_run);
        proof {
            let p = plan.items@.subrange(0, i + 1);
            assert(p.subrange(0, p.len() - 1) =~= plan.items@.subrange(0, i as int));
        }
        i = i + 1;
    }
    assert(plan.items@.subrange(0, plan.items.len() as int) =~= plan.items@);
    s
}

// --- Results and summary ---

/// Result for one language after execution.
#[derive(Debug)]
pub enum LangResult {
    AlreadyInstalled,
    Installed,
    Failed(String),
    Skipped,
    PlatformUnsupported,
}

/// Names of the languages whose result is `Installed` (`failed == false`)
/// or `Failed` (`failed == true`), in order.
pub open spec fn lang_result_names(results: Seq<(Language, LangResult)>, failed: bool) -> Seq<Seq<char>>
    decreases results.len(),
{
    if results.len() == 0 {
        seq![]
    } else {
        let rest = lang_result_names(results.subrange(0, results.len() - 1), failed);
        let (l, r) = results[results.len() - 1];
        if (failed && r is Failed) || (!failed && r is Installed) {
            rest.push(language_name(l))
        } else {
            rest
        }
    }
}

fn lang_names_where(results: &[(Language, LangResult)], failed: bool) -> (r: Vec<String>)
    ensures
        views(r@) == lang_result_names(results@, failed),
{
    let mut out: Vec<String> = Vec::new();
    let mut i: usize = 0;
    while i < results.len()
        invariant
            i <= results.len(),
            views(out@) == lang_result_names(results@.subrange(0, i as int), failed),
        decreases results.len() - i,
    {
        let hit = match &results[i].1 {
            LangResult::Failed(_) => failed,
            LangResult::Installed => !failed,
            _ => false,
        };
        let ghost before = out@;
        if hit {
            out.push(String::from_str(results[i].0.name()));
            assert(views(out@) =~= views(before).push(language_name(results@[i as int].0)));
        }
        proof {
            let p = results@.subrange(0, i + 1);
            assert(p.subrange(0, p.len() - 1) =~= results@.subrange(0, i as int));
        }
        i = i + 1;
    }
    assert(results@.subrange(0, results.len() as int) =~= results@);
    out
}

/// The steps ran in order and stopped at the first failure: `run` answered
/// `Ok` for the first `k` steps, and the language is `Installed` when that
/// is all of them, else `Failed` with what `run` answered for step `k`.
/// `run` is told the step's index and the number of steps.
pub open spec fn steps_ran<F: Fn(Language, usize, usize, &LangInstallSpec) -> Result<(), String>>(
    run: F,
    l: Language,
    steps: Seq<LangInstallSpec>,
    k: int,
    r: LangResult,
) -> bool {
    &&& 0 <= k <= steps.len()
    &&& forall|j: int|
        0 <= j < k ==> #[trigger] call_ensures(
            run,
            (l, j as usize, steps.len() as usize, &steps[j]),
            Ok::<(), String>(()),
        )
    &&& if k == steps.len() {
        r is Installed
    } else {
        exists|m: String|
            #[trigger] call_ensures(
                run,
                (l, k as usize, steps.len() as usize, &steps[k]),
                Err::<(), String>(m),
            ) && (r matches LangResult::Failed(f) && f@ == m@)
    }
}

/// `r` is what running `item` gives: actions that need no install map to
/// the matching result; an install runs its steps as `steps_ran` says.
pub open spec fn lang_result_ok<F: Fn(Language, usize, usize, &LangInstallSpec) -> Result<(), String>>(
    run: F,
    item: LangPlan,
    r: LangResult,
) -> bool {
    match item.action {
        LangAction::AlreadyInstalled => r is AlreadyInstalled,
        LangAction::Skipped => r is Skipped,
        LangAction::PlatformUnsupported => r is PlatformUnsupported,
        LangAction::WillInstall(p) => exists|k: int| #[trigger] steps_ran(run, item.language, p.steps@, k, r),
    }
}

/// Runs a language's steps in order through `run`, stopping at the first
/// failure.
fn run_steps(
    l: Language,
    steps: &Vec<LangInstallSpec>,
    run: &impl Fn(Language, usize, usize, &LangInstallSpec) -> Result<(), String>,
) -> (r: LangResult)
    requires
        forall|a: Language, j: usize, n: usize, s: &LangInstallSpec| call_requires(*run, (a, j, n, s)),
    ensures
        exists|k: int| #[trigger] steps_ran(*run, l, steps@, k, r),
{
    let n = steps.len();
    let mut j: usize = 0;
    while j < n
        invariant
            j <= n,
            n == steps@.len(),
            forall|a: Language, i: usize, m: usize, s: &LangInstallSpec| call_requires(*run, (a, i, m, s)),
            forall|i: int|
                0 <= i < j ==> #[trigger] call_ensures(
                    *run,
                    (l, i as usize, n, &steps@[i]),
                    Ok::<(), String>(()),
                ),
        decreases n - j,
    {
        let out = run(l, j, n, &steps[j]);
        assert(call_ensures(*run, (l, j, n, &steps[j as int]), out));
        match out {
            Ok(u) => {
                assert(out == Ok::<(), String>(u));
                assert(u == ());
            },
            Err(m) => {
                let r = LangResult::Failed(m);
                assert(steps_ran(*run, l, steps@, j as int, r));
                return r;
            },
        }
        j = j + 1;
    }
    assert(steps_ran(*run, l, steps@, n as int, LangResult::Installed));
    LangResult::Installed
}

/// Runs the plan: each language to install has its steps run in order
/// through `run` (stopping at its first failing step), and every language
/// gets its result.
pub fn execute_plan(
    plan: &LanguageInstallPlan,
    run: &impl Fn(Language, usize, usize, &LangInstallSpec) -> Result<(), String>,
) -> (r: Vec<(Language, LangResult)>)
    requires
        forall|a: Language, j: usize, n: usize, s: &LangInstallSpec| call_requires(*run, (a, j, n, s)),
    ensures
        r@.len() == plan.items@.len(),
        forall|i: int|
            0 <= i < r@.len() ==> (#[trigger] r@[i]).0 == plan.items@[i].language && lang_result_ok(
                *run,
                plan.items@[i],
                r@[i].1,
            ),
{
    let mut results: Vec<(Language, LangResult)> = Vec::new();
    let mut i: usize = 0;
    while i < plan.items.len()
        invariant
            i <= plan.items@.len(),
            results@.len() == i,
            forall|a: Language, j: usize, n: usize, s: &LangInstallSpec| call_requires(*run, (a, j, n, s)),
            forall|k: int|
                0 <= k < i ==> (#[trigger] results@[k]).0 == plan.items@[k].language
                    && lang_result_ok(*run, plan.items@[k], results@[k].1),
        decreases plan.items@.len() - i,
    {
        let item = &plan.items[i];
        let result = match &item.action {
            LangAction::AlreadyInstalled => LangResult::AlreadyInstalled,
            LangAction::Skipped => LangResult::Skipped,
            LangAction::PlatformUnsupported => LangResult::PlatformUnsupported,
            LangAction::WillInstall(p) => run_steps(item.language, &p.steps, run),
        };
        results.push((item.language, result));
        i = i + 1;
    }
    results
}

/// The summary of the install results.
pub fn summary(results: &[(Language, LangResult)]) -> (r: String)
    ensures
        r@ == crate::install::summary_text(
            lang_result_names(results@, false),
            lang_result_names(results@, true),
        ),
{
    let installed = lang_names_where(results, false);
    let failed = lang_names_where(results, true);
    let mut s = String::from_str("\nSummary:\n");
    if installed.len() == 0 && failed.len() == 0 {
        s.append("  Nothing to install.\n");
    } else {
        let ghost head = s@;
        if installed.len() > 0 {
            s.append("  Installed:  ");
            let j = join(&installed, ", ");
            s.append(j.as_str());
            s.append("\n");
        }
        if failed.len() > 0 {
            s.append("  Failed:     ");
            let j = join(&failed, ", ");
            s.append(j.as_str());
            s.append("\n");
        }
        assert(s@ =~= head + (if installed@.len() > 0 {
            "  Installed:  "@ + join_spec(views(installed@), ", "@) + "\n"@
        } else {
            seq![]
        }) + (if failed@.len() > 0 {
            "  Failed:     "@ + join_spec(views(failed@), ", "@) + "\n"@
        } else {
            seq![]
        }));
    }
    s
}

/// Whether any language failed to install.
pub fn any_failed(results: &[(Language, LangResult)]) -> (r: bool)
    ensures
        r == (exists|i: int| 0 <= i < results@.len() && (#[trigger] results@[i]).1 is Failed),
{
    let mut i: usize = 0;
    while i < results.len()
        invariant
            i <= results.len(),
            forall|k: int| 0 <= k < i ==> !((#[trigger] results@[k]).1 is Failed),
        decreases results.len() - i,
    {
        if let LangResult::Failed(_) = &results[i].1 {
            assert(results@[i as int].1 is Failed);
            return true;
        }
        i = i + 1;
    }
    false
}

/// The reminder printed after node was installed through nvm.
pub const NVM_RESTART_NOTE: &'static str = "  Note: nvm was installed. Restart your shell (or open a new terminal) before running `nvm` or `node` so the PATH update takes effect.";

/// Whether node was installed in this run (nvm then needs a new shell session).
pub fn node_installed(results: &[(Language, LangResult)]) -> (r: bool)
    ensures
        r == (exists|i: int|
            0 <= i < results@.len() && (#[trigger] results@[i]).0 == Language::Node
                && results@[i].1 is Installed),
{
    let mut i: usize = 0;
    while i < results.len()
        invariant
            i <= results.len(),
            forall|k: int|
                0 <= k < i ==> !((#[trigger] results@[k]).0 == Language::Node && results@[k].1 is Installed),
        decreases results.len() - i,
    {
        if results[i].0 == Language::Node {
            if let LangResult::Installed = &results[i].1 {
                assert(results@[i as int].1 is Installed);
                return true;
            }
        }
        i = i + 1;
    }
    false
}

// --- CLI args ---

/// Arguments for `neon setup install-languages`.
#[derive(Debug)]
pub struct InstallLanguagesArgs {
    /// Print what would be done without doing it.
    pub dry_run: bool,
    /// Languages to skip (node, python, rust, go).
    pub skip: Vec<String>,
}

} // verus!
