//! `neon setup`: machine setup and environment configuration.  The `detect`,
//! `agent`, `pick-shell` and `pick-terminal` steps live here; the other
//! steps live in sub-modules.
pub mod packages;
pub mod languages;
pub mod diagnostics;
pub mod docker;
pub mod git_identity;
pub mod npm_token;
pub mod profile;
pub mod terminal_theme;

use vstd::prelude::*;
use vstd::string::*;

use crate::install::{str_views, Platform};
use crate::setup::languages::path_answer;
use crate::text::{
    contains, contains_spec, lines, lines_spec, lowercase, lowercase_of, owned, pad_right,
    pad_right_string, prefixed_lines, push_prefixed_lines, trim, trim_spec, views,
};

verus! {

// ============================================================
// detect: machine capabilities
// ============================================================

/// The operating system family.
#[derive(Debug, Clone, Copy, PartialEq, Eq, Structural)]
pub enum OsKind {
    Windows,
    Linux,
    MacOs,
    Unknown,
}

/// The operating system, and whether it is Linux under WSL.
pub struct OsInfo {
    pub kind: OsKind,
    pub is_wsl: bool,
}

/// One probed tool: whether it is on PATH and the version line it printed.
pub struct ToolPresence {
    pub name: String,
    pub found: bool,
    pub version: Option<String>,
}

/// What `neon setup detect` found on the machine.
pub struct CapabilityReport {
    pub os: OsInfo,
    pub arch: String,
    pub package_managers: Vec<String>,
    pub shells: Vec<String>,
    pub tools: Vec<ToolPresence>,
}

/// A lowercased kernel banner names Microsoft or WSL.
pub open spec fn names_wsl(lower: Seq<char>) -> bool {
    contains_spec(lower, "microsoft"@) || contains_spec(lower, "wsl"@)
}

/// `/proc/version` of a WSL kernel mentions Microsoft or WSL.
pub open spec fn proc_version_is_wsl(contents: Seq<char>) -> bool {
    names_wsl(lowercase_of(contents))
}

/// Whether an already lowercased kernel banner names Microsoft or WSL.
pub fn banner_names_wsl(lower: &str) -> (r: bool)
    ensures
        r == names_wsl(lower@),
{
    contains(lower, "microsoft") || contains(lower, "wsl")
}

/// Whether a `/proc/version` text is that of a WSL kernel (case-insensitive
/// `microsoft` or `wsl`).
pub fn is_wsl_kernel(contents: &str) -> (r: bool)
    ensures
        r == proc_version_is_wsl(contents@),
{
    let lower = lowercase(contents);
    banner_names_wsl(lower.as_str())
}

/// The OS information: WSL only on Linux, and only when `/proc/version`
/// could be read and names it.
pub fn os_info(kind: OsKind, proc_version: Option<&str>) -> (r: OsInfo)
    ensures
        r.kind == kind,
        r.is_wsl == (kind == OsKind::Linux && (proc_version matches Some(t)
            && proc_version_is_wsl(t@))),
{
    let is_wsl = match kind {
        OsKind::Linux => match proc_version {
            Some(t) => is_wsl_kernel(t),
            None => false,
        },
        _ => false,
    };
    OsInfo { kind, is_wsl }
}

/// The package managers looked for on each OS, in order.
pub open spec fn package_manager_candidates(kind: OsKind) -> Seq<Seq<char>> {
    match kind {
        OsKind::Windows => seq!["winget"@, "scoop"@, "choco"@],
        OsKind::Linux => seq!["apt"@, "apt-get"@, "brew"@],
        OsKind::MacOs => seq!["brew"@, "port"@],
        OsKind::Unknown => seq![],
    }
}

/// The shells looked for, in order.
pub open spec fn shell_candidates() -> Seq<Seq<char>> {
    seq!["pwsh"@, "powershell"@, "zsh"@, "bash"@, "fish"@]
}

/// The tools probed by `detect`, in order; each is asked `--version`.
pub open spec fn tool_names() -> Seq<Seq<char>> {
    seq![
        "git"@,
        "gh"@,
        "docker"@,
        "node"@,
        "pnpm"@,
        "npm"@,
        "cargo"@,
        "rustup"@,
        "python"@,
        "python3"@,
    ]
}

/// The candidates whose answer is `true`, in order.
pub open spec fn kept(cands: Seq<Seq<char>>, answers: Seq<bool>) -> Seq<Seq<char>>
    decreases cands.len(),
{
    if cands.len() == 0 {
        seq![]
    } else if answers[cands.len() - 1] {
        kept(cands.drop_last(), answers).push(cands.last())
    } else {
        kept(cands.drop_last(), answers)
    }
}

/// `kept` only reads the answers of the candidates it is given.
proof fn lemma_kept_prefix(cands: Seq<Seq<char>>, answers: Seq<bool>, more: Seq<bool>)
    requires
        answers.len() >= cands.len(),
        more.len() >= cands.len(),
        forall|i: int| 0 <= i < cands.len() ==> answers[i] == more[i],
    ensures
        kept(cands, answers) == kept(cands, more),
    decreases cands.len(),
{
    if cands.len() > 0 {
        lemma_kept_prefix(cands.drop_last(), answers, more);
    }
}

/// The candidates that `on_path` reports as present, asked in order.
fn filter_on_path(cands: &[&str], on_path: &impl Fn(&str) -> bool) -> (r: Vec<String>)
    requires
        forall|t: &str| call_requires(*on_path, (t,)),
    ensures
        exists|answers: Seq<bool>|
            answers.len() == cands@.len() && (forall|i: int|
                0 <= i < cands@.len() ==> path_answer(*on_path, cands@[i]@, #[trigger] answers[i]))
                && views(r@) == kept(str_views(cands@), answers),
{
    let mut out: Vec<String> = Vec::new();
    let ghost mut answers: Seq<bool> = seq![];
    let mut i: usize = 0;
    while i < cands.len()
        invariant
            i <= cands@.len(),
            answers.len() == i,
            forall|t: &str| call_requires(*on_path, (t,)),
            forall|j: int| 0 <= j < i ==> path_answer(*on_path, cands@[j]@, #[trigger] answers[j]),
            views(out@) == kept(str_views(cands@).subrange(0, i as int), answers),
        decreases cands@.len() - i,
    {
        let name = cands[i];
        let found = on_path(name);
        assert(call_ensures(*on_path, (name,), found));
        let ghost prev = answers;
        proof {
            answers = answers.push(found);
            let c = str_views(cands@).subrange(0, i + 1);
            assert(c.drop_last() =~= str_views(cands@).subrange(0, i as int));
            lemma_kept_prefix(c.drop_last(), prev, answers);
        }
        if found {
            let ghost before = out@;
            out.push(owned(name));
            assert(views(out@) =~= views(before).push(name@));
        }
        i = i + 1;
    }
    assert(str_views(cands@).subrange(0, cands@.len() as int) =~= str_views(cands@));
    out
}

/// The candidate package managers for an OS.
fn package_manager_list(kind: OsKind) -> (r: &'static [&'static str])
    ensures
        str_views(r@) == package_manager_candidates(kind),
{
    let r: &'static [&'static str] = match kind {
        OsKind::Windows => &["winget", "scoop", "choco"],
        OsKind::Linux => &["apt", "apt-get", "brew"],
        OsKind::MacOs => &["brew", "port"],
        OsKind::Unknown => &[],
    };
    assert(str_views(r@) =~= package_manager_candidates(kind));
    r
}

/// The package managers of the OS that `on_path` reports as present.
pub fn detect_package_managers(kind: OsKind, on_path: &impl Fn(&str) -> bool) -> (r: Vec<String>)
    requires
        forall|t: &str| call_requires(*on_path, (t,)),
    ensures
        exists|answers: Seq<bool>|
            answers.len() == package_manager_candidates(kind).len() && (forall|i: int|
                0 <= i < answers.len() ==> path_answer(
                    *on_path,
                    package_manager_candidates(kind)[i],
                    #[trigger] answers[i],
                )) && views(r@) == kept(package_manager_candidates(kind), answers),
{
    let cands = package_manager_list(kind);
    proof {
        assert forall|i: int| 0 <= i < cands@.len() implies cands@[i]@ == package_manager_candidates(
            kind,
        )[i] by {
            assert(str_views(cands@)[i] == cands@[i]@);
        }
    }
    filter_on_path(cands, on_path)
}

/// The shells that `on_path` reports as present.
pub fn detect_shells(on_path: &impl Fn(&str) -> bool) -> (r: Vec<String>)
    requires
        forall|t: &str| call_requires(*on_path, (t,)),
    ensures
        exists|answers: Seq<bool>|
            answers.len() == shell_candidates().len() && (forall|i: int|
                0 <= i < answers.len() ==> path_answer(
                    *on_path,
                    shell_candidates()[i],
                    #[trigger] answers[i],
                )) && views(r@) == kept(shell_candidates(), answers),
{
    let cands: &'static [&'static str] = &["pwsh", "powershell", "zsh", "bash", "fish"];
    assert(str_views(cands@) =~= shell_candidates());
    proof {
        assert forall|i: int| 0 <= i < cands@.len() implies cands@[i]@ == shell_candidates()[i] by {
            assert(str_views(cands@)[i] == cands@[i]@);
        }
    }
    filter_on_path(cands, on_path)
}

/// The version line a successful `<program> --version` run printed: the
/// first line of stdout (or of stderr when stdout is blank), trimmed;
/// nothing when that is empty.
pub open spec fn version_line_spec(stdout: Seq<char>, stderr: Seq<char>) -> Option<Seq<char>> {
    let text = if trim_spec(stdout).len() == 0 {
        stderr
    } else {
        stdout
    };
    let ls = lines_spec(trim_spec(text));
    let line = trim_spec(
        if ls.len() > 0 {
            ls[0]
        } else {
            seq![]
        },
    );
    if line.len() == 0 {
        None
    } else {
        Some(line)
    }
}

/// Extracts the version line from a successful probe's output.  Some tools
/// (Python 2 among them) print their version to stderr.
pub fn version_line(stdout: &str, stderr: &str) -> (r: Option<String>)
    ensures
        match r {
            Some(l) => version_line_spec(stdout@, stderr@) == Some(l@),
            None => version_line_spec(stdout@, stderr@) is None,
        },
{
    let t_out = trim(stdout);
    let text = if t_out.unicode_len() == 0 {
        trim(stderr)
    } else {
        t_out
    };
    let ls = lines(text.as_str());
    proof {
        crate::text::lemma_lines_no_newline(text@);
    }
    let line = if ls.len() > 0 {
        trim(ls[0].as_str())
    } else {
        String::new()
    };
    proof {
        if ls@.len() > 0 {
            assert(views(ls@)[0] == ls@[0]@);
        }
    }
    if line.unicode_len() == 0 {
        None
    } else {
        Some(line)
    }
}

/// The probe answered `r` for `<name> <args>`.
pub open spec fn probe_answer<P: Fn(&str, &[&str]) -> Option<String>>(
    probe: P,
    name: Seq<char>,
    args: Seq<Seq<char>>,
    r: Option<String>,
) -> bool {
    exists|t: &str, a: &[&str]|
        t@ == name && str_views(a@) == args && #[trigger] call_ensures(probe, (t, a), r)
}

/// One tool entry: found as `on_path` says; its version asked only when found.
pub open spec fn tool_entry_ok<F: Fn(&str) -> bool, P: Fn(&str, &[&str]) -> Option<String>>(
    t: ToolPresence,
    name: Seq<char>,
    on_path: F,
    probe: P,
) -> bool {
    &&& t.name@ == name
    &&& path_answer(on_path, name, t.found)
    &&& !t.found ==> t.version is None
    &&& t.found ==> probe_answer(probe, name, seq!["--version"@], t.version)
}

/// Probes one tool.
pub(crate) fn probe_tool(
    name: &str,
    on_path: &impl Fn(&str) -> bool,
    probe: &impl Fn(&str, &[&str]) -> Option<String>,
) -> (r: ToolPresence)
    requires
        forall|t: &str| call_requires(*on_path, (t,)),
        forall|t: &str, a: &[&str]| call_requires(*probe, (t, a)),
    ensures
        tool_entry_ok(r, name@, *on_path, *probe),
{
    let found = on_path(name);
    assert(call_ensures(*on_path, (name,), found));
    let version = if found {
        let args: &[&str] = &["--version"];
        let v = probe(name, args);
        assert(call_ensures(*probe, (name, args), v));
        assert(str_views(args@) =~= seq!["--version"@]);
        v
    } else {
        None
    };
    ToolPresence { name: owned(name), found, version }
}

/// Probes each tool of `tool_names` in order: presence on PATH, then the
/// version of those present.
pub fn detect_tools(
    on_path: &impl Fn(&str) -> bool,
    probe: &impl Fn(&str, &[&str]) -> Option<String>,
) -> (r: Vec<ToolPresence>)
    requires
        forall|t: &str| call_requires(*on_path, (t,)),
        forall|t: &str, a: &[&str]| call_requires(*probe, (t, a)),
    ensures
        r@.len() == tool_names().len(),
        forall|i: int|
            0 <= i < r@.len() ==> tool_entry_ok(#[trigger] r@[i], tool_names()[i], *on_path, *probe),
{
    let names: &'static [&'static str] = &[
        "git",
        "gh",
        "docker",
        "node",
        "pnpm",
        "npm",
        "cargo",
        "rustup",
        "python",
        "python3",
    ];
    assert(str_views(names@) =~= tool_names());
    let mut out: Vec<ToolPresence> = Vec::new();
    let mut i: usize = 0;
    while i < names.len()
        invariant
            i <= names@.len(),
            names@.len() == tool_names().len(),
            str_views(names@) == tool_names(),
            out@.len() == i,
            forall|t: &str| call_requires(*on_path, (t,)),
            forall|t: &str, a: &[&str]| call_requires(*probe, (t, a)),
            forall|j: int|
                0 <= j < i ==> tool_entry_ok(#[trigger] out@[j], tool_names()[j], *on_path, *probe),
        decreases names@.len() - i,
    {
        let t = probe_tool(names[i], on_path, probe);
        assert(str_views(names@)[i as int] == names@[i as int]@);
        out.push(t);
        i = i + 1;
    }
    out
}

/// Everything `detect` reports, with PATH lookups and version probes made
/// by the given functions.
pub fn detect_with(
    os: OsInfo,
    arch: String,
    on_path: &impl Fn(&str) -> bool,
    probe: &impl Fn(&str, &[&str]) -> Option<String>,
) -> (r: CapabilityReport)
    requires
        forall|t: &str| call_requires(*on_path, (t,)),
        forall|t: &str, a: &[&str]| call_requires(*probe, (t, a)),
    ensures
        r.os == os,
        r.arch == arch,
        exists|answers: Seq<bool>|
            answers.len() == package_manager_candidates(os.kind).len() && (forall|i: int|
                0 <= i < answers.len() ==> path_answer(
                    *on_path,
                    package_manager_candidates(os.kind)[i],
                    #[trigger] answers[i],
                )) && views(r.package_managers@) == kept(
                package_manager_candidates(os.kind),
                answers,
            ),
        exists|answers: Seq<bool>|
            answers.len() == shell_candidates().len() && (forall|i: int|
                0 <= i < answers.len() ==> path_answer(
                    *on_path,
                    shell_candidates()[i],
                    #[trigger] answers[i],
                )) && views(r.shells@) == kept(shell_candidates(), answers),
        r.tools@.len() == tool_names().len(),
        forall|i: int|
            0 <= i < r.tools@.len() ==> tool_entry_ok(
                #[trigger] r.tools@[i],
                tool_names()[i],
                *on_path,
                *probe,
            ),
{
    let kind = os.kind;
    let package_managers = detect_package_managers(kind, on_path);
    let shells = detect_shells(on_path);
    let tools = detect_tools(on_path, probe);
    CapabilityReport { os, arch, package_managers, shells, tools }
}

// --- Report ---

/// The display name of an OS family.
pub open spec fn os_kind_label(kind: OsKind) -> Seq<char> {
    match kind {
        OsKind::Windows => "Windows"@,
        OsKind::Linux => "Linux"@,
        OsKind::MacOs => "macOS"@,
        OsKind::Unknown => "Unknown"@,
    }
}

/// `<kind> (WSL)` or `<kind> (not WSL)`.
pub open spec fn os_label_spec(os: OsInfo) -> Seq<char> {
    os_kind_label(os.kind) + if os.is_wsl {
        " (WSL)"@
    } else {
        " (not WSL)"@
    }
}

/// The OS line's value.
pub fn os_label(os: &OsInfo) -> (r: String)
    ensures
        r@ == os_label_spec(*os),
{
    let mut s = String::from_str(
        match os.kind {
            OsKind::Windows => "Windows",
            OsKind::Linux => "Linux",
            OsKind::MacOs => "macOS",
            OsKind::Unknown => "Unknown",
        },
    );
    s.append(
        if os.is_wsl {
            " (WSL)"
        } else {
            " (not WSL)"
        },
    );
    s
}

/// A list section: one check-marked line per item, or `(none detected)`.
pub open spec fn found_lines(items: Seq<Seq<char>>) -> Seq<char> {
    if items.len() == 0 {
        "    (none detected)\n"@
    } else {
        prefixed_lines("    \u{2713} "@, items)
    }
}

/// One tool line: check mark, name padded to 10, version; or cross and dash.
pub open spec fn tool_line(t: ToolPresence) -> Seq<char> {
    if t.found {
        "    \u{2713} "@ + pad_right(t.name@, 10) + " "@ + match t.version {
            Some(v) => v@,
            None => seq![],
        } + "\n"@
    } else {
        "    \u{2717} "@ + pad_right(t.name@, 10) + " \u{2014}\n"@
    }
}

/// The tool lines, in order.
pub open spec fn tool_lines(tools: Seq<ToolPresence>) -> Seq<char>
    decreases tools.len(),
{
    if tools.len() == 0 {
        seq![]
    } else {
        tool_lines(tools.drop_last()) + tool_line(tools.last())
    }
}

/// The text of `neon setup detect`.
pub open spec fn report_text(r: CapabilityReport) -> Seq<char> {
    "=== neon setup detect ===\n\n  OS:       "@ + os_label_spec(r.os) + "\n  Arch:     "@ + r.arch@
        + "\n\n  Package managers:\n"@ + found_lines(views(r.package_managers@))
        + "\n  Shells:\n"@ + found_lines(views(r.shells@)) + "\n  Tools:\n"@ + tool_lines(
        r.tools@,
    )
}

/// Appends a found-list section.
fn push_found_lines(s: &mut String, items: &Vec<String>)
    ensures
        final(s)@ == old(s)@ + found_lines(views(items@)),
{
    if items.len() == 0 {
        s.append("    (none detected)\n");
    } else {
        push_prefixed_lines(s, "    \u{2713} ", items);
    }
}

/// Appends one tool line.
fn push_tool_line(s: &mut String, t: &ToolPresence)
    ensures
        final(s)@ == old(s)@ + tool_line(*t),
{
    let name = pad_right_string(t.name.as_str(), 10);
    if t.found {
        s.append("    \u{2713} ");
        s.append(name.as_str());
        s.append(" ");
        match &t.version {
            Some(v) => s.append(v.as_str()),
            None => {},
        }
        s.append("\n");
    } else {
        s.append("    \u{2717} ");
        s.append(name.as_str());
        s.append(" \u{2014}\n");
    }
    assert(final(s)@ =~= old(s)@ + tool_line(*t));
}

/// Renders the capability report.
pub fn format_report(report: &CapabilityReport) -> (r: String)
    ensures
        r@ == report_text(*report),
{
    let mut s = String::from_str("=== neon setup detect ===\n\n  OS:       ");
    let label = os_label(&report.os);
    s.append(label.as_str());
    s.append("\n  Arch:     ");
    s.append(report.arch.as_str());
    s.append("\n\n  Package managers:\n");
    push_found_lines(&mut s, &report.package_managers);
    s.append("\n  Shells:\n");
    push_found_lines(&mut s, &report.shells);
    s.append("\n  Tools:\n");
    let ghost head = s@;
    let mut i: usize = 0;
    while i < report.tools.len()
        invariant
            i <= report.tools@.len(),
            s@ == head + tool_lines(report.tools@.subrange(0, i as int)),
        decreases report.tools@.len() - i,
    {
        push_tool_line(&mut s, &report.tools[i]);
        proof {
            let t = report.tools@.subrange(0, i + 1);
            assert(t.drop_last() =~= report.tools@.subrange(0, i as int));
        }
        i = i + 1;
    }
    assert(report.tools@.subrange(0, report.tools@.len() as int) =~= report.tools@);
    s
}

// ============================================================
// agent bootstrap
// ============================================================

/// The `local-config.md` written when missing: machine-local settings that
/// the user fills in (never committed).
pub const LOCAL_CONFIG_TEMPLATE: &'static str = "# Machine-local config (NOT committed)\n\n- PLANNING_VAULT_ROOT: <PLANNING_VAULT_ROOT>\n- WIKI_ROOT: <WIKI_ROOT>\n- ISSUE_TRACKER: linear\n- LINEAR_TEAM: <LINEAR_TEAM>\n- LINEAR_PROJECT: <LINEAR_PROJECT>\n- HANDOFF_TARGET: obsidian\n- LOCAL_SKILLS_HOME: <LOCAL_SKILLS_HOME>\n";

/// Arguments of `neon setup agent`.
pub struct SetupAgentArgs {
    /// Path to the agent-config clone; probed from the usual places when absent.
    pub agent_config: Option<String>,
    /// Show what would happen without making changes.
    pub dry_run: bool,
}

/// One progress line: `[icon] label: detail`, marked `[dry-run]` in a dry run.
pub open spec fn step_line_spec(dry_run: bool, icon: Seq<char>, label: Seq<char>, detail: Seq<char>) -> Seq<char> {
    (if dry_run {
        "[dry-run] ["@
    } else {
        "["@
    }) + icon + "] "@ + label + ": "@ + detail
}

/// A progress line of `neon setup agent`.
pub fn step_line(dry_run: bool, icon: &str, label: &str, detail: &str) -> (r: String)
    ensures
        r@ == step_line_spec(dry_run, icon@, label@, detail@),
{
    let mut s = String::from_str(
        if dry_run {
            "[dry-run] ["
        } else {
            "["
        },
    );
    s.append(icon);
    s.append("] ");
    s.append(label);
    s.append(": ");
    s.append(detail);
    s
}

/// The places looked at for the agent-config clone, as path components
/// under the home directory, in order.
pub open spec fn agent_config_candidates_spec() -> Seq<Seq<Seq<char>>> {
    seq![seq![".agent-config"@], seq!["agent-config"@], seq!["projects"@, "me"@, "agent-config"@]]
}

/// The candidate locations of the agent-config clone, as path components
/// under the home directory.
pub fn agent_config_candidates() -> (r: Vec<Vec<String>>)
    ensures
        r@.len() == 3,
        forall|i: int| 0 <= i < 3 ==> views(#[trigger] r@[i]@) == agent_config_candidates_spec()[i],
{
    let mut a: Vec<String> = Vec::new();
    a.push(owned(".agent-config"));
    let mut b: Vec<String> = Vec::new();
    b.push(owned("agent-config"));
    let mut c: Vec<String> = Vec::new();
    c.push(owned("projects"));
    c.push(owned("me"));
    c.push(owned("agent-config"));
    assert(views(a@) =~= seq![".agent-config"@]);
    assert(views(b@) =~= seq!["agent-config"@]);
    assert(views(c@) =~= seq!["projects"@, "me"@, "agent-config"@]);
    let mut r: Vec<Vec<String>> = Vec::new();
    r.push(a);
    r.push(b);
    r.push(c);
    r
}

/// Index of the first candidate that exists, if any.
pub fn first_existing(exists: &[bool]) -> (r: Option<usize>)
    ensures
        match r {
            Some(i) => i < exists@.len() && exists@[i as int] && forall|j: int|
                0 <= j < i ==> !#[trigger] exists@[j],
            None => forall|j: int| 0 <= j < exists@.len() ==> !#[trigger] exists@[j],
        },
{
    let mut i: usize = 0;
    while i < exists.len()
        invariant
            i <= exists@.len(),
            forall|j: int| 0 <= j < i ==> !#[trigger] exists@[j],
        decreases exists@.len() - i,
    {
        if exists[i] {
            return Some(i);
        }
        i = i + 1;
    }
    None
}

/// The error for a `--agent-config` path that is not a directory.
pub open spec fn config_not_dir_message(path: Seq<char>) -> Seq<char> {
    "agent-config path \""@ + path
        + "\" is not an existing directory.\n\n`agent-config` is a personal repo that holds your shared agent skills,\nagents, and global AGENTS.md.  Clone it first:\n\n    git clone https://github.com/<you>/agent-config ~/agent-config\n\nThen re-run:  neon setup agent --agent-config ~/agent-config"@
}

/// The error when no agent-config clone was found.
pub open spec fn config_not_found_message() -> Seq<char> {
    "`agent-config` was not found at any of the default locations:\n  ~/.agent-config\n  ~/agent-config\n  ~/projects/me/agent-config\n\n`agent-config` is a personal repo that holds your shared agent skills,\nagents, and global AGENTS.md.  Clone it first:\n\n    git clone https://github.com/<you>/agent-config ~/agent-config\n\nThen re-run:  neon setup agent --agent-config ~/agent-config"@
}

/// What `neon setup agent` does about the agent-config location.
pub enum ConfigResolution {
    /// Go on with this path; print the note first when there is one.
    Use { path: String, note: Option<String> },
    /// Dry run: print this and stop successfully.
    Stop(String),
    /// Fail with this message.
    Fail(String),
}

/// Decides on the agent-config location: an explicit path must be an
/// existing directory; otherwise the first existing candidate is used.  In
/// a dry run a missing location is reported and the run stops
/// successfully; otherwise it is an error.
pub fn resolve_agent_config(
    explicit: Option<String>,
    explicit_is_dir: bool,
    found: Option<String>,
    dry_run: bool,
) -> (r: ConfigResolution)
    ensures
        match explicit {
            Some(p) => if explicit_is_dir {
                r matches ConfigResolution::Use { path, note } && path@ == p@ && note is None
            } else if dry_run {
                r matches ConfigResolution::Stop(t) && t@ == "[dry-run] [!] agent-config: "@
                    + config_not_dir_message(p@) + "\n"@
            } else {
                r matches ConfigResolution::Fail(t) && t@ == config_not_dir_message(p@)
            },
            None => match found {
                Some(p) => r matches ConfigResolution::Use { path, note } && path@ == p@ && (
                note matches Some(n) && n@ == (if dry_run {
                    "[dry-run] [~] agent-config: found at "@
                } else {
                    "  Found agent-config at: "@
                }) + p@),
                None => if dry_run {
                    r matches ConfigResolution::Stop(t) && t@ == "[dry-run] [!] agent-config: not found\n"@
                        + prefixed_lines("[dry-run]     "@, lines_spec(config_not_found_message()))
                } else {
                    r matches ConfigResolution::Fail(t) && t@ == config_not_found_message()
                },
            },
        },
{
    match explicit {
        Some(p) => {
            if explicit_is_dir {
                return ConfigResolution::Use { path: p, note: None };
            }
            let mut msg = String::from_str("agent-config path \"");
            msg.append(p.as_str());
            msg.append(
                "\" is not an existing directory.\n\n`agent-config` is a personal repo that holds your shared agent skills,\nagents, and global AGENTS.md.  Clone it first:\n\n    git clone https://github.com/<you>/agent-config ~/agent-config\n\nThen re-run:  neon setup agent --agent-config ~/agent-config",
            );
            if dry_run {
                let mut t = String::from_str("[dry-run] [!] agent-config: ");
                t.append(msg.as_str());
                t.append("\n");
                ConfigResolution::Stop(t)
            } else {
                ConfigResolution::Fail(msg)
            }
        },
        None => match found {
            Some(p) => {
                let mut n = String::from_str(
                    if dry_run {
                        "[dry-run] [~] agent-config: found at "
                    } else {
                        "  Found agent-config at: "
                    },
                );
                n.append(p.as_str());
                ConfigResolution::Use { path: p, note: Some(n) }
            },
            None => {
                let msg = String::from_str(
                    "`agent-config` was not found at any of the default locations:\n  ~/.agent-config\n  ~/agent-config\n  ~/projects/me/agent-config\n\n`agent-config` is a personal repo that holds your shared agent skills,\nagents, and global AGENTS.md.  Clone it first:\n\n    git clone https://github.com/<you>/agent-config ~/agent-config\n\nThen re-run:  neon setup agent --agent-config ~/agent-config",
                );
                if dry_run {
                    let mut t = String::from_str("[dry-run] [!] agent-config: not found\n");
                    let ls = lines(msg.as_str());
                    push_prefixed_lines(&mut t, "[dry-run]     ", &ls);
                    ConfigResolution::Stop(t)
                } else {
                    ConfigResolution::Fail(msg)
                }
            },
        },
    }
}

/// What to do about a junction (symlink on Unix) that should point at a
/// directory of agent-config.
#[derive(Debug, Clone, Copy, PartialEq, Eq, Structural)]
pub enum JunctionStep {
    /// It already points at the target.
    AlreadyLinked,
    /// Something else is there: warn and leave it for manual review.
    Occupied,
    /// Dry run: it would be created.
    WouldCreate,
    /// Create it.
    Create,
}

/// The junction step for what is at the link's path: nothing there is
/// created (or would be, in a dry run); a correct link is kept; anything
/// else is left alone.
pub open spec fn junction_plan(exists: bool, linked: bool, dry_run: bool) -> JunctionStep {
    if exists {
        if linked {
            JunctionStep::AlreadyLinked
        } else {
            JunctionStep::Occupied
        }
    } else if dry_run {
        JunctionStep::WouldCreate
    } else {
        JunctionStep::Create
    }
}

/// Decides on a junction from what is at its path.
pub fn junction_step(exists: bool, linked: bool, dry_run: bool) -> (r: JunctionStep)
    ensures
        r == junction_plan(exists, linked, dry_run),
{
    if exists {
        if linked {
            JunctionStep::AlreadyLinked
        } else {
            JunctionStep::Occupied
        }
    } else if dry_run {
        JunctionStep::WouldCreate
    } else {
        JunctionStep::Create
    }
}

/// The progress line of a junction step (for `Create`, after the creation).
pub open spec fn junction_line_spec(
    step: JunctionStep,
    label: Seq<char>,
    link: Seq<char>,
    source: Seq<char>,
    dry_run: bool,
) -> Seq<char> {
    match step {
        JunctionStep::AlreadyLinked => step_line_spec(
            dry_run,
            "\u{2713}"@,
            label,
            link + " \u{2192} "@ + source + "  (already linked)"@,
        ),
        JunctionStep::Occupied => step_line_spec(
            dry_run,
            "!"@,
            label,
            link
                + " exists but is not a junction to the expected target -- skipping (manual review needed)"@,
        ),
        JunctionStep::WouldCreate => step_line_spec(
            dry_run,
            "\u{2713}"@,
            label,
            link + " \u{2192} "@ + source + "  (would create)"@,
        ),
        JunctionStep::Create => step_line_spec(
            dry_run,
            "\u{2713}"@,
            label,
            link + " \u{2192} "@ + source + "  (created)"@,
        ),
    }
}

/// The progress line of a junction step.
pub fn junction_line(step: JunctionStep, label: &str, link: &str, source: &str, dry_run: bool) -> (r:
    String)
    ensures
        r@ == junction_line_spec(step, label@, link@, source@, dry_run),
{
    let mut detail = String::from_str(link);
    match step {
        JunctionStep::Occupied => {
            detail.append(
                " exists but is not a junction to the expected target -- skipping (manual review needed)",
            );
            step_line(dry_run, "!", label, detail.as_str())
        },
        _ => {
            detail.append(" \u{2192} ");
            detail.append(source);
            detail.append(
                match step {
                    JunctionStep::AlreadyLinked => "  (already linked)",
                    JunctionStep::WouldCreate => "  (would create)",
                    _ => "  (created)",
                },
            );
            step_line(dry_run, "\u{2713}", label, detail.as_str())
        },
    }
}

/// What to do about a file copied from agent-config when missing.
#[derive(Debug, Clone, Copy, PartialEq, Eq, Structural)]
pub enum CopyStep {
    /// agent-config has no such file.
    NoSource,
    /// The destination exists already.
    AlreadyExists,
    /// Dry run: it would be copied.
    WouldCopy,
    /// Copy it.
    Copy,
}

/// The copy step: copied only when the source exists and the destination
/// does not (and not in a dry run).
pub open spec fn copy_plan(source_exists: bool, dest_exists: bool, dry_run: bool) -> CopyStep {
    if !source_exists {
        CopyStep::NoSource
    } else if dest_exists {
        CopyStep::AlreadyExists
    } else if dry_run {
        CopyStep::WouldCopy
    } else {
        CopyStep::Copy
    }
}

/// Decides on a file copy.
pub fn copy_step(source_exists: bool, dest_exists: bool, dry_run: bool) -> (r: CopyStep)
    ensures
        r == copy_plan(source_exists, dest_exists, dry_run),
{
    if !source_exists {
        CopyStep::NoSource
    } else if dest_exists {
        CopyStep::AlreadyExists
    } else if dry_run {
        CopyStep::WouldCopy
    } else {
        CopyStep::Copy
    }
}

/// The progress line of a copy step (for `Copy`, after the copy).
pub open spec fn copy_line_spec(step: CopyStep, label: Seq<char>, dry_run: bool) -> Seq<char> {
    match step {
        CopyStep::NoSource => step_line_spec(
            dry_run,
            "~"@,
            label,
            "skipped (source not in agent-config)"@,
        ),
        CopyStep::AlreadyExists => step_line_spec(dry_run, "~"@, label, "skipped (already exists)"@),
        CopyStep::WouldCopy => step_line_spec(dry_run, "\u{2713}"@, label, "would copy"@),
        CopyStep::Copy => step_line_spec(dry_run, "\u{2713}"@, label, "copied"@),
    }
}

/// The progress line of a copy step.
pub fn copy_line(step: CopyStep, label: &str, dry_run: bool) -> (r: String)
    ensures
        r@ == copy_line_spec(step, label@, dry_run),
{
    match step {
        CopyStep::NoSource => step_line(dry_run, "~", label, "skipped (source not in agent-config)"),
        CopyStep::AlreadyExists => step_line(dry_run, "~", label, "skipped (already exists)"),
        CopyStep::WouldCopy => step_line(dry_run, "\u{2713}", label, "would copy"),
        CopyStep::Copy => step_line(dry_run, "\u{2713}", label, "copied"),
    }
}

/// What to do about `local-config.md`.
#[derive(Debug, Clone, Copy, PartialEq, Eq, Structural)]
pub enum LocalConfigStep {
    /// It exists; the user manages it.
    Keep,
    /// Dry run: it would be created from the template.
    WouldCreate,
    /// Create it from the template.
    Create,
}

/// The `local-config.md` step: an existing file is the user's and is kept.
pub open spec fn local_config_plan(exists: bool, dry_run: bool) -> LocalConfigStep {
    if exists {
        LocalConfigStep::Keep
    } else if dry_run {
        LocalConfigStep::WouldCreate
    } else {
        LocalConfigStep::Create
    }
}

/// Decides on `local-config.md`.
pub fn local_config_step(exists: bool, dry_run: bool) -> (r: LocalConfigStep)
    ensures
        r == local_config_plan(exists, dry_run),
{
    if exists {
        LocalConfigStep::Keep
    } else if dry_run {
        LocalConfigStep::WouldCreate
    } else {
        LocalConfigStep::Create
    }
}

/// The progress line of the `local-config.md` step (for `Create`, after writing).
pub open spec fn local_config_line_spec(step: LocalConfigStep, dry_run: bool) -> Seq<char> {
    match step {
        LocalConfigStep::Keep => step_line_spec(
            dry_run,
            "~"@,
            "local-config.md"@,
            "skipped (already exists -- user manages this file)"@,
        ),
        LocalConfigStep::WouldCreate => step_line_spec(
            dry_run,
            "\u{2713}"@,
            "local-config.md"@,
            "would create (fill in your values)"@,
        ),
        LocalConfigStep::Create => step_line_spec(
            dry_run,
            "\u{2713}"@,
            "local-config.md"@,
            "created (fill in your values)"@,
        ),
    }
}

/// The progress line of the `local-config.md` step.
pub fn local_config_line(step: LocalConfigStep, dry_run: bool) -> (r: String)
    ensures
        r@ == local_config_line_spec(step, dry_run),
{
    match step {
        LocalConfigStep::Keep => step_line(
            dry_run,
            "~",
            "local-config.md",
            "skipped (already exists -- user manages this file)",
        ),
        LocalConfigStep::WouldCreate => step_line(
            dry_run,
            "\u{2713}",
            "local-config.md",
            "would create (fill in your values)",
        ),
        LocalConfigStep::Create => step_line(
            dry_run,
            "\u{2713}",
            "local-config.md",
            "created (fill in your values)",
        ),
    }
}

/// What to do about the skill sync script.
#[derive(Debug, Clone, Copy, PartialEq, Eq, Structural)]
pub enum SyncStep {
    /// Only Windows has a sync script.
    NotWindows,
    /// agent-config has no `sync-skills.ps1`.
    NoScript,
    /// Dry run: it would run.
    WouldRun,
    /// Run it with `pwsh`.
    Run,
}

/// The skill-sync step: the script runs on Windows when it exists.
pub open spec fn sync_plan(platform: Platform, script_exists: bool, dry_run: bool) -> SyncStep {
    if platform != Platform::Windows {
        SyncStep::NotWindows
    } else if !script_exists {
        SyncStep::NoScript
    } else if dry_run {
        SyncStep::WouldRun
    } else {
        SyncStep::Run
    }
}

/// Decides on the skill sync.
pub fn sync_step(platform: Platform, script_exists: bool, dry_run: bool) -> (r: SyncStep)
    ensures
        r == sync_plan(platform, script_exists, dry_run),
{
    if platform != Platform::Windows {
        SyncStep::NotWindows
    } else if !script_exists {
        SyncStep::NoScript
    } else if dry_run {
        SyncStep::WouldRun
    } else {
        SyncStep::Run
    }
}

/// The progress line of the skill sync (for `Run`, after it succeeded).
pub open spec fn sync_line_spec(step: SyncStep, dry_run: bool) -> Seq<char> {
    match step {
        SyncStep::NotWindows => step_line_spec(
            dry_run,
            "~"@,
            "skill sync"@,
            "skipped (no sync script on non-Windows)"@,
        ),
        SyncStep::NoScript => step_line_spec(
            dry_run,
            "~"@,
            "skill sync"@,
            "skipped (sync-skills.ps1 not found in agent-config)"@,
        ),
        SyncStep::WouldRun => step_line_spec(
            dry_run,
            "\u{2713}"@,
            "skill sync"@,
            "would run sync-skills.ps1"@,
        ),
        SyncStep::Run => step_line_spec(dry_run, "\u{2713}"@, "skill sync"@, "ran sync-skills.ps1"@),
    }
}

/// The progress line of the skill sync.
pub fn sync_line(step: SyncStep, dry_run: bool) -> (r: String)
    ensures
        r@ == sync_line_spec(step, dry_run),
{
    match step {
        SyncStep::NotWindows => step_line(
            dry_run,
            "~",
            "skill sync",
            "skipped (no sync script on non-Windows)",
        ),
        SyncStep::NoScript => step_line(
            dry_run,
            "~",
            "skill sync",
            "skipped (sync-skills.ps1 not found in agent-config)",
        ),
        SyncStep::WouldRun => step_line(dry_run, "\u{2713}", "skill sync", "would run sync-skills.ps1"),
        SyncStep::Run => step_line(dry_run, "\u{2713}", "skill sync", "ran sync-skills.ps1"),
    }
}

/// A dry run of `neon setup agent` changes nothing: no step creates a
/// link, copies a file, writes `local-config.md` or runs the sync script,
/// whatever is found on disk.
pub proof fn law_agent_dry_run_changes_nothing(
    exists: bool,
    linked: bool,
    source_exists: bool,
    dest_exists: bool,
    platform: Platform,
    script_exists: bool,
)
    ensures
        junction_plan(exists, linked, true) != JunctionStep::Create,
        copy_plan(source_exists, dest_exists, true) != CopyStep::Copy,
        local_config_plan(dest_exists, true) != LocalConfigStep::Create,
        sync_plan(platform, script_exists, true) != SyncStep::Run,
{
}

/// Running `neon setup agent` again after a run that made every change
/// changes nothing more: a link in place, a copied file and an existing
/// `local-config.md` are kept.
pub proof fn law_agent_steps_idempotent(dry_run: bool)
    ensures
        junction_plan(true, true, dry_run) == JunctionStep::AlreadyLinked,
        copy_plan(true, true, dry_run) == CopyStep::AlreadyExists,
        local_config_plan(true, dry_run) == LocalConfigStep::Keep,
{
}

// ============================================================
// pick-shell / pick-terminal
// ============================================================

/// The preferred-shell choices of `neon setup pick-shell`.
#[derive(Debug, Clone, Copy, PartialEq, Eq, Structural)]
pub enum ShellChoice {
    /// PowerShell 7 (`pwsh`), Windows primary.
    Powershell7,
    /// Windows Subsystem for Linux, Windows secondary.
    Wsl,
    /// Z shell, Unix primary.
    Zsh,
    /// Bash, Unix secondary.
    Bash,
}

/// The canonical string of a shell choice, as `setup.toml` stores it.
pub open spec fn shell_str(c: ShellChoice) -> Seq<char> {
    match c {
        ShellChoice::Powershell7 => "powershell7"@,
        ShellChoice::Wsl => "wsl"@,
        ShellChoice::Zsh => "zsh"@,
        ShellChoice::Bash => "bash"@,
    }
}

/// The display label of a shell choice.
pub open spec fn shell_label(c: ShellChoice) -> Seq<char> {
    match c {
        ShellChoice::Powershell7 => "PowerShell 7"@,
        ShellChoice::Wsl => "WSL"@,
        ShellChoice::Zsh => "zsh"@,
        ShellChoice::Bash => "bash"@,
    }
}

/// The shell choices offered on a platform, in prompt order.
pub open spec fn shell_choices(platform: Platform) -> Seq<ShellChoice> {
    if platform == Platform::Windows {
        seq![ShellChoice::Powershell7, ShellChoice::Wsl]
    } else {
        seq![ShellChoice::Zsh, ShellChoice::Bash]
    }
}

impl ShellChoice {
    /// The canonical string stored in `setup.toml` and printed to the user.
    pub fn as_str(self) -> (r: &'static str)
        ensures
            r@ == shell_str(self),
    {
        match self {
            ShellChoice::Powershell7 => "powershell7",
            ShellChoice::Wsl => "wsl",
            ShellChoice::Zsh => "zsh",
            ShellChoice::Bash => "bash",
        }
    }

    /// The human-readable label.
    pub fn display_name(self) -> (r: &'static str)
        ensures
            r@ == shell_label(self),
    {
        match self {
            ShellChoice::Powershell7 => "PowerShell 7",
            ShellChoice::Wsl => "WSL",
            ShellChoice::Zsh => "zsh",
            ShellChoice::Bash => "bash",
        }
    }

    /// The choices offered on `platform`: PowerShell 7 and WSL on Windows,
    /// zsh and bash elsewhere.
    pub fn platform_choices(platform: Platform) -> (r: Vec<ShellChoice>)
        ensures
            r@ == shell_choices(platform),
    {
        let mut v: Vec<ShellChoice> = Vec::new();
        if platform == Platform::Windows {
            v.push(ShellChoice::Powershell7);
            v.push(ShellChoice::Wsl);
        } else {
            v.push(ShellChoice::Zsh);
            v.push(ShellChoice::Bash);
        }
        assert(v@ =~= shell_choices(platform));
        v
    }
}

/// The preferred-terminal choices of `neon setup pick-terminal`.
#[derive(Debug, Clone, Copy, PartialEq, Eq, Structural)]
pub enum TerminalChoice {
    /// Windows Terminal, on Windows.
    WindowsTerminal,
    /// iTerm2, on macOS.
    Iterm2,
    /// GNOME Terminal, on Linux.
    GnomeTerminal,
}

/// The canonical string of a terminal choice, as `setup.toml` stores it.
pub open spec fn terminal_str(c: TerminalChoice) -> Seq<char> {
    match c {
        TerminalChoice::WindowsTerminal => "windows-terminal"@,
        TerminalChoice::Iterm2 => "iterm2"@,
        TerminalChoice::GnomeTerminal => "gnome-terminal"@,
    }
}

/// The display label of a terminal choice.
pub open spec fn terminal_label(c: TerminalChoice) -> Seq<char> {
    match c {
        TerminalChoice::WindowsTerminal => "Windows Terminal"@,
        TerminalChoice::Iterm2 => "iTerm2"@,
        TerminalChoice::GnomeTerminal => "GNOME Terminal"@,
    }
}

/// The terminal choices offered on a platform.
pub open spec fn terminal_choices(platform: Platform) -> Seq<TerminalChoice> {
    if platform == Platform::Windows {
        seq![TerminalChoice::WindowsTerminal]
    } else if platform == Platform::MacOs {
        seq![TerminalChoice::Iterm2]
    } else {
        seq![TerminalChoice::GnomeTerminal]
    }
}

impl TerminalChoice {
    /// The canonical string stored in `setup.toml` and printed to the user.
    pub fn as_str(self) -> (r: &'static str)
        ensures
            r@ == terminal_str(self),
    {
        match self {
            TerminalChoice::WindowsTerminal => "windows-terminal",
            TerminalChoice::Iterm2 => "iterm2",
            TerminalChoice::GnomeTerminal => "gnome-terminal",
        }
    }

    /// The human-readable label.
    pub fn display_name(self) -> (r: &'static str)
        ensures
            r@ == terminal_label(self),
    {
        match self {
            TerminalChoice::WindowsTerminal => "Windows Terminal",
            TerminalChoice::Iterm2 => "iTerm2",
            TerminalChoice::GnomeTerminal => "GNOME Terminal",
        }
    }

    /// The choices offered on `platform`: Windows Terminal on Windows,
    /// iTerm2 on macOS, GNOME Terminal elsewhere.
    pub fn platform_choices(platform: Platform) -> (r: Vec<TerminalChoice>)
        ensures
            r@ == terminal_choices(platform),
    {
        let mut v: Vec<TerminalChoice> = Vec::new();
        if platform == Platform::Windows {
            v.push(TerminalChoice::WindowsTerminal);
        } else if platform == Platform::MacOs {
            v.push(TerminalChoice::Iterm2);
        } else {
            v.push(TerminalChoice::GnomeTerminal);
        }
        assert(v@ =~= terminal_choices(platform));
        v
    }
}

/// Arguments of `neon setup pick-shell`.
pub struct PickShellArgs {
    /// Shell to use; prompted for when absent.
    pub shell: Option<ShellChoice>,
    /// Print what would be written without touching the disk.
    pub dry_run: bool,
}

/// Arguments of `neon setup pick-terminal`.
pub struct PickTerminalArgs {
    /// Terminal to use; prompted for when absent.
    pub terminal: Option<TerminalChoice>,
    /// Print what would be written without touching the disk.
    pub dry_run: bool,
}

/// A TOML value of `setup.toml` that the setup steps carry through unread.
#[verifier::external_type_specification]
#[verifier::external_body]
pub struct ExTomlValue(toml::Value);

/// The `[shell]` table of `setup.toml`.
pub struct ShellSection {
    pub preferred: String,
}

/// The `[terminal]` table of `setup.toml`.
pub struct TerminalSection {
    pub preferred: String,
}

/// `~/.config/neon/setup.toml`.  Both sections are optional, so a file
/// written by one step alone round-trips; other top-level tables are kept
/// in `extra` so that no step drops what another wrote.
pub struct SetupConfig {
    pub shell: Option<ShellSection>,
    pub terminal: Option<TerminalSection>,
    pub extra: std::collections::HashMap<String, toml::Value>,
}

impl Default for SetupConfig {
    fn default() -> (r: Self)
        ensures
            r.shell is None,
            r.terminal is None,
            r.extra@ == Map::<String, toml::Value>::empty(),
    {
        SetupConfig { shell: None, terminal: None, extra: std::collections::HashMap::new() }
    }
}

/// The two preferences of a config, as text.
pub open spec fn prefs(c: SetupConfig) -> (Option<Seq<char>>, Option<Seq<char>>) {
    (
        match c.shell {
            Some(s) => Some(s.preferred@),
            None => None,
        },
        match c.terminal {
            Some(t) => Some(t.preferred@),
            None => None,
        },
    )
}

/// The preferences after `pick-shell` stores `choice`.
pub open spec fn with_shell(p: (Option<Seq<char>>, Option<Seq<char>>), choice: ShellChoice) -> (
    Option<Seq<char>>,
    Option<Seq<char>>,
) {
    (Some(shell_str(choice)), p.1)
}

/// The preferences after `pick-terminal` stores `choice`.
pub open spec fn with_terminal(p: (Option<Seq<char>>, Option<Seq<char>>), choice: TerminalChoice) -> (
    Option<Seq<char>>,
    Option<Seq<char>>,
) {
    (p.0, Some(terminal_str(choice)))
}

/// Stores a shell choice in the config, keeping the `[terminal]` table and
/// every other table; returns the canonical string stored.
pub fn apply_shell_choice(cfg: SetupConfig, choice: ShellChoice) -> (r: (SetupConfig, String))
    ensures
        prefs(r.0) == with_shell(prefs(cfg), choice),
        r.0.terminal == cfg.terminal,
        r.0.extra == cfg.extra,
        r.1@ == shell_str(choice),
{
    let canonical = owned(choice.as_str());
    let mut cfg = cfg;
    cfg.shell = Some(ShellSection { preferred: canonical.clone() });
    (cfg, canonical)
}

/// Stores a terminal choice in the config, keeping the `[shell]` table and
/// every other table; returns the canonical string stored.
pub fn apply_terminal_choice(cfg: SetupConfig, choice: TerminalChoice) -> (r: (SetupConfig, String))
    ensures
        prefs(r.0) == with_terminal(prefs(cfg), choice),
        r.0.shell == cfg.shell,
        r.0.extra == cfg.extra,
        r.1@ == terminal_str(choice),
{
    let canonical = owned(choice.as_str());
    let mut cfg = cfg;
    cfg.terminal = Some(TerminalSection { preferred: canonical.clone() });
    (cfg, canonical)
}

/// `pick-shell` and `pick-terminal` never clobber each other: in either
/// order, both choices end up stored.
pub proof fn law_pick_steps_keep_each_other(
    p: (Option<Seq<char>>, Option<Seq<char>>),
    s: ShellChoice,
    t: TerminalChoice,
)
    ensures
        with_terminal(with_shell(p, s), t) == (Some(shell_str(s)), Some(terminal_str(t))),
        with_shell(with_terminal(p, t), s) == (Some(shell_str(s)), Some(terminal_str(t))),
{
}

/// Why `pick-shell` or `pick-terminal` refuses a choice.
#[derive(Debug, Clone, Copy, PartialEq, Eq, Structural)]
pub enum PickError {
    /// The shell is not offered on this platform.
    UnsupportedShell(ShellChoice),
    /// The terminal is not offered on this platform.
    UnsupportedTerminal(TerminalChoice),
}

/// The message of each error.
pub open spec fn pick_error_message(e: PickError) -> Seq<char> {
    match e {
        PickError::UnsupportedShell(c) => "shell '"@ + shell_str(c)
            + "' is not supported on this platform"@,
        PickError::UnsupportedTerminal(c) => "terminal '"@ + terminal_str(c)
            + "' is not supported on this platform"@,
    }
}

impl PickError {
    /// The message printed for this error.
    pub fn message(&self) -> (r: String)
        ensures
            r@ == pick_error_message(*self),
    {
        match self {
            PickError::UnsupportedShell(c) => {
                let mut s = String::from_str("shell '");
                s.append(c.as_str());
                s.append("' is not supported on this platform");
                s
            },
            PickError::UnsupportedTerminal(c) => {
                let mut s = String::from_str("terminal '");
                s.append(c.as_str());
                s.append("' is not supported on this platform");
                s
            },
        }
    }
}

/// Accepts a shell choice only when the platform offers it.
pub fn validate_shell_choice(choice: ShellChoice, platform: Platform) -> (r: Result<(), PickError>)
    ensures
        r is Ok <==> shell_choices(platform).contains(choice),
        r matches Err(e) ==> e == PickError::UnsupportedShell(choice),
{
    let choices = ShellChoice::platform_choices(platform);
    let mut i: usize = 0;
    while i < choices.len()
        invariant
            i <= choices@.len(),
            choices@ == shell_choices(platform),
            forall|j: int| 0 <= j < i ==> choices@[j] != choice,
        decreases choices@.len() - i,
    {
        if choices[i] == choice {
            return Ok(());
        }
        i = i + 1;
    }
    Err(PickError::UnsupportedShell(choice))
}

/// Accepts a terminal choice only when the platform offers it.
pub fn validate_terminal_choice(choice: TerminalChoice, platform: Platform) -> (r: Result<
    (),
    PickError,
>)
    ensures
        r is Ok <==> terminal_choices(platform).contains(choice),
        r matches Err(e) ==> e == PickError::UnsupportedTerminal(choice),
{
    let choices = TerminalChoice::platform_choices(platform);
    let mut i: usize = 0;
    while i < choices.len()
        invariant
            i <= choices@.len(),
            choices@ == terminal_choices(platform),
            forall|j: int| 0 <= j < i ==> choices@[j] != choice,
        decreases choices@.len() - i,
    {
        if choices[i] == choice {
            return Ok(());
        }
        i = i + 1;
    }
    Err(PickError::UnsupportedTerminal(choice))
}

/// The offered shell whose label was picked in the prompt.
pub fn shell_from_label(platform: Platform, label: &str) -> (r: Option<ShellChoice>)
    ensures
        match r {
            Some(c) => shell_choices(platform).contains(c) && shell_label(c) == label@,
            None => forall|i: int|
                0 <= i < shell_choices(platform).len() ==> shell_label(
                    #[trigger] shell_choices(platform)[i],
                ) != label@,
        },
{
    let choices = ShellChoice::platform_choices(platform);
    let mut i: usize = 0;
    while i < choices.len()
        invariant
            i <= choices@.len(),
            choices@ == shell_choices(platform),
            forall|j: int| 0 <= j < i ==> shell_label(#[trigger] choices@[j]) != label@,
        decreases choices@.len() - i,
    {
        let c = choices[i];
        if crate::text::str_eq(c.display_name(), label) {
            return Some(c);
        }
        i = i + 1;
    }
    None
}

/// The offered terminal whose label was picked in the prompt.
pub fn terminal_from_label(platform: Platform, label: &str) -> (r: Option<TerminalChoice>)
    ensures
        match r {
            Some(c) => terminal_choices(platform).contains(c) && terminal_label(c) == label@,
            None => forall|i: int|
                0 <= i < terminal_choices(platform).len() ==> terminal_label(
                    #[trigger] terminal_choices(platform)[i],
                ) != label@,
        },
{
    let choices = TerminalChoice::platform_choices(platform);
    let mut i: usize = 0;
    while i < choices.len()
        invariant
            i <= choices@.len(),
            choices@ == terminal_choices(platform),
            forall|j: int| 0 <= j < i ==> terminal_label(#[trigger] choices@[j]) != label@,
        decreases choices@.len() - i,
    {
        let c = choices[i];
        if crate::text::str_eq(c.display_name(), label) {
            return Some(c);
        }
        i = i + 1;
    }
    None
}

/// `dry-run: would set <what> to <label> (<canonical>)`.
pub open spec fn would_set_line(what: Seq<char>, label: Seq<char>, canonical: Seq<char>) -> Seq<char> {
    "dry-run: would set "@ + what + " to "@ + label + " ("@ + canonical + ")"@
}

/// The dry-run line of `pick-shell`.
pub fn shell_dry_run_line(choice: ShellChoice) -> (r: String)
    ensures
        r@ == would_set_line("shell"@, shell_label(choice), shell_str(choice)),
{
    let mut s = String::from_str("dry-run: would set shell to ");
    s.append(choice.display_name());
    s.append(" (");
    s.append(choice.as_str());
    s.append(")");
    proof {
        reveal_strlit("dry-run: would set shell to ");
        reveal_strlit("dry-run: would set ");
        reveal_strlit("shell");
        reveal_strlit(" to ");
    }
    assert(s@ =~= would_set_line("shell"@, shell_label(choice), shell_str(choice)));
    s
}

/// The dry-run line of `pick-terminal`.
pub fn terminal_dry_run_line(choice: TerminalChoice) -> (r: String)
    ensures
        r@ == would_set_line("terminal"@, terminal_label(choice), terminal_str(choice)),
{
    let mut s = String::from_str("dry-run: would set terminal to ");
    s.append(choice.display_name());
    s.append(" (");
    s.append(choice.as_str());
    s.append(")");
    proof {
        reveal_strlit("dry-run: would set terminal to ");
        reveal_strlit("dry-run: would set ");
        reveal_strlit("terminal");
        reveal_strlit(" to ");
    }
    assert(s@ =~= would_set_line("terminal"@, terminal_label(choice), terminal_str(choice)));
    s
}

} // verus!
