//! `neon doctor`: tool versions, git identity and repository health, as a
//! plain-text report (the interactive view shows the same data in panes).
pub mod widgets;

use vstd::prelude::*;
use vstd::string::*;

use crate::install::str_views;
use crate::text::{
    decimal, decimal_string, lines, lines_spec, owned, pad_left, pad_left_string, starts_with,
    starts_with_spec, str_eq, trim, trim_spec, views,
};

verus! {

// --- Data ---

/// One tool and the first line of what `--version` printed.
pub struct ToolInfo {
    pub name: String,
    pub version: String,
}

/// The configured git user.
pub struct GitIdentity {
    pub user_name: String,
    pub user_email: String,
}

/// Branch, short HEAD and the number of changed files.
pub struct RepoHealth {
    pub branch: String,
    pub short_head: String,
    pub dirty_count: usize,
}

/// Everything the doctor shows.
pub struct DiagData {
    pub tools: Vec<ToolInfo>,
    pub identity: GitIdentity,
    pub health: RepoHealth,
}

// --- Running a probe ---

/// How running a program ended.
pub enum RunOutcome {
    /// It could not be started.
    NotStarted,
    /// It ran and exited.
    Exited { success: bool, code: Option<i32>, stdout: String, stderr: String },
}

/// The text a probe yields: trimmed stdout on success; `not found` when the
/// program could not start, when `cmd` reported it unknown (exit 9009), or
/// when it failed silently; otherwise `error: ` and the trimmed stderr.
pub open spec fn run_text(outcome: RunOutcome) -> Seq<char> {
    match outcome {
        RunOutcome::NotStarted => "not found"@,
        RunOutcome::Exited { success, code, stdout, stderr } => if success {
            trim_spec(stdout@)
        } else if code == Some(9009i32) {
            "not found"@
        } else if trim_spec(stderr@).len() == 0 {
            "not found"@
        } else {
            "error: "@ + trim_spec(stderr@)
        },
    }
}

/// The text of a probe's outcome.
pub fn run_outcome_text(outcome: &RunOutcome) -> (r: String)
    ensures
        r@ == run_text(*outcome),
{
    match outcome {
        RunOutcome::NotStarted => String::from_str("not found"),
        RunOutcome::Exited { success, code, stdout, stderr } => {
            if *success {
                trim(stdout.as_str())
            } else if *code == Some(9009i32) {
                String::from_str("not found")
            } else {
                let t = trim(stderr.as_str());
                if t.unicode_len() == 0 {
                    String::from_str("not found")
                } else {
                    let mut s = String::from_str("error: ");
                    s.append(t.as_str());
                    s
                }
            }
        },
    }
}

/// `exec` ran `<program> <args>` with outcome `o`.
pub open spec fn exec_answer<E: Fn(&str, &[&str]) -> RunOutcome>(
    exec: E,
    program: Seq<char>,
    args: Seq<Seq<char>>,
    o: RunOutcome,
) -> bool {
    exists|p: &str, a: &[&str]|
        p@ == program && str_views(a@) == args && #[trigger] call_ensures(exec, (p, a), o)
}

/// Runs `<program> <args>` through `exec` and returns the probe text.
pub fn run(program: &str, args: &[&str], exec: &impl Fn(&str, &[&str]) -> RunOutcome) -> (r: String)
    requires
        forall|p: &str, a: &[&str]| call_requires(*exec, (p, a)),
    ensures
        exists|o: RunOutcome| exec_answer(*exec, program@, str_views(args@), o) && r@ == run_text(o),
{
    let o = exec(program, args);
    assert(call_ensures(*exec, (program, args), o));
    assert(exec_answer(*exec, program@, str_views(args@), o));
    run_outcome_text(&o)
}

// --- Post-processing ---

/// The first line of a text (the whole text when it has none).
pub open spec fn first_line_spec(s: Seq<char>) -> Seq<char> {
    if lines_spec(s).len() > 0 {
        lines_spec(s)[0]
    } else {
        s
    }
}

/// The first line of a version string (most tools print more).
pub fn first_line(s: &str) -> (r: String)
    ensures
        r@ == first_line_spec(s@),
{
    let ls = lines(s);
    if ls.len() > 0 {
        proof {
            assert(views(ls@)[0] == ls@[0]@);
        }
        ls[0].clone()
    } else {
        owned(s)
    }
}

/// A probe answer that means "missing": `not found` or an error.
pub open spec fn is_missing(v: Seq<char>) -> bool {
    v == "not found"@ || starts_with_spec(v, "error"@)
}

/// `(not set)` for a missing, empty or failed value; the value otherwise.
pub open spec fn or_not_set_spec(v: Seq<char>) -> Seq<char> {
    if v.len() == 0 || is_missing(v) {
        "(not set)"@
    } else {
        v
    }
}

/// Maps a `git config` probe to `(not set)` when the value is missing,
/// empty or errored (an unset key makes git exit non-zero).
pub fn or_not_set(value: String) -> (r: String)
    ensures
        r@ == or_not_set_spec(value@),
{
    if value.unicode_len() == 0 || str_eq(value.as_str(), "not found") || starts_with(
        value.as_str(),
        "error",
    ) {
        String::from_str("(not set)")
    } else {
        value
    }
}

/// The value, or `fallback` when the probe says it is missing.
pub open spec fn unless_missing(v: Seq<char>, fallback: Seq<char>) -> Seq<char> {
    if is_missing(v) {
        fallback
    } else {
        v
    }
}

/// The number of changed files: the lines of `git status --porcelain`,
/// none when it failed or printed nothing.
pub open spec fn dirty_count_spec(out: Seq<char>) -> nat {
    if is_missing(out) || out.len() == 0 {
        0
    } else {
        lines_spec(out).len()
    }
}

/// The tools the doctor probes, in order.
pub open spec fn doctor_tools() -> Seq<Seq<char>> {
    seq!["git"@, "rustc"@, "cargo"@, "node"@, "pnpm"@, "docker"@]
}

/// The probe `exec` answered for `<program> <args>` gives the text `t`.
pub open spec fn probe_gives<E: Fn(&str, &[&str]) -> RunOutcome>(
    exec: E,
    program: Seq<char>,
    args: Seq<Seq<char>>,
    t: Seq<char>,
) -> bool {
    exists|o: RunOutcome| exec_answer(exec, program, args, o) && t == run_text(o)
}

/// Probes one tool's version.
fn tool_info(name: &str, exec: &impl Fn(&str, &[&str]) -> RunOutcome) -> (r: ToolInfo)
    requires
        forall|p: &str, a: &[&str]| call_requires(*exec, (p, a)),
    ensures
        r.name@ == name@,
        exists|t: Seq<char>|
            probe_gives(*exec, name@, seq!["--version"@], t) && r.version@ == first_line_spec(t),
{
    let args: &[&str] = &["--version"];
    assert(str_views(args@) =~= seq!["--version"@]);
    let t = run(name, args, exec);
    ToolInfo { name: owned(name), version: first_line(t.as_str()) }
}

/// Probes a git value.
fn git_probe(args: &[&str], exec: &impl Fn(&str, &[&str]) -> RunOutcome) -> (r: String)
    requires
        forall|p: &str, a: &[&str]| call_requires(*exec, (p, a)),
    ensures
        probe_gives(*exec, "git"@, str_views(args@), r@),
{
    run("git", args, exec)
}

/// Gathers the doctor's data: each tool's `--version` (first line), the git
/// user (`(not set)` when unset), branch (`(not a git repo)` when git
/// fails), short HEAD (`(unknown)` when git fails) and changed-file count.
pub fn collect(exec: &impl Fn(&str, &[&str]) -> RunOutcome) -> (r: DiagData)
    requires
        forall|p: &str, a: &[&str]| call_requires(*exec, (p, a)),
    ensures
        r.tools@.len() == doctor_tools().len(),
        forall|i: int|
            0 <= i < r.tools@.len() ==> (#[trigger] r.tools@[i]).name@ == doctor_tools()[i]
                && exists|t: Seq<char>|
                probe_gives(*exec, doctor_tools()[i], seq!["--version"@], t)
                    && r.tools@[i].version@ == first_line_spec(t),
        exists|t: Seq<char>|
            probe_gives(*exec, "git"@, seq!["config"@, "user.name"@], t)
                && r.identity.user_name@ == or_not_set_spec(t),
        exists|t: Seq<char>|
            probe_gives(*exec, "git"@, seq!["config"@, "user.email"@], t)
                && r.identity.user_email@ == or_not_set_spec(t),
        exists|t: Seq<char>|
            probe_gives(*exec, "git"@, seq!["rev-parse"@, "--abbrev-ref"@, "HEAD"@], t)
                && r.health.branch@ == unless_missing(t, "(not a git repo)"@),
        exists|t: Seq<char>|
            probe_gives(*exec, "git"@, seq!["rev-parse"@, "--short"@, "HEAD"@], t)
                && r.health.short_head@ == unless_missing(t, "(unknown)"@),
        exists|t: Seq<char>|
            probe_gives(*exec, "git"@, seq!["status"@, "--porcelain"@], t) && r.health.dirty_count
                == dirty_count_spec(t),
{
    let names: &'static [&'static str] = &["git", "rustc", "cargo", "node", "pnpm", "docker"];
    assert(str_views(names@) =~= doctor_tools());
    let mut tools: Vec<ToolInfo> = Vec::new();
    let mut i: usize = 0;
    while i < names.len()
        invariant
            i <= names@.len(),
            str_views(names@) == doctor_tools(),
            names@.len() == 6,
            tools@.len() == i,
            forall|p: &str, a: &[&str]| call_requires(*exec, (p, a)),
            forall|j: int|
                0 <= j < i ==> (#[trigger] tools@[j]).name@ == doctor_tools()[j] && exists|
                    t: Seq<char>,
                |
                    probe_gives(*exec, doctor_tools()[j], seq!["--version"@], t)
                        && tools@[j].version@ == first_line_spec(t),
        decreases names@.len() - i,
    {
        assert(str_views(names@)[i as int] == names@[i as int]@);
        let t = tool_info(names[i], exec);
        tools.push(t);
        i = i + 1;
    }
    let a_name: &[&str] = &["config", "user.name"];
    let a_email: &[&str] = &["config", "user.email"];
    let a_branch: &[&str] = &["rev-parse", "--abbrev-ref", "HEAD"];
    let a_head: &[&str] = &["rev-parse", "--short", "HEAD"];
    let a_status: &[&str] = &["status", "--porcelain"];
    assert(str_views(a_name@) =~= seq!["config"@, "user.name"@]);
    assert(str_views(a_email@) =~= seq!["config"@, "user.email"@]);
    assert(str_views(a_branch@) =~= seq!["rev-parse"@, "--abbrev-ref"@, "HEAD"@]);
    assert(str_views(a_head@) =~= seq!["rev-parse"@, "--short"@, "HEAD"@]);
    assert(str_views(a_status@) =~= seq!["status"@, "--porcelain"@]);
    let user_name = or_not_set(git_probe(a_name, exec));
    let user_email = or_not_set(git_probe(a_email, exec));
    let b = git_probe(a_branch, exec);
    assert(probe_gives(*exec, "git"@, seq!["rev-parse"@, "--abbrev-ref"@, "HEAD"@], b@));
    let ghost bv = b@;
    let branch = if str_eq(b.as_str(), "not found") || starts_with(b.as_str(), "error") {
        String::from_str("(not a git repo)")
    } else {
        b
    };
    assert(branch@ == unless_missing(bv, "(not a git repo)"@));
    let h = git_probe(a_head, exec);
    assert(probe_gives(*exec, "git"@, seq!["rev-parse"@, "--short"@, "HEAD"@], h@));
    let ghost hv = h@;
    let short_head = if str_eq(h.as_str(), "not found") || starts_with(h.as_str(), "error") {
        String::from_str("(unknown)")
    } else {
        h
    };
    assert(short_head@ == unless_missing(hv, "(unknown)"@));
    let out = git_probe(a_status, exec);
    assert(probe_gives(*exec, "git"@, seq!["status"@, "--porcelain"@], out@));
    let dirty_count = if str_eq(out.as_str(), "not found") || starts_with(out.as_str(), "error")
        || out.unicode_len() == 0 {
        0
    } else {
        let ls = lines(out.as_str());
        assert(views(ls@).len() == ls@.len());
        ls.len()
    };
    assert(dirty_count == dirty_count_spec(out@));
    DiagData {
        tools,
        identity: GitIdentity { user_name, user_email },
        health: RepoHealth { branch, short_head, dirty_count },
    }
}

// --- Plain report ---

/// One tool line: the name right-aligned to 6, then the version.
pub open spec fn plain_tool_line(t: ToolInfo) -> Seq<char> {
    "  "@ + pad_left(t.name@, 6) + ": "@ + t.version@ + "\n"@
}

/// The tool lines, in order.
pub open spec fn plain_tool_lines(ts: Seq<ToolInfo>) -> Seq<char>
    decreases ts.len(),
{
    if ts.len() == 0 {
        seq![]
    } else {
        plain_tool_lines(ts.drop_last()) + plain_tool_line(ts.last())
    }
}

/// The plain-text report (non-interactive output).
pub open spec fn plain_text(d: DiagData) -> Seq<char> {
    "=== Tooling ===\n"@ + plain_tool_lines(d.tools@) + "\n=== Git Identity ===\n  name:  "@
        + d.identity.user_name@ + "\n  email: "@ + d.identity.user_email@
        + "\n\n=== Repo Health ===\n  branch:    "@ + d.health.branch@ + "\n  HEAD:      "@
        + d.health.short_head@ + "\n  dirty:     "@ + decimal(d.health.dirty_count as nat)
        + " file(s)\n"@
}

/// Renders the plain-text report.
pub fn format_plain(data: &DiagData) -> (r: String)
    ensures
        r@ == plain_text(*data),
{
    let mut s = String::from_str("=== Tooling ===\n");
    let ghost head = s@;
    let mut i: usize = 0;
    while i < data.tools.len()
        invariant
            i <= data.tools@.len(),
            s@ == head + plain_tool_lines(data.tools@.subrange(0, i as int)),
        decreases data.tools@.len() - i,
    {
        let t = &data.tools[i];
        let ghost before = s@;
        s.append("  ");
        let name = pad_left_string(t.name.as_str(), 6);
        s.append(name.as_str());
        s.append(": ");
        s.append(t.version.as_str());
        s.append("\n");
        proof {
            let p = data.tools@.subrange(0, i + 1);
            assert(p.drop_last() =~= data.tools@.subrange(0, i as int));
            assert(s@ =~= before + plain_tool_line(*t));
        }
        i = i + 1;
    }
    assert(data.tools@.subrange(0, data.tools@.len() as int) =~= data.tools@);
    s.append("\n=== Git Identity ===\n  name:  ");
    s.append(data.identity.user_name.as_str());
    s.append("\n  email: ");
    s.append(data.identity.user_email.as_str());
    s.append("\n\n=== Repo Health ===\n  branch:    ");
    s.append(data.health.branch.as_str());
    s.append("\n  HEAD:      ");
    s.append(data.health.short_head.as_str());
    s.append("\n  dirty:     ");
    let n = decimal_string(data.health.dirty_count);
    s.append(n.as_str());
    s.append(" file(s)\n");
    s
}

} // verus!
