//! `neon setup diagnostics`: a read-only status report of the development
//! environment: git identity (local and global), docker logins, npm tokens
//! (redacted), runtime versions and shells.
use vstd::prelude::*;
use vstd::string::*;

use crate::install::str_views;
use crate::setup::languages::path_answer;
use crate::setup::{probe_answer, tool_entry_ok, ToolPresence};
use crate::text::{
    contains, contains_spec, first_index, from_range, join, join_spec, lemma_first_index_props,
    lines, lines_spec, owned, pad_right, pad_right_string, prefixed_lines, push_prefixed_lines,
    to_chars, trim, trim_spec, views,
};

verus! {

/// Arguments of `neon setup diagnostics` (none).
pub struct DiagnosticsArgs {}

// --- Token redaction ---

/// A token with all but its last four characters masked: `****` plus the
/// last four, or just `****` for a token of four characters or fewer.
pub open spec fn redacted(t: Seq<char>) -> Seq<char> {
    if t.len() <= 4 {
        "****"@
    } else {
        "****"@ + t.subrange(t.len() - 4, t.len() as int)
    }
}

/// Redacts a token: the last 4 characters stay, the rest becomes `****`.
pub fn redact_token(token: &str) -> (r: String)
    ensures
        r@ == redacted(token@),
{
    let chars = to_chars(token);
    if chars.len() <= 4 {
        return String::from_str("****");
    }
    let visible = from_range(&chars, chars.len() - 4, chars.len());
    let mut s = String::from_str("****");
    s.append(visible.as_str());
    s
}

// --- npm token status ---

/// `key=redacted-token` for one `.npmrc` auth line: the text around its
/// first `=`, each part trimmed, the token redacted.
pub open spec fn token_entry(line: Seq<char>) -> Seq<char> {
    let k = first_index(line, '=');
    if k < line.len() {
        trim_spec(line.subrange(0, k as int)) + "="@ + redacted(
            trim_spec(line.subrange(k + 1int, line.len() as int)),
        )
    } else {
        trim_spec(line) + "="@ + redacted(seq![])
    }
}

/// The entries of the lines that hold an `:_authToken=` setting, in order.
pub open spec fn token_entries(ls: Seq<Seq<char>>) -> Seq<Seq<char>>
    decreases ls.len(),
{
    if ls.len() == 0 {
        seq![]
    } else if contains_spec(ls.last(), ":_authToken="@) {
        token_entries(ls.drop_last()).push(token_entry(ls.last()))
    } else {
        token_entries(ls.drop_last())
    }
}

/// The npm-token line of the report for the `.npmrc` text.
pub open spec fn npm_token_summary_spec(text: Seq<char>) -> Seq<char> {
    let es = token_entries(lines_spec(text));
    if es.len() == 0 {
        "(no :_authToken entries in ~/.npmrc)"@
    } else {
        join_spec(es, ", "@)
    }
}

/// `key=redacted-token` for one auth line.
fn token_entry_exec(line: &str) -> (r: String)
    ensures
        r@ == token_entry(line@),
{
    let v = to_chars(line);
    let mut k: usize = 0;
    while k < v.len() && v[k] != '='
        invariant
            k <= v@.len(),
            v@ == line@,
            forall|j: int| 0 <= j < k ==> v@[j] != '=',
        decreases v@.len() - k,
    {
        k = k + 1;
    }
    proof {
        crate::text::lemma_first_index(line@, '=', k as int);
    }
    if k < v.len() {
        let key = from_range(&v, 0, k);
        let token = from_range(&v, k + 1, v.len());
        let mut s = trim(key.as_str());
        s.append("=");
        let t = trim(token.as_str());
        let red = redact_token(t.as_str());
        s.append(red.as_str());
        s
    } else {
        let mut s = trim(line);
        s.append("=");
        let red = redact_token("");
        proof {
            reveal_strlit("");
        }
        s.append(red.as_str());
        s
    }
}

/// The npm-token line of the report: every `:_authToken=` line of the
/// `.npmrc` text, key kept and token redacted, joined by `, `.
pub fn npm_token_summary(text: &str) -> (r: String)
    ensures
        r@ == npm_token_summary_spec(text@),
{
    let ls = lines(text);
    let mut es: Vec<String> = Vec::new();
    let mut i: usize = 0;
    while i < ls.len()
        invariant
            i <= ls@.len(),
            views(ls@) == lines_spec(text@),
            views(es@) == token_entries(views(ls@).subrange(0, i as int)),
        decreases ls@.len() - i,
    {
        let ghost before = es@;
        let ghost pre = views(ls@).subrange(0, i + 1);
        assert(pre.drop_last() =~= views(ls@).subrange(0, i as int));
        assert(pre.last() == ls@[i as int]@);
        if contains(ls[i].as_str(), ":_authToken=") {
            let e = token_entry_exec(ls[i].as_str());
            es.push(e);
            assert(views(es@) =~= views(before).push(e@));
        }
        i = i + 1;
    }
    assert(views(ls@).subrange(0, ls@.len() as int) =~= views(ls@));
    if es.len() == 0 {
        String::from_str("(no :_authToken entries in ~/.npmrc)")
    } else {
        join(&es, ", ")
    }
}

/// What could be read of `~/.npmrc`.
pub enum NpmrcState {
    /// The home directory is unknown.
    HomeUnknown,
    /// `~/.npmrc` does not exist.
    Missing,
    /// `~/.npmrc` exists but could not be read.
    Unreadable,
    /// The file's text.
    Text(String),
}

/// The npm-token line of the report for each state of `~/.npmrc`.
pub open spec fn npm_token_status_spec(state: NpmrcState) -> Seq<char> {
    match state {
        NpmrcState::HomeUnknown => "(home dir unknown)"@,
        NpmrcState::Missing => "(~/.npmrc not found)"@,
        NpmrcState::Unreadable => "(could not read ~/.npmrc)"@,
        NpmrcState::Text(t) => npm_token_summary_spec(t@),
    }
}

/// The npm-token line of the report.
pub fn npm_token_status(state: &NpmrcState) -> (r: String)
    ensures
        r@ == npm_token_status_spec(*state),
{
    match state {
        NpmrcState::HomeUnknown => String::from_str("(home dir unknown)"),
        NpmrcState::Missing => String::from_str("(~/.npmrc not found)"),
        NpmrcState::Unreadable => String::from_str("(could not read ~/.npmrc)"),
        NpmrcState::Text(t) => npm_token_summary(t.as_str()),
    }
}

// --- Git identity ---

/// `name <email>` with placeholders for a missing part; `unset` when both
/// are missing.
pub open spec fn identity_text_spec(
    name: Option<String>,
    email: Option<String>,
    unset: Seq<char>,
) -> Seq<char> {
    match (name, email) {
        (Some(n), Some(e)) => n@ + " <"@ + e@ + ">"@,
        (Some(n), None) => n@ + " <email not set>"@,
        (None, Some(e)) => "<name not set> "@ + e@,
        (None, None) => unset,
    }
}

/// One identity line's value.
pub fn identity_text(name: &Option<String>, email: &Option<String>, unset: &str) -> (r: String)
    ensures
        r@ == identity_text_spec(*name, *email, unset@),
{
    match (name, email) {
        (Some(n), Some(e)) => {
            let mut s = n.clone();
            s.append(" <");
            s.append(e.as_str());
            s.append(">");
            s
        },
        (Some(n), None) => {
            let mut s = n.clone();
            s.append(" <email not set>");
            s
        },
        (None, Some(e)) => {
            let mut s = String::from_str("<name not set> ");
            s.append(e.as_str());
            s
        },
        (None, None) => owned(unset),
    }
}

/// The value `git config <scope> --get <key>` printed: its trimmed stdout
/// when it succeeded with something to say.
pub fn git_config_value(success: bool, stdout: &str) -> (r: Option<String>)
    ensures
        match r {
            Some(v) => success && v@ == trim_spec(stdout@) && v@.len() > 0,
            None => !success || trim_spec(stdout@).len() == 0,
        },
{
    if !success {
        return None;
    }
    let v = trim(stdout);
    if v.unicode_len() == 0 {
        None
    } else {
        Some(v)
    }
}

// --- Report ---

/// Everything the diagnostics report shows.
pub struct DiagnosticsData {
    /// `user.name` and `user.email` of the repository's own config.
    pub local_name: Option<String>,
    pub local_email: Option<String>,
    /// `user.name` and `user.email` of the global config.
    pub global_name: Option<String>,
    pub global_email: Option<String>,
    /// Logged-in docker registries, sorted.
    pub registries: Vec<String>,
    /// The npm-token line.
    pub npm_token: String,
    /// `node`, `npm` and `pnpm`: on PATH, and the version they printed.
    pub runtimes: Vec<ToolPresence>,
    /// `shell (version)` for each shell found.
    pub shells: Vec<String>,
}

/// One runtime line: check mark, name padded to 8, version (`?` when it
/// printed none); or cross and dash.
pub open spec fn runtime_line(t: ToolPresence) -> Seq<char> {
    if t.found {
        "    \u{2713} "@ + pad_right(t.name@, 8) + " "@ + match t.version {
            Some(v) => v@,
            None => "?"@,
        } + "\n"@
    } else {
        "    \u{2717} "@ + pad_right(t.name@, 8) + " \u{2014}\n"@
    }
}

/// The runtime lines, in order.
pub open spec fn runtime_lines(ts: Seq<ToolPresence>) -> Seq<char>
    decreases ts.len(),
{
    if ts.len() == 0 {
        seq![]
    } else {
        runtime_lines(ts.drop_last()) + runtime_line(ts.last())
    }
}

/// The shells line: the shells found, or a note that none was.
pub open spec fn shells_text(entries: Seq<Seq<char>>) -> Seq<char> {
    if entries.len() == 0 {
        "(no recognized shell found)"@
    } else {
        join_spec(entries, ", "@)
    }
}

/// The text of `neon setup diagnostics`.
pub open spec fn diagnostics_text(d: DiagnosticsData) -> Seq<char> {
    "=== neon setup diagnostics ===\n\n  Git identity:\n    local:   "@ + identity_text_spec(
        d.local_name,
        d.local_email,
        "(not set \u{2014} not in a git repo or no local identity)"@,
    ) + "\n    global:  "@ + identity_text_spec(d.global_name, d.global_email, "(not set)"@)
        + "\n\n  Docker:\n"@ + (if d.registries@.len() == 0 {
        "    (no registries logged in)\n"@
    } else {
        prefixed_lines("    \u{2713} "@, views(d.registries@))
    }) + "\n  npm token:\n    "@ + d.npm_token@ + "\n\n  Runtimes:\n"@ + runtime_lines(
        d.runtimes@,
    ) + "\n  Shells:\n    "@ + shells_text(views(d.shells@)) + "\n"@
}

/// Appends one runtime line.
fn push_runtime_line(s: &mut String, t: &ToolPresence)
    ensures
        final(s)@ == old(s)@ + runtime_line(*t),
{
    let name = pad_right_string(t.name.as_str(), 8);
    if t.found {
        s.append("    \u{2713} ");
        s.append(name.as_str());
        s.append(" ");
        match &t.version {
            Some(v) => s.append(v.as_str()),
            None => s.append("?"),
        }
        s.append("\n");
    } else {
        s.append("    \u{2717} ");
        s.append(name.as_str());
        s.append(" \u{2014}\n");
    }
    assert(final(s)@ =~= old(s)@ + runtime_line(*t));
}

/// Renders the diagnostics report.
pub fn format_diagnostics(d: &DiagnosticsData) -> (r: String)
    ensures
        r@ == diagnostics_text(*d),
{
    let mut s = String::from_str("=== neon setup diagnostics ===\n\n  Git identity:\n    local:   ");
    let local = identity_text(
        &d.local_name,
        &d.local_email,
        "(not set \u{2014} not in a git repo or no local identity)",
    );
    s.append(local.as_str());
    s.append("\n    global:  ");
    let global = identity_text(&d.global_name, &d.global_email, "(not set)");
    s.append(global.as_str());
    s.append("\n\n  Docker:\n");
    if d.registries.len() == 0 {
        s.append("    (no registries logged in)\n");
    } else {
        push_prefixed_lines(&mut s, "    \u{2713} ", &d.registries);
    }
    s.append("\n  npm token:\n    ");
    s.append(d.npm_token.as_str());
    s.append("\n\n  Runtimes:\n");
    let ghost head = s@;
    let mut i: usize = 0;
    while i < d.runtimes.len()
        invariant
            i <= d.runtimes@.len(),
            s@ == head + runtime_lines(d.runtimes@.subrange(0, i as int)),
        decreases d.runtimes@.len() - i,
    {
        push_runtime_line(&mut s, &d.runtimes[i]);
        proof {
            let t = d.runtimes@.subrange(0, i + 1);
            assert(t.drop_last() =~= d.runtimes@.subrange(0, i as int));
        }
        i = i + 1;
    }
    assert(d.runtimes@.subrange(0, d.runtimes@.len() as int) =~= d.runtimes@);
    s.append("\n  Shells:\n    ");
    if d.shells.len() == 0 {
        s.append("(no recognized shell found)");
    } else {
        let joined = join(&d.shells, ", ");
        s.append(joined.as_str());
    }
    s.append("\n");
    s
}

// --- Gathering ---

/// The shells looked for, in order of preference.
pub open spec fn diag_shells() -> Seq<Seq<char>> {
    seq!["pwsh"@, "zsh"@, "bash"@, "sh"@]
}

/// `shell (version)`, with `?` for a missing version.
pub open spec fn shell_entry(name: Seq<char>, version: Option<String>) -> Seq<char> {
    name + " ("@ + match version {
        Some(v) => v@,
        None => "?"@,
    } + ")"@
}

/// The entries of the shells found, in order.
pub open spec fn shell_entries(names: Seq<Seq<char>>, found: Seq<ToolPresence>) -> Seq<Seq<char>>
    decreases names.len(),
{
    if names.len() == 0 {
        seq![]
    } else if found[names.len() - 1].found {
        shell_entries(names.drop_last(), found).push(
            shell_entry(names.last(), found[names.len() - 1].version),
        )
    } else {
        shell_entries(names.drop_last(), found)
    }
}

/// `shell_entries` only reads the probes of the names it is given.
proof fn lemma_shell_entries_prefix(names: Seq<Seq<char>>, a: Seq<ToolPresence>, b: Seq<ToolPresence>)
    requires
        a.len() >= names.len(),
        b.len() >= names.len(),
        forall|i: int| 0 <= i < names.len() ==> a[i] == b[i],
    ensures
        shell_entries(names, a) == shell_entries(names, b),
    decreases names.len(),
{
    if names.len() > 0 {
        lemma_shell_entries_prefix(names.drop_last(), a, b);
    }
}

/// Probes the shells: for each one on PATH, `shell (version)`.
pub fn shell_info_entries(
    on_path: &impl Fn(&str) -> bool,
    probe: &impl Fn(&str, &[&str]) -> Option<String>,
) -> (r: Vec<String>)
    requires
        forall|t: &str| call_requires(*on_path, (t,)),
        forall|t: &str, a: &[&str]| call_requires(*probe, (t, a)),
    ensures
        exists|found: Seq<ToolPresence>|
            found.len() == diag_shells().len() && (forall|i: int|
                0 <= i < found.len() ==> tool_entry_ok(
                    #[trigger] found[i],
                    diag_shells()[i],
                    *on_path,
                    *probe,
                )) && views(r@) == shell_entries(diag_shells(), found),
{
    let names: &'static [&'static str] = &["pwsh", "zsh", "bash", "sh"];
    assert(str_views(names@) =~= diag_shells());
    let mut out: Vec<String> = Vec::new();
    let ghost mut found: Seq<ToolPresence> = seq![];
    let mut i: usize = 0;
    while i < names.len()
        invariant
            i <= names@.len(),
            names@.len() == diag_shells().len(),
            str_views(names@) == diag_shells(),
            found.len() == i,
            forall|t: &str| call_requires(*on_path, (t,)),
            forall|t: &str, a: &[&str]| call_requires(*probe, (t, a)),
            forall|j: int|
                0 <= j < i ==> tool_entry_ok(#[trigger] found[j], diag_shells()[j], *on_path, *probe),
            views(out@) == shell_entries(diag_shells().subrange(0, i as int), found),
        decreases names@.len() - i,
    {
        let t = crate::setup::probe_tool(names[i], on_path, probe);
        assert(str_views(names@)[i as int] == names@[i as int]@);
        let ghost prev = found;
        proof {
            found = found.push(t);
            let c = diag_shells().subrange(0, i + 1);
            assert(c.drop_last() =~= diag_shells().subrange(0, i as int));
            lemma_shell_entries_prefix(c.drop_last(), prev, found);
        }
        if t.found {
            let mut e = owned(names[i]);
            e.append(" (");
            match &t.version {
                Some(v) => e.append(v.as_str()),
                None => e.append("?"),
            }
            e.append(")");
            let ghost before = out@;
            out.push(e);
            assert(views(out@) =~= views(before).push(e@));
        }
        i = i + 1;
    }
    assert(diag_shells().subrange(0, 4) =~= diag_shells());
    out
}

/// The runtimes of the report, in order.
pub open spec fn diag_runtimes() -> Seq<Seq<char>> {
    seq!["node"@, "npm"@, "pnpm"@]
}

/// Probes the runtimes: presence on PATH, then the version of those present.
pub fn runtime_probes(
    on_path: &impl Fn(&str) -> bool,
    probe: &impl Fn(&str, &[&str]) -> Option<String>,
) -> (r: Vec<ToolPresence>)
    requires
        forall|t: &str| call_requires(*on_path, (t,)),
        forall|t: &str, a: &[&str]| call_requires(*probe, (t, a)),
    ensures
        r@.len() == 3,
        forall|i: int|
            0 <= i < 3 ==> tool_entry_ok(#[trigger] r@[i], diag_runtimes()[i], *on_path, *probe),
{
    let mut out: Vec<ToolPresence> = Vec::new();
    out.push(crate::setup::probe_tool("node", on_path, probe));
    out.push(crate::setup::probe_tool("npm", on_path, probe));
    out.push(crate::setup::probe_tool("pnpm", on_path, probe));
    out
}

/// `git` answered `r` for `git config <scope> --get <key>`.
pub open spec fn config_answer<G: Fn(&str, &str) -> Option<String>>(
    git_config: G,
    scope: Seq<char>,
    key: Seq<char>,
    r: Option<String>,
) -> bool {
    exists|s: &str, k: &str| s@ == scope && k@ == key && #[trigger] call_ensures(git_config, (s, k), r)
}

/// Asks `git config <scope> --get <key>`.
fn ask_config(git_config: &impl Fn(&str, &str) -> Option<String>, scope: &str, key: &str) -> (r:
    Option<String>)
    requires
        forall|s: &str, k: &str| call_requires(*git_config, (s, k)),
    ensures
        config_answer(*git_config, scope@, key@, r),
{
    let r = git_config(scope, key);
    assert(call_ensures(*git_config, (scope, key), r));
    r
}

/// Gathers the report's data: identities from `git config`, the sorted
/// docker registries, the npm-token line, runtime and shell probes.
pub fn gather_diagnostics(
    git_config: &impl Fn(&str, &str) -> Option<String>,
    registries: Vec<String>,
    npmrc: &NpmrcState,
    on_path: &impl Fn(&str) -> bool,
    probe: &impl Fn(&str, &[&str]) -> Option<String>,
) -> (r: DiagnosticsData)
    requires
        forall|s: &str, k: &str| call_requires(*git_config, (s, k)),
        forall|t: &str| call_requires(*on_path, (t,)),
        forall|t: &str, a: &[&str]| call_requires(*probe, (t, a)),
    ensures
        config_answer(*git_config, "--local"@, "user.name"@, r.local_name),
        config_answer(*git_config, "--local"@, "user.email"@, r.local_email),
        config_answer(*git_config, "--global"@, "user.name"@, r.global_name),
        config_answer(*git_config, "--global"@, "user.email"@, r.global_email),
        r.registries == registries,
        r.npm_token@ == npm_token_status_spec(*npmrc),
        r.runtimes@.len() == 3,
        forall|i: int|
            0 <= i < 3 ==> tool_entry_ok(
                #[trigger] r.runtimes@[i],
                diag_runtimes()[i],
                *on_path,
                *probe,
            ),
        exists|found: Seq<ToolPresence>|
            found.len() == diag_shells().len() && (forall|i: int|
                0 <= i < found.len() ==> tool_entry_ok(
                    #[trigger] found[i],
                    diag_shells()[i],
                    *on_path,
                    *probe,
                )) && views(r.shells@) == shell_entries(diag_shells(), found),
{
    DiagnosticsData {
        local_name: ask_config(git_config, "--local", "user.name"),
        local_email: ask_config(git_config, "--local", "user.email"),
        global_name: ask_config(git_config, "--global", "user.name"),
        global_email: ask_config(git_config, "--global", "user.email"),
        registries,
        npm_token: npm_token_status(npmrc),
        runtimes: runtime_probes(on_path, probe),
        shells: shell_info_entries(on_path, probe),
    }
}

} // verus!
