//! `neon setup wire-profile`: wire the shell's rc / profile file to the
//! NeonOS-managed profile with a guarded `# neon:start` / `# neon:end`
//! block.  Idempotent: a file that already has the block is left alone.
use vstd::prelude::*;
use vstd::string::*;

use crate::install::str_views;
use crate::setup::terminal_theme::{
    join_base_ok, join_path, join_step, joined_by, lemma_join_keeps_base_ok, lemma_plain_is_relative,
    plain_component,
};
use crate::text::{contains, contains_spec, ends_with_spec, lines, lines_spec, occurs_at, owned, prefixed_lines, push_prefixed_lines, str_eq, to_chars};

verus! {

/// Arguments of `neon setup wire-profile`.
pub struct WireProfileArgs {
    /// The rc / profile file to wire; derived from the preferred shell when absent.
    pub profile_path: Option<String>,
    /// Print what would happen without making changes.
    pub dry_run: bool,
}

/// First line of the block.
pub const MARKER_START: &'static str = "# neon:start";

/// Last line of the block.
pub const MARKER_END: &'static str = "# neon:end";

/// The managed profile created for PowerShell.
pub const STUB_PS1: &'static str = "# NeonOS managed profile \u{2014} add your customizations below\n# This file is sourced by your PowerShell profile automatically.\n";

/// The managed profile created for POSIX shells.
pub const STUB_SH: &'static str = "# NeonOS managed profile \u{2014} add your customizations below\n# This file is sourced by your shell rc file automatically.\n";

/// Whether the content already holds the start marker.
pub fn has_marker(content: &str) -> (r: bool)
    ensures
        r == contains_spec(content@, MARKER_START@),
{
    contains(content, MARKER_START)
}

/// Why `wire-profile` stops.
pub enum ProfileError {
    /// The preferred shell is not one this step knows.
    UnknownShell(String),
    /// No preferred shell is configured.
    NoPreferredShell,
}

/// The message of each error.
pub open spec fn profile_error_message(e: ProfileError) -> Seq<char> {
    match e {
        ProfileError::UnknownShell(s) => "unrecognized shell '"@ + s@
            + "' in setup.toml \u{2014} run `neon setup pick-shell` first"@,
        ProfileError::NoPreferredShell => "no preferred shell configured \u{2014} run `neon setup pick-shell` first"@,
    }
}

impl ProfileError {
    /// The message printed for this error.
    pub fn message(&self) -> (r: String)
        ensures
            r@ == profile_error_message(*self),
    {
        match self {
            ProfileError::UnknownShell(s) => {
                let mut m = String::from_str("unrecognized shell '");
                m.append(s.as_str());
                m.append("' in setup.toml \u{2014} run `neon setup pick-shell` first");
                m
            },
            ProfileError::NoPreferredShell => String::from_str(
                "no preferred shell configured \u{2014} run `neon setup pick-shell` first",
            ),
        }
    }
}

/// The rc / profile file of a shell, as path components under the home
/// directory; `None` for a shell this step does not know.
pub open spec fn profile_components(shell: Seq<char>) -> Option<Seq<Seq<char>>> {
    if shell == "powershell7"@ {
        Some(seq!["Documents"@, "PowerShell"@, "Microsoft.PowerShell_profile.ps1"@])
    } else if shell == "zsh"@ {
        Some(seq![".zshrc"@])
    } else if shell == "bash"@ || shell == "wsl"@ {
        Some(seq![".bashrc"@])
    } else {
        None
    }
}

/// The rc / profile file of a shell, as path components under home.
pub fn profile_rel_path(shell: &str) -> (r: Option<Vec<&'static str>>)
    ensures
        match r {
            Some(c) => profile_components(shell@) == Some(str_views(c@)) && forall|i: int|
                0 <= i < c@.len() ==> plain_component(#[trigger] c@[i]@),
            None => profile_components(shell@) is None,
        },
{
    let mut c: Vec<&'static str> = Vec::new();
    if str_eq(shell, "powershell7") {
        c.push("Documents");
        c.push("PowerShell");
        c.push("Microsoft.PowerShell_profile.ps1");
    } else if str_eq(shell, "zsh") {
        c.push(".zshrc");
    } else if str_eq(shell, "bash") || str_eq(shell, "wsl") {
        c.push(".bashrc");
    } else {
        return None;
    }
    assert(str_views(c@) =~= profile_components(shell@).unwrap());
    proof {
        lemma_components_plain();
    }
    Some(c)
}

/// Joins path components onto a base path.  Onto a base fit for joining
/// (see `join_base_ok`) each component is appended in turn; the last
/// component always ends the result.
pub fn join_all(base: &str, parts: &Vec<&'static str>) -> (r: String)
    requires
        forall|i: int| 0 <= i < parts@.len() ==> plain_component(#[trigger] parts@[i]@),
    ensures
        join_base_ok(base@) ==> joined_by(base@, str_views(parts@), r@),
        parts@.len() > 0 ==> ends_with_spec(r@, parts@[parts@.len() - 1]@),
{
    let mut p = owned(base);
    let mut i: usize = 0;
    while i < parts.len()
        invariant
            i <= parts@.len(),
            forall|k: int| 0 <= k < parts@.len() ==> plain_component(#[trigger] parts@[k]@),
            join_base_ok(base@) ==> joined_by(base@, str_views(parts@).subrange(0, i as int), p@)
                && join_base_ok(p@),
            i > 0 ==> ends_with_spec(p@, parts@[i - 1]@),
        decreases parts@.len() - i,
    {
        let ghost mid = p@;
        proof {
            lemma_plain_is_relative(parts@[i as int]@);
        }
        p = join_path(p.as_str(), parts[i]);
        proof {
            let q = str_views(parts@).subrange(0, i + 1);
            assert(q.drop_last() =~= str_views(parts@).subrange(0, i as int));
            assert(q.last() == parts@[i as int]@);
            if join_base_ok(base@) {
                assert(join_step(mid, q.last(), p@));
                lemma_join_keeps_base_ok(mid, q.last(), p@);
            }
        }
        i = i + 1;
    }
    assert(str_views(parts@).subrange(0, parts@.len() as int) =~= str_views(parts@));
    p
}

/// The components of the rc files and stubs are plain.
proof fn lemma_components_plain()
    ensures
        plain_component("Documents"@),
        plain_component("PowerShell"@),
        plain_component("Microsoft.PowerShell_profile.ps1"@),
        plain_component(".zshrc"@),
        plain_component(".bashrc"@),
        plain_component(".config"@),
        plain_component("neon"@),
        plain_component("profile.ps1"@),
        plain_component("profile.sh"@),
{
    reveal_strlit("Documents");
    reveal_strlit("PowerShell");
    reveal_strlit("Microsoft.PowerShell_profile.ps1");
    reveal_strlit(".zshrc");
    reveal_strlit(".bashrc");
    reveal_strlit(".config");
    reveal_strlit("neon");
    reveal_strlit("profile.ps1");
    reveal_strlit("profile.sh");
    reveal_strlit(".");
    reveal_strlit("..");
    assert("."@.len() == 1 && ".."@.len() == 2);
    assert("Documents"@.len() == 9 && "PowerShell"@.len() == 10);
    assert("Microsoft.PowerShell_profile.ps1"@.len() == 32);
    assert(".zshrc"@.len() == 6 && ".bashrc"@.len() == 7 && ".config"@.len() == 7);
    assert("neon"@.len() == 4 && "profile.ps1"@.len() == 11 && "profile.sh"@.len() == 10);
}

/// The rc / profile file of a shell under `home`: PowerShell's profile under
/// `Documents/PowerShell`, `.zshrc` for zsh, `.bashrc` for bash and WSL; an
/// error for any other shell.
pub fn profile_path_for(shell: &str, home: &str) -> (r: Result<String, ProfileError>)
    ensures
        match profile_components(shell@) {
            Some(parts) => r matches Ok(p) && (join_base_ok(home@) ==> joined_by(home@, parts, p@))
                && ends_with_spec(p@, parts.last()),
            None => r matches Err(e) && e matches ProfileError::UnknownShell(s) && s@ == shell@,
        },
{
    match profile_rel_path(shell) {
        Some(parts) => {
            Ok(join_all(home, &parts))
        },
        None => Err(ProfileError::UnknownShell(owned(shell))),
    }
}

/// The line that sources the managed profile, with the environment
/// reference left for the shell to expand.
pub open spec fn source_line(shell: Seq<char>) -> Seq<char> {
    if shell == "powershell7"@ {
        ". \"$env:USERPROFILE\\.config\\neon\\profile.ps1\""@
    } else {
        "source \"$HOME/.config/neon/profile.sh\""@
    }
}

/// The block inserted into the rc / profile file.
pub open spec fn marker_block_spec(shell: Seq<char>) -> Seq<char> {
    MARKER_START@ + "\n"@ + source_line(shell) + "\n"@ + MARKER_END@ + "\n"@
}

/// Builds the block inserted into the rc / profile file.
pub fn marker_block(shell: &str) -> (r: String)
    ensures
        r@ == marker_block_spec(shell@),
{
    let mut s = String::from_str(MARKER_START);
    s.append("\n");
    s.append(
        if str_eq(shell, "powershell7") {
            ". \"$env:USERPROFILE\\.config\\neon\\profile.ps1\""
        } else {
            "source \"$HOME/.config/neon/profile.sh\""
        },
    );
    s.append("\n");
    s.append(MARKER_END);
    s.append("\n");
    s
}

/// The managed profile of a shell: its file name under `~/.config/neon`,
/// and the stub content it starts with.
pub open spec fn stub_spec(shell: Seq<char>) -> (Seq<char>, Seq<char>) {
    if shell == "powershell7"@ {
        ("profile.ps1"@, STUB_PS1@)
    } else {
        ("profile.sh"@, STUB_SH@)
    }
}

/// The managed profile file under `home` (`.config/neon/profile.ps1` for
/// PowerShell, `.config/neon/profile.sh` otherwise) and its stub content.
pub fn stub_for(shell: &str, home: &str) -> (r: (String, &'static str))
    ensures
        join_base_ok(home@) ==> joined_by(home@, seq![".config"@, "neon"@, stub_spec(shell@).0], r.0@),
        ends_with_spec(r.0@, stub_spec(shell@).0),
        r.1@ == stub_spec(shell@).1,
{
    let ps = str_eq(shell, "powershell7");
    let mut parts: Vec<&'static str> = Vec::new();
    parts.push(".config");
    parts.push("neon");
    parts.push(
        if ps {
            "profile.ps1"
        } else {
            "profile.sh"
        },
    );
    proof {
        lemma_components_plain();
        assert(str_views(parts@) =~= seq![".config"@, "neon"@, stub_spec(shell@).0]);
    }
    (join_all(home, &parts), if ps {
        STUB_PS1
    } else {
        STUB_SH
    })
}

/// The shell to wire: the configured preferred shell; with an explicit rc
/// path a missing preference falls back to `zsh` (a POSIX source line),
/// without one it is an error.
pub fn wiring_shell(preferred: Option<String>, explicit_path: bool) -> (r: Result<String, ProfileError>)
    ensures
        match preferred {
            Some(p) => r matches Ok(s) && s@ == p@,
            None => if explicit_path {
                r matches Ok(s) && s@ == "zsh"@
            } else {
                r matches Err(ProfileError::NoPreferredShell)
            },
        },
{
    match preferred {
        Some(p) => Ok(p),
        None => if explicit_path {
            Ok(owned("zsh"))
        } else {
            Err(ProfileError::NoPreferredShell)
        },
    }
}

/// The stub step's line: whether the managed profile exists (before the
/// step) decides it; without a dry run a missing stub is created first.
pub open spec fn stub_line_spec(path: Seq<char>, exists: bool, dry_run: bool) -> Seq<char> {
    if dry_run {
        if exists {
            "[dry-run] [~] managed profile stub: "@ + path + " (already exists)"@
        } else {
            "[dry-run] [\u{2713}] managed profile stub: "@ + path + " (would create)"@
        }
    } else if exists {
        "[~] managed profile stub: "@ + path + " (already exists)"@
    } else {
        "[\u{2713}] managed profile stub: "@ + path + " (created)"@
    }
}

/// The stub step's line.
pub fn stub_line(path: &str, exists: bool, dry_run: bool) -> (r: String)
    ensures
        r@ == stub_line_spec(path@, exists, dry_run),
{
    let mut s = String::from_str(
        if dry_run {
            if exists {
                "[dry-run] [~] managed profile stub: "
            } else {
                "[dry-run] [\u{2713}] managed profile stub: "
            }
        } else if exists {
            "[~] managed profile stub: "
        } else {
            "[\u{2713}] managed profile stub: "
        },
    );
    s.append(path);
    s.append(
        if exists {
            " (already exists)"
        } else if dry_run {
            " (would create)"
        } else {
            " (created)"
        },
    );
    s
}

/// The rc / profile content after wiring: the block appended, separated by
/// a blank line from existing content (which gets a final newline first).
pub open spec fn wired_content_spec(current: Seq<char>, block: Seq<char>) -> Seq<char> {
    if current.len() == 0 {
        block
    } else if current[current.len() - 1] == '\n' {
        current + "\n"@ + block
    } else {
        current + "\n\n"@ + block
    }
}

/// Appends the block to the rc / profile content.
pub fn wired_content(current: &str, block: &str) -> (r: String)
    ensures
        r@ == wired_content_spec(current@, block@),
{
    let v = to_chars(current);
    let mut s = owned(current);
    if v.len() > 0 && v[v.len() - 1] != '\n' {
        s.append("\n");
    }
    if v.len() > 0 {
        s.append("\n");
    }
    s.append(block);
    proof {
        reveal_strlit("\n");
        reveal_strlit("\n\n");
        if v@.len() > 0 && v@[v@.len() - 1] != '\n' {
            assert(s@ =~= current@ + "\n\n"@ + block@);
        }
    }
    s
}

/// What the marker step prints and writes.
pub enum WireStep {
    /// The file already has the block: print this line, change nothing.
    AlreadyWired(String),
    /// Dry run: print these lines, change nothing.
    WouldWire(String),
    /// Write this content, then print the line.
    Write { content: String, line: String },
}

/// Decides the marker step from the file's current content (empty when it
/// does not exist yet).
pub fn wire_step(rc_path: &str, current: &str, shell: &str, dry_run: bool) -> (r: WireStep)
    ensures
        contains_spec(current@, MARKER_START@) ==> (r matches WireStep::AlreadyWired(l) && l@
            == "[~] "@ + rc_path@ + " (already wired)"@),
        !contains_spec(current@, MARKER_START@) && dry_run ==> (r matches WireStep::WouldWire(t)
            && t@ == "[dry-run] [\u{2713}] "@ + rc_path@
            + " (would append neon:start / neon:end block)\n[dry-run]     block content:\n"@
            + prefixed_lines("[dry-run]       "@, lines_spec(marker_block_spec(shell@)))),
        !contains_spec(current@, MARKER_START@) && !dry_run ==> (r matches WireStep::Write {
            content,
            line,
        } && content@ == wired_content_spec(current@, marker_block_spec(shell@)) && line@ == "[\u{2713}] "@
            + rc_path@ + " (wired)"@),
{
    if has_marker(current) {
        let mut l = String::from_str("[~] ");
        l.append(rc_path);
        l.append(" (already wired)");
        return WireStep::AlreadyWired(l);
    }
    let block = marker_block(shell);
    if dry_run {
        let mut t = String::from_str("[dry-run] [\u{2713}] ");
        t.append(rc_path);
        t.append(" (would append neon:start / neon:end block)\n[dry-run]     block content:\n");
        let ls = lines(block.as_str());
        push_prefixed_lines(&mut t, "[dry-run]       ", &ls);
        return WireStep::WouldWire(t);
    }
    let content = wired_content(current, block.as_str());
    let mut line = String::from_str("[\u{2713}] ");
    line.append(rc_path);
    line.append(" (wired)");
    WireStep::Write { content, line }
}

/// After wiring, the file holds the start marker, so a second run finds it
/// already wired and leaves it alone.
pub proof fn law_wired_content_has_marker(current: Seq<char>, shell: Seq<char>)
    ensures
        contains_spec(wired_content_spec(current, marker_block_spec(shell)), MARKER_START@),
{
    let block = marker_block_spec(shell);
    let w = wired_content_spec(current, block);
    let pre = (w.len() - block.len()) as int;
    reveal_strlit("\n");
    reveal_strlit("\n\n");
    assert(w.subrange(pre, w.len() as int) =~= block);
    assert(w.subrange(pre, pre + MARKER_START@.len()) =~= MARKER_START@);
    assert(occurs_at(w, MARKER_START@, pre));
}

} // verus!
