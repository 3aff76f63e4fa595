//! The panes of the interactive `neon doctor` view: their titles and text
//! lines, and the sample data the widget catalog shows.  Drawing them is
//! left to the terminal front end.
use vstd::prelude::*;
use vstd::string::*;

use crate::doctor::{GitIdentity, RepoHealth, ToolInfo};
use crate::text::{decimal, decimal_string, owned, pad_left, pad_left_string, views};

verus! {

/// The "Tooling" pane: one `{name, version}` row per tool.
pub struct ToolingPane<'a> {
    pub tools: &'a [ToolInfo],
}

/// One tooling row: the name right-aligned to 6 between two-space
/// margins, then the version.
pub open spec fn tooling_row(t: ToolInfo) -> Seq<char> {
    "  "@ + pad_left(t.name@, 6) + "  "@ + t.version@
}

impl<'a> ToolingPane<'a> {
    /// A pane over the given tools.
    pub fn new(tools: &'a [ToolInfo]) -> (r: Self)
        ensures
            r.tools == tools,
    {
        ToolingPane { tools }
    }

    /// The pane's title.
    pub fn title(&self) -> (r: &'static str)
        ensures
            r@ == " Tooling "@,
    {
        " Tooling "
    }

    /// The pane's text lines, one per tool.
    pub fn lines(&self) -> (r: Vec<String>)
        ensures
            r@.len() == self.tools@.len(),
            forall|i: int| 0 <= i < r@.len() ==> (#[trigger] r@[i])@ == tooling_row(self.tools@[i]),
    {
        let mut out: Vec<String> = Vec::new();
        let mut i: usize = 0;
        while i < self.tools.len()
            invariant
                i <= self.tools@.len(),
                out@.len() == i,
                forall|j: int| 0 <= j < i ==> (#[trigger] out@[j])@ == tooling_row(self.tools@[j]),
            decreases self.tools@.len() - i,
        {
            let t = &self.tools[i];
            let mut s = String::from_str("  ");
            let name = pad_left_string(t.name.as_str(), 6);
            s.append(name.as_str());
            s.append("  ");
            s.append(t.version.as_str());
            out.push(s);
            i = i + 1;
        }
        out
    }
}

/// The "Git Identity" pane: user name and email.
pub struct GitIdentityPane<'a> {
    pub identity: &'a GitIdentity,
}

impl<'a> GitIdentityPane<'a> {
    /// A pane over the given identity.
    pub fn new(identity: &'a GitIdentity) -> (r: Self)
        ensures
            r.identity == identity,
    {
        GitIdentityPane { identity }
    }

    /// The pane's title.
    pub fn title(&self) -> (r: &'static str)
        ensures
            r@ == " Git Identity "@,
    {
        " Git Identity "
    }

    /// The pane's text lines: name, then email.
    pub fn lines(&self) -> (r: Vec<String>)
        ensures
            views(r@) == seq![
                "  name:   "@ + self.identity.user_name@,
                "  email:  "@ + self.identity.user_email@,
            ],
    {
        let mut a = String::from_str("  name:   ");
        a.append(self.identity.user_name.as_str());
        let mut b = String::from_str("  email:  ");
        b.append(self.identity.user_email.as_str());
        let mut out: Vec<String> = Vec::new();
        out.push(a);
        out.push(b);
        assert(views(out@) =~= seq![
            "  name:   "@ + self.identity.user_name@,
            "  email:  "@ + self.identity.user_email@,
        ]);
        out
    }
}

/// The "Repo Health" pane: branch, HEAD and changed-file count.
pub struct RepoHealthPane<'a> {
    pub health: &'a RepoHealth,
}

impl<'a> RepoHealthPane<'a> {
    /// A pane over the given health data.
    pub fn new(health: &'a RepoHealth) -> (r: Self)
        ensures
            r.health == health,
    {
        RepoHealthPane { health }
    }

    /// The pane's title.
    pub fn title(&self) -> (r: &'static str)
        ensures
            r@ == " Repo Health "@,
    {
        " Repo Health "
    }

    /// The pane's text lines: branch, HEAD, changed files.
    pub fn lines(&self) -> (r: Vec<String>)
        ensures
            views(r@) == seq![
                "  branch:  "@ + self.health.branch@,
                "  HEAD:    "@ + self.health.short_head@,
                "  dirty:   "@ + decimal(self.health.dirty_count as nat) + " file(s)"@,
            ],
    {
        let mut a = String::from_str("  branch:  ");
        a.append(self.health.branch.as_str());
        let mut b = String::from_str("  HEAD:    ");
        b.append(self.health.short_head.as_str());
        let mut c = String::from_str("  dirty:   ");
        let n = decimal_string(self.health.dirty_count);
        c.append(n.as_str());
        c.append(" file(s)");
        let mut out: Vec<String> = Vec::new();
        out.push(a);
        out.push(b);
        out.push(c);
        assert(views(out@) =~= seq![
            "  branch:  "@ + self.health.branch@,
            "  HEAD:    "@ + self.health.short_head@,
            "  dirty:   "@ + decimal(self.health.dirty_count as nat) + " file(s)"@,
        ]);
        out
    }
}

// --- Widget catalog entries ---

/// A tool with its version line.
fn tool(name: &str, version: &str) -> (r: ToolInfo)
    ensures
        r.name@ == name@,
        r.version@ == version@,
{
    ToolInfo { name: owned(name), version: owned(version) }
}

/// Representative tool versions for the catalog.
pub fn sample_tools() -> (r: Vec<ToolInfo>)
    ensures
        r@.len() == 6,
        r@[0].name@ == "git"@ && r@[0].version@ == "git version 2.49.0"@,
        r@[1].name@ == "rustc"@ && r@[1].version@ == "rustc 1.86.0 (05f9846f8 2025-03-31)"@,
        r@[2].name@ == "cargo"@ && r@[2].version@ == "cargo 1.86.0 (adf9b6ad1 2025-02-28)"@,
        r@[3].name@ == "node"@ && r@[3].version@ == "v22.16.0"@,
        r@[4].name@ == "pnpm"@ && r@[4].version@ == "10.11.0"@,
        r@[5].name@ == "docker"@ && r@[5].version@ == "Docker version 28.1.1, build 4eba377"@,
{
    let mut v: Vec<ToolInfo> = Vec::new();
    v.push(tool("git", "git version 2.49.0"));
    v.push(tool("rustc", "rustc 1.86.0 (05f9846f8 2025-03-31)"));
    v.push(tool("cargo", "cargo 1.86.0 (adf9b6ad1 2025-02-28)"));
    v.push(tool("node", "v22.16.0"));
    v.push(tool("pnpm", "10.11.0"));
    v.push(tool("docker", "Docker version 28.1.1, build 4eba377"));
    v
}

/// A configured identity for the catalog.
pub fn sample_identity() -> (r: GitIdentity)
    ensures
        r.user_name@ == "Ada Lovelace"@,
        r.user_email@ == "ada@example.com"@,
{
    GitIdentity { user_name: owned("Ada Lovelace"), user_email: owned("ada@example.com") }
}

/// A repository with a few changed files, for the catalog.
pub fn sample_health() -> (r: RepoHealth)
    ensures
        r.branch@ == "main"@,
        r.short_head@ == "abc1234"@,
        r.dirty_count == 3,
{
    RepoHealth { branch: owned("main"), short_head: owned("abc1234"), dirty_count: 3 }
}

/// Catalog entry: all tools present.
pub struct ToolingDefault;

/// Catalog entry: some tools missing.
pub struct ToolingMissing;

/// Catalog entry: identity configured.
pub struct GitIdentityDefault;

/// Catalog entry: identity unset.
pub struct GitIdentityUnset;

/// Catalog entry: a few changed files.
pub struct RepoHealthDefault;

/// Catalog entry: a clean repository.
pub struct RepoHealthClean;

impl ToolingDefault {
    /// The catalog group, name, source and description.
    pub fn info(&self) -> (r: (&'static str, &'static str, &'static str, &'static str))
        ensures
            r.0@ == "Tooling"@ && r.1@ == "Default"@ && r.2@
                == "neon_cli::doctor::widgets::ToolingPane"@ && r.3@
                == "All tracked tools present with representative version strings."@,
    {
        (
            "Tooling",
            "Default",
            "neon_cli::doctor::widgets::ToolingPane",
            "All tracked tools present with representative version strings.",
        )
    }

    /// The tools shown.
    pub fn tools(&self) -> (r: Vec<ToolInfo>)
        ensures
            r@.len() == 6,
    {
        sample_tools()
    }
}

impl ToolingMissing {
    /// The catalog group, name, source and description.
    pub fn info(&self) -> (r: (&'static str, &'static str, &'static str, &'static str))
        ensures
            r.0@ == "Tooling"@ && r.1@ == "Missing tools"@ && r.2@
                == "neon_cli::doctor::widgets::ToolingPane"@ && r.3@
                == "Some tools report not-found, showing how missing entries render."@,
    {
        (
            "Tooling",
            "Missing tools",
            "neon_cli::doctor::widgets::ToolingPane",
            "Some tools report not-found, showing how missing entries render.",
        )
    }

    /// The tools shown: git present, rustc and docker not found.
    pub fn tools(&self) -> (r: Vec<ToolInfo>)
        ensures
            r@.len() == 3,
            r@[0].name@ == "git"@ && r@[0].version@ == "git version 2.49.0"@,
            r@[1].name@ == "rustc"@ && r@[1].version@ == "not found"@,
            r@[2].name@ == "docker"@ && r@[2].version@ == "not found"@,
    {
        let mut v: Vec<ToolInfo> = Vec::new();
        v.push(tool("git", "git version 2.49.0"));
        v.push(tool("rustc", "not found"));
        v.push(tool("docker", "not found"));
        v
    }
}

impl GitIdentityDefault {
    /// The catalog group, name, source and description.
    pub fn info(&self) -> (r: (&'static str, &'static str, &'static str, &'static str))
        ensures
            r.0@ == "Git Identity"@ && r.1@ == "Default"@ && r.2@
                == "neon_cli::doctor::widgets::GitIdentityPane"@ && r.3@
                == "User name and email both configured."@,
    {
        (
            "Git Identity",
            "Default",
            "neon_cli::doctor::widgets::GitIdentityPane",
            "User name and email both configured.",
        )
    }

    /// The identity shown.
    pub fn identity(&self) -> (r: GitIdentity)
        ensures
            r.user_name@ == "Ada Lovelace"@,
            r.user_email@ == "ada@example.com"@,
    {
        sample_identity()
    }
}

impl GitIdentityUnset {
    /// The catalog group, name, source and description.
    pub fn info(&self) -> (r: (&'static str, &'static str, &'static str, &'static str))
        ensures
            r.0@ == "Git Identity"@ && r.1@ == "Unset"@ && r.2@
                == "neon_cli::doctor::widgets::GitIdentityPane"@ && r.3@
                == "Both name and email unset, showing the (not set) fallback."@,
    {
        (
            "Git Identity",
            "Unset",
            "neon_cli::doctor::widgets::GitIdentityPane",
            "Both name and email unset, showing the (not set) fallback.",
        )
    }

    /// The identity shown: both parts unset.
    pub fn identity(&self) -> (r: GitIdentity)
        ensures
            r.user_name@ == "(not set)"@,
            r.user_email@ == "(not set)"@,
    {
        GitIdentity { user_name: owned("(not set)"), user_email: owned("(not set)") }
    }
}

impl RepoHealthDefault {
    /// The catalog group, name, source and description.
    pub fn info(&self) -> (r: (&'static str, &'static str, &'static str, &'static str))
        ensures
            r.0@ == "Repo Health"@ && r.1@ == "Default"@ && r.2@
                == "neon_cli::doctor::widgets::RepoHealthPane"@ && r.3@
                == "Branch, HEAD, and a small dirty-file count."@,
    {
        (
            "Repo Health",
            "Default",
            "neon_cli::doctor::widgets::RepoHealthPane",
            "Branch, HEAD, and a small dirty-file count.",
        )
    }

    /// The health data shown.
    pub fn health(&self) -> (r: RepoHealth)
        ensures
            r.branch@ == "main"@,
            r.short_head@ == "abc1234"@,
            r.dirty_count == 3,
    {
        sample_health()
    }
}

impl RepoHealthClean {
    /// The catalog group, name, source and description.
    pub fn info(&self) -> (r: (&'static str, &'static str, &'static str, &'static str))
        ensures
            r.0@ == "Repo Health"@ && r.1@ == "Clean"@ && r.2@
                == "neon_cli::doctor::widgets::RepoHealthPane"@ && r.3@
                == "Repo with zero dirty files, the clean-slate state."@,
    {
        (
            "Repo Health",
            "Clean",
            "neon_cli::doctor::widgets::RepoHealthPane",
            "Repo with zero dirty files, the clean-slate state.",
        )
    }

    /// The health data shown: no changed files.
    pub fn health(&self) -> (r: RepoHealth)
        ensures
            r.branch@ == "feature/neo-25-pantry"@,
            r.short_head@ == "deadbeef"@,
            r.dirty_count == 0,
    {
        RepoHealth {
            branch: owned("feature/neo-25-pantry"),
            short_head: owned("deadbeef"),
            dirty_count: 0,
        }
    }
}

} // verus!
