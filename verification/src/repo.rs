//! `neon repo init`: the repository profile, the scaffold plan it implies,
//! cross-field validation, and the dry-run report.
use vstd::prelude::*;
use vstd::string::*;

use crate::text::{
    contains_spec, occurs_at, ends_with_cr, lemma_lines_cons, lemma_lines_prefixed, lemma_plain_concat, lines_spec,
    no_newline, plain_line, prefixed_lines, push_prefixed_lines, starts_with_spec, views,
};

verus! {

// --- Profile inputs ---

/// Repository topology: single-maintainer vs multi-person team.
#[derive(Clone, Copy, Debug, PartialEq, Eq, Structural)]
pub enum Topology {
    /// Single-maintainer repo — admin bypass on branch protection.
    Solo,
    /// Multi-person team — strict approval requirements.
    Team,
}

/// Repository visibility on GitHub.
#[derive(Clone, Copy, Debug, PartialEq, Eq, Structural)]
pub enum Visibility {
    /// Public repo — free secret scanning and push protection.
    Public,
    /// Private repo — paid security features path.
    Private,
}

/// npm publish target for this repo.
#[derive(Clone, Copy, Debug, PartialEq, Eq, Structural)]
pub enum Publish {
    /// No npm publishing — skip release workflow.
    NoPublish,
    /// Wire up Changesets but defer npm publish; a human triggers the release.
    Changesets,
    /// Full npm publish on merge (provenance + access configured).
    NpmNow,
}

/// Merge strategy profile.
#[derive(Clone, Copy, Debug, PartialEq, Eq, Structural)]
pub enum Merge {
    /// Squash-only — standard for libraries / OSS packages.
    Library,
    /// Squash + rebase — suits application repos.
    App,
}

/// Language stack present in the repository.
#[derive(Clone, Copy, Debug, PartialEq, Eq, Structural)]
pub enum Languages {
    /// TypeScript/JS only — no Rust toolchain, no Cargo workspace.
    Ts,
    /// Rust only — no pnpm/Turborepo, no TypeScript CI.
    Rust,
    /// Both TypeScript and Rust (the canonical profile).
    Both,
    /// Bare repo — community/docs/.github files only; no language workspace.
    Bare,
}

/// License for the repository.
#[derive(Clone, Copy, Debug, PartialEq, Eq, Structural)]
pub enum License {
    /// MIT License (permissive).
    Mit,
    /// Apache License 2.0 (permissive with patent grant).
    Apache2,
    /// GNU General Public License v3.0 (copyleft).
    Gpl3,
    /// BSD 3-Clause License (permissive).
    Bsd3Clause,
    /// Mozilla Public License 2.0 (weak copyleft).
    Mpl2,
    /// The Unlicense (public domain dedication).
    Unlicense,
    /// Proprietary — no LICENSE file emitted.
    Proprietary,
}

impl Default for Topology {
    fn default() -> (r: Self)
        ensures
            r == Topology::Solo,
    {
        Topology::Solo
    }
}

impl Default for Visibility {
    fn default() -> (r: Self)
        ensures
            r == Visibility::Public,
    {
        Visibility::Public
    }
}

impl Default for Publish {
    fn default() -> (r: Self)
        ensures
            r == Publish::NoPublish,
    {
        Publish::NoPublish
    }
}

impl Default for Merge {
    fn default() -> (r: Self)
        ensures
            r == Merge::Library,
    {
        Merge::Library
    }
}

impl Default for Languages {
    fn default() -> (r: Self)
        ensures
            r == Languages::Both,
    {
        Languages::Both
    }
}

impl Default for License {
    fn default() -> (r: Self)
        ensures
            r == License::Mit,
    {
        License::Mit
    }
}

// --- Canonical profile ---

/// The full set of configurable inputs that drive scaffold and harden behaviour.
///
/// The `Default` impl encodes the canonical OSS + solo + both-languages +
/// defer-publish profile used when no flags are supplied.
#[derive(Clone, Copy, Debug, PartialEq, Eq, Structural)]
pub struct RepoProfile {
    pub topology: Topology,
    pub visibility: Visibility,
    pub publish: Publish,
    pub merge: Merge,
    pub languages: Languages,
    pub license: License,
}

/// The canonical profile.
pub open spec fn canonical_profile() -> RepoProfile {
    RepoProfile {
        topology: Topology::Solo,
        visibility: Visibility::Public,
        publish: Publish::NoPublish,
        merge: Merge::Library,
        languages: Languages::Both,
        license: License::Mit,
    }
}

impl Default for RepoProfile {
    fn default() -> (r: Self)
        ensures
            r == canonical_profile(),
    {
        RepoProfile {
            topology: Topology::Solo,
            visibility: Visibility::Public,
            publish: Publish::NoPublish,
            merge: Merge::Library,
            languages: Languages::Both,
            license: License::Mit,
        }
    }
}

// --- CLI args ---

/// Arguments for `neon repo init`.
pub struct InitArgs {
    /// Target directory for the new repository, as displayed (default: current directory).
    pub path: Option<String>,
    pub topology: Topology,
    pub visibility: Visibility,
    pub publish: Publish,
    pub merge: Merge,
    pub languages: Languages,
    pub license: License,
}

impl InitArgs {
    /// Build a `RepoProfile` from the parsed CLI arguments.
    fn into_profile(self) -> (r: RepoProfile)
        ensures
            r == (RepoProfile {
                topology: self.topology,
                visibility: self.visibility,
                publish: self.publish,
                merge: self.merge,
                languages: self.languages,
                license: self.license,
            }),
    {
        RepoProfile {
            topology: self.topology,
            visibility: self.visibility,
            publish: self.publish,
            merge: self.merge,
            languages: self.languages,
            license: self.license,
        }
    }
}

// --- Plan derivation ---

/// A single item in the scaffold plan.
#[derive(Debug, PartialEq, Eq)]
pub struct PlanItem {
    /// Short label for what would be created.
    pub label: String,
}

impl PlanItem {
    fn new(label: &str) -> (r: Self)
        ensures
            r.label@ == label@,
    {
        PlanItem { label: String::from_str(label) }
    }
}

/// The labels of a plan, in order.
pub open spec fn labels(items: Seq<PlanItem>) -> Seq<Seq<char>> {
    items.map_values(|i: PlanItem| i.label@)
}

/// The LICENSE entry for a license, if one is emitted.
pub open spec fn license_label(l: License) -> Option<Seq<char>> {
    match l {
        License::Mit => Some("LICENSE (MIT)"@),
        License::Apache2 => Some("LICENSE (Apache-2.0)"@),
        License::Gpl3 => Some("LICENSE (GPL-3.0)"@),
        License::Bsd3Clause => Some("LICENSE (BSD-3-Clause)"@),
        License::Mpl2 => Some("LICENSE (MPL-2.0)"@),
        License::Unlicense => Some("LICENSE (Unlicense)"@),
        License::Proprietary => None,
    }
}

/// Community and GitHub files present in every plan.
pub open spec fn community_labels() -> Seq<Seq<char>> {
    seq![
        "CONTRIBUTING.md"@,
        "CODE_OF_CONDUCT.md (Contributor Covenant v2.1)"@,
        "SECURITY.md"@,
        "CHANGELOG.md"@,
        ".github/PULL_REQUEST_TEMPLATE.md"@,
        ".github/ISSUE_TEMPLATE/bug_report.yml"@,
        ".github/ISSUE_TEMPLATE/feature_request.yml"@,
        ".github/ISSUE_TEMPLATE/documentation.yml"@,
        ".github/ISSUE_TEMPLATE/config.yml"@,
    ]
}

/// The Dependabot entry for a language stack.
pub open spec fn dependabot_label(l: Languages) -> Seq<char> {
    match l {
        Languages::Ts => ".github/dependabot.yml (npm ecosystem)"@,
        Languages::Rust => ".github/dependabot.yml (cargo ecosystem)"@,
        Languages::Both => ".github/dependabot.yml (npm + cargo ecosystems)"@,
        Languages::Bare => ".github/dependabot.yml (github-actions only)"@,
    }
}

/// The stack has a TypeScript / JS workspace.
pub open spec fn has_ts(l: Languages) -> bool {
    l is Ts || l is Both
}

/// The stack has a Rust / Cargo workspace.
pub open spec fn has_rust(l: Languages) -> bool {
    l is Rust || l is Both
}

/// TypeScript / JS workspace files.
pub open spec fn ts_labels() -> Seq<Seq<char>> {
    seq![
        "package.json (type=module, workspace root)"@,
        "pnpm-workspace.yaml"@,
        "turbo.json"@,
        "tsconfig.base.json"@,
        "eslint.config.js"@,
        ".github/workflows/typescript.yml"@,
    ]
}

/// Rust / Cargo workspace files.
pub open spec fn rust_labels() -> Seq<Seq<char>> {
    seq![
        "Cargo.toml (workspace)"@,
        "rust-toolchain.toml"@,
        "clippy.toml"@,
        ".github/workflows/rust.yml"@,
    ]
}

/// Release artifacts for a publish strategy.
pub open spec fn publish_labels(p: Publish) -> Seq<Seq<char>> {
    match p {
        Publish::NoPublish => seq![],
        Publish::Changesets => seq![
            ".changeset/config.json"@,
            ".github/workflows/release.yml (changesets \u{2014} human-triggered)"@,
        ],
        Publish::NpmNow => seq![
            ".changeset/config.json"@,
            ".github/workflows/release.yml (npm publish on merge, provenance enabled)"@,
        ],
    }
}

/// Every file / artifact that `neon repo init` would generate for `p`, in order.
pub open spec fn plan_labels(p: RepoProfile) -> Seq<Seq<char>> {
    seq!["README.md"@] + (match license_label(p.license) {
        Some(x) => seq![x],
        None => seq![],
    }) + community_labels() + seq![dependabot_label(p.languages), ".coderabbit.yaml"@] + (if has_ts(
        p.languages,
    ) {
        ts_labels()
    } else {
        seq![]
    }) + (if has_rust(p.languages) {
        rust_labels()
    } else {
        seq![]
    }) + publish_labels(p.publish)
}

fn push_item(items: &mut Vec<PlanItem>, label: &str)
    ensures
        labels(final(items)@) == labels(old(items)@).push(label@),
{
    let ghost before = items@;
    items.push(PlanItem::new(label));
    assert(labels(items@) =~= labels(before).push(label@));
}

fn push_license(items: &mut Vec<PlanItem>, l: License)
    ensures
        labels(final(items)@) == labels(old(items)@) + match license_label(l) {
            Some(x) => seq![x],
            None => seq![],
        },
{
    let ghost before = labels(items@);
    match l {
        License::Mit => push_item(items, "LICENSE (MIT)"),
        License::Apache2 => push_item(items, "LICENSE (Apache-2.0)"),
        License::Gpl3 => push_item(items, "LICENSE (GPL-3.0)"),
        License::Bsd3Clause => push_item(items, "LICENSE (BSD-3-Clause)"),
        License::Mpl2 => push_item(items, "LICENSE (MPL-2.0)"),
        License::Unlicense => push_item(items, "LICENSE (Unlicense)"),
        License::Proprietary => {},
    }
    assert(labels(items@) =~= before + match license_label(l) {
        Some(x) => seq![x],
        None => seq![],
    });
}

fn push_community(items: &mut Vec<PlanItem>)
    ensures
        labels(final(items)@) == labels(old(items)@) + community_labels(),
{
    let ghost before = labels(items@);
    push_item(items, "CONTRIBUTING.md");
    push_item(items, "CODE_OF_CONDUCT.md (Contributor Covenant v2.1)");
    push_item(items, "SECURITY.md");
    push_item(items, "CHANGELOG.md");
    push_item(items, ".github/PULL_REQUEST_TEMPLATE.md");
    push_item(items, ".github/ISSUE_TEMPLATE/bug_report.yml");
    push_item(items, ".github/ISSUE_TEMPLATE/feature_request.yml");
    push_item(items, ".github/ISSUE_TEMPLATE/documentation.yml");
    push_item(items, ".github/ISSUE_TEMPLATE/config.yml");
    assert(labels(items@) =~= before + community_labels());
}

fn push_dependabot(items: &mut Vec<PlanItem>, l: Languages)
    ensures
        labels(final(items)@) == labels(old(items)@) + seq![dependabot_label(l), ".coderabbit.yaml"@],
{
    let ghost before = labels(items@);
    match l {
        Languages::Ts => push_item(items, ".github/dependabot.yml (npm ecosystem)"),
        Languages::Rust => push_item(items, ".github/dependabot.yml (cargo ecosystem)"),
        Languages::Both => push_item(items, ".github/dependabot.yml (npm + cargo ecosystems)"),
        Languages::Bare => push_item(items, ".github/dependabot.yml (github-actions only)"),
    }
    push_item(items, ".coderabbit.yaml");
    assert(labels(items@) =~= before + seq![dependabot_label(l), ".coderabbit.yaml"@]);
}

fn push_ts(items: &mut Vec<PlanItem>, l: Languages)
    ensures
        labels(final(items)@) == labels(old(items)@) + if has_ts(l) {
            ts_labels()
        } else {
            seq![]
        },
{
    let ghost before = labels(items@);
    if matches!(l, Languages::Ts | Languages::Both) {
        push_item(items, "package.json (type=module, workspace root)");
        push_item(items, "pnpm-workspace.yaml");
        push_item(items, "turbo.json");
        push_item(items, "tsconfig.base.json");
        push_item(items, "eslint.config.js");
        push_item(items, ".github/workflows/typescript.yml");
        assert(labels(items@) =~= before + ts_labels());
    } else {
        assert(labels(items@) =~= before + Seq::<Seq<char>>::empty());
    }
}

fn push_rust(items: &mut Vec<PlanItem>, l: Languages)
    ensures
        labels(final(items)@) == labels(old(items)@) + if has_rust(l) {
            rust_labels()
        } else {
            seq![]
        },
{
    let ghost before = labels(items@);
    if matches!(l, Languages::Rust | Languages::Both) {
        push_item(items, "Cargo.toml (workspace)");
        push_item(items, "rust-toolchain.toml");
        push_item(items, "clippy.toml");
        push_item(items, ".github/workflows/rust.yml");
        assert(labels(items@) =~= before + rust_labels());
    } else {
        assert(labels(items@) =~= before + Seq::<Seq<char>>::empty());
    }
}

fn push_publish(items: &mut Vec<PlanItem>, p: Publish)
    ensures
        labels(final(items)@) == labels(old(items)@) + publish_labels(p),
{
    let ghost before = labels(items@);
    match p {
        Publish::NoPublish => {},
        Publish::Changesets => {
            push_item(items, ".changeset/config.json");
            push_item(items, ".github/workflows/release.yml (changesets \u{2014} human-triggered)");
        },
        Publish::NpmNow => {
            push_item(items, ".changeset/config.json");
            push_item(
                items,
                ".github/workflows/release.yml (npm publish on merge, provenance enabled)",
            );
        },
    }
    assert(labels(items@) =~= before + publish_labels(p));
}

/// Derive the list of files / artifacts that `neon repo init` would generate
/// for the given profile.
pub fn plan(profile: &RepoProfile) -> (r: Vec<PlanItem>)
    ensures
        labels(r@) == plan_labels(*profile),
{
    let mut items: Vec<PlanItem> = Vec::new();
    assert(labels(items@) =~= Seq::<Seq<char>>::empty());
    push_item(&mut items, "README.md");
    push_license(&mut items, profile.license);
    push_community(&mut items);
    push_dependabot(&mut items, profile.languages);
    push_ts(&mut items, profile.languages);
    push_rust(&mut items, profile.languages);
    push_publish(&mut items, profile.publish);
    assert(labels(items@) =~= plan_labels(*profile));
    items
}

// --- Report ---

/// `{:?}` of a topology.
pub open spec fn topology_name(t: Topology) -> Seq<char> {
    match t {
        Topology::Solo => "Solo"@,
        Topology::Team => "Team"@,
    }
}

/// `{:?}` of a visibility.
pub open spec fn visibility_name(v: Visibility) -> Seq<char> {
    match v {
        Visibility::Public => "Public"@,
        Visibility::Private => "Private"@,
    }
}

/// `{:?}` of a publish strategy.
pub open spec fn publish_name(p: Publish) -> Seq<char> {
    match p {
        Publish::NoPublish => "None"@,
        Publish::Changesets => "Changesets"@,
        Publish::NpmNow => "NpmNow"@,
    }
}

/// `{:?}` of a merge strategy.
pub open spec fn merge_name(m: Merge) -> Seq<char> {
    match m {
        Merge::Library => "Library"@,
        Merge::App => "App"@,
    }
}

/// `{:?}` of a language stack.
pub open spec fn languages_name(l: Languages) -> Seq<char> {
    match l {
        Languages::Ts => "Ts"@,
        Languages::Rust => "Rust"@,
        Languages::Both => "Both"@,
        Languages::Bare => "Bare"@,
    }
}

/// `{:?}` of a license.
pub open spec fn license_name(l: License) -> Seq<char> {
    match l {
        License::Mit => "Mit"@,
        License::Apache2 => "Apache2"@,
        License::Gpl3 => "Gpl3"@,
        License::Bsd3Clause => "Bsd3Clause"@,
        License::Mpl2 => "Mpl2"@,
        License::Unlicense => "Unlicense"@,
        License::Proprietary => "Proprietary"@,
    }
}

fn topology_str(t: Topology) -> (r: &'static str)
    ensures
        r@ == topology_name(t),
{
    match t {
        Topology::Solo => "Solo",
        Topology::Team => "Team",
    }
}

fn visibility_str(v: Visibility) -> (r: &'static str)
    ensures
        r@ == visibility_name(v),
{
    match v {
        Visibility::Public => "Public",
        Visibility::Private => "Private",
    }
}

fn publish_str(p: Publish) -> (r: &'static str)
    ensures
        r@ == publish_name(p),
{
    match p {
        Publish::NoPublish => "None",
        Publish::Changesets => "Changesets",
        Publish::NpmNow => "NpmNow",
    }
}

fn merge_str(m: Merge) -> (r: &'static str)
    ensures
        r@ == merge_name(m),
{
    match m {
        Merge::Library => "Library",
        Merge::App => "App",
    }
}

fn languages_str(l: Languages) -> (r: &'static str)
    ensures
        r@ == languages_name(l),
{
    match l {
        Languages::Ts => "Ts",
        Languages::Rust => "Rust",
        Languages::Both => "Both",
        Languages::Bare => "Bare",
    }
}

fn license_str(l: License) -> (r: &'static str)
    ensures
        r@ == license_name(l),
{
    match l {
        License::Mit => "Mit",
        License::Apache2 => "Apache2",
        License::Gpl3 => "Gpl3",
        License::Bsd3Clause => "Bsd3Clause",
        License::Mpl2 => "Mpl2",
        License::Unlicense => "Unlicense",
        License::Proprietary => "Proprietary",
    }
}

/// The dry-run report for `p` with target directory `target` as displayed.
pub open spec fn plan_report(p: RepoProfile, target: Seq<char>) -> Seq<char> {
    "=== neon repo init \u{2014} DRY RUN ===\n"@ + "  target:     "@ + target + "\n"@ + "\n"@
        + "=== Profile ===\n"@ + "  topology:   "@ + topology_name(p.topology) + "\n"@
        + "  visibility: "@ + visibility_name(p.visibility) + "\n"@ + "  publish:    "@
        + publish_name(p.publish) + "\n"@ + "  merge:      "@ + merge_name(p.merge) + "\n"@
        + "  languages:  "@ + languages_name(p.languages) + "\n"@ + "  license:    "@
        + license_name(p.license) + "\n"@ + "\n"@ + "=== Would generate ===\n"@ + prefixed_lines(
        "  would create: "@,
        plan_labels(p),
    ) + "\n"@ + "No files were written (dry-run).\n"@
}

/// The target shown when no path is given.
pub open spec fn target_of(path: Option<Seq<char>>) -> Seq<char> {
    match path {
        Some(p) => p,
        None => "."@,
    }
}

fn item_labels(items: &Vec<PlanItem>) -> (r: Vec<String>)
    ensures
        views(r@) == labels(items@),
{
    let mut out: Vec<String> = Vec::new();
    let mut i: usize = 0;
    while i < items.len()
        invariant
            i <= items.len(),
            views(out@) == labels(items@.subrange(0, i as int)),
        decreases items.len() - i,
    {
        let ghost before = out@;
        out.push(items[i].label.clone());
        proof {
            assert(views(out@) =~= views(before).push(items@[i as int].label@));
            assert(labels(items@.subrange(0, i + 1)) =~= labels(items@.subrange(0, i as int)).push(
                items@[i as int].label@,
            ));
        }
        i = i + 1;
    }
    assert(items@.subrange(0, items.len() as int) =~= items@);
    out
}

/// Format the scaffold plan as a human-readable string, including the profile
/// summary.  `path` is the target directory as displayed.
pub fn format_plan(profile: &RepoProfile, path: Option<&str>) -> (r: String)
    ensures
        r@ == plan_report(
            *profile,
            target_of(
                match path {
                    Some(p) => Some(p@),
                    None => None,
                },
            ),
        ),
{
    let mut s = String::from_str("=== neon repo init \u{2014} DRY RUN ===\n");
    s.append("  target:     ");
    match path {
        Some(p) => s.append(p),
        None => s.append("."),
    }
    s.append("\n");
    s.append("\n");
    s.append("=== Profile ===\n");
    s.append("  topology:   ");
    s.append(topology_str(profile.topology));
    s.append("\n");
    s.append("  visibility: ");
    s.append(visibility_str(profile.visibility));
    s.append("\n");
    s.append("  publish:    ");
    s.append(publish_str(profile.publish));
    s.append("\n");
    s.append("  merge:      ");
    s.append(merge_str(profile.merge));
    s.append("\n");
    s.append("  languages:  ");
    s.append(languages_str(profile.languages));
    s.append("\n");
    s.append("  license:    ");
    s.append(license_str(profile.license));
    s.append("\n");
    s.append("\n");
    s.append("=== Would generate ===\n");
    let items = plan(profile);
    let names = item_labels(&items);
    push_prefixed_lines(&mut s, "  would create: ", &names);
    s.append("\n");
    s.append("No files were written (dry-run).\n");
    s
}

// --- Cross-field validation ---

/// Why a profile was rejected.
#[derive(Clone, Copy, Debug, PartialEq, Eq, Structural)]
pub enum RepoError {
    /// `--publish changesets|npm-now` with a Rust-only stack.
    PublishWithoutNpmPackage,
    /// `--publish changesets|npm-now` with a bare repo.
    PublishWithoutWorkspace,
}

impl RepoError {
    /// The message shown to the user.
    pub fn message(&self) -> (r: &'static str)
        ensures
            r@ == repo_error_message(*self),
    {
        match self {
            RepoError::PublishWithoutNpmPackage => "--publish changesets|npm-now requires --languages ts|both (a Rust-only repo has no npm package to publish)",
            RepoError::PublishWithoutWorkspace => "--publish requires a language workspace; bare repos have no npm package",
        }
    }
}

/// The message of each rejection.
pub open spec fn repo_error_message(e: RepoError) -> Seq<char> {
    match e {
        RepoError::PublishWithoutNpmPackage => "--publish changesets|npm-now requires --languages ts|both (a Rust-only repo has no npm package to publish)"@,
        RepoError::PublishWithoutWorkspace => "--publish requires a language workspace; bare repos have no npm package"@,
    }
}

/// What `validate` decides for a profile.
pub open spec fn validation(p: RepoProfile) -> Result<(), RepoError> {
    if p.languages is Rust && !(p.publish is NoPublish) {
        Err(RepoError::PublishWithoutNpmPackage)
    } else if p.languages is Bare && !(p.publish is NoPublish) {
        Err(RepoError::PublishWithoutWorkspace)
    } else {
        Ok(())
    }
}

/// Validate constraints that span more than one profile field: npm release
/// artifacts only make sense for a JS/TS workspace.
pub fn validate(profile: &RepoProfile) -> (r: Result<(), RepoError>)
    ensures
        r == validation(*profile),
{
    if matches!(profile.languages, Languages::Rust) && !matches!(profile.publish, Publish::NoPublish) {
        return Err(RepoError::PublishWithoutNpmPackage);
    }
    if matches!(profile.languages, Languages::Bare) && !matches!(profile.publish, Publish::NoPublish) {
        return Err(RepoError::PublishWithoutWorkspace);
    }
    Ok(())
}

// --- Entry point ---

/// `neon repo init`: builds the profile from the arguments, validates it and
/// returns the dry-run report to print.
pub fn init(args: InitArgs) -> (r: Result<String, RepoError>)
    ensures
        ({
            let p = RepoProfile {
                topology: args.topology,
                visibility: args.visibility,
                publish: args.publish,
                merge: args.merge,
                languages: args.languages,
                license: args.license,
            };
            match validation(p) {
                Err(e) => r == Err::<String, RepoError>(e),
                Ok(_) => r is Ok && r->Ok_0@ == plan_report(
                    p,
                    target_of(
                        match args.path {
                            Some(s) => Some(s@),
                            None => None,
                        },
                    ),
                ),
            }
        }),
{
    let path = args.path.clone();
    let profile = args.into_profile();
    match validate(&profile) {
        Err(e) => Err(e),
        Ok(()) => {
            let text = match &path {
                Some(p) => format_plan(&profile, Some(p.as_str())),
                None => format_plan(&profile, None),
            };
            Ok(text)
        },
    }
}

} // verus!

verus! {

// --- Laws ---

proof fn lemma_concat_lacks(a: Seq<Seq<char>>, b: Seq<Seq<char>>, x: Seq<char>)
    requires
        !a.contains(x),
        !b.contains(x),
    ensures
        !(a + b).contains(x),
{
    if (a + b).contains(x) {
        let i = choose|i: int| 0 <= i < (a + b).len() && (a + b)[i] == x;
        if i < a.len() {
            assert(a[i] == x);
        } else {
            assert(b[i - a.len()] == x);
        }
    }
}

/// Splits a plan into the part before the workspace files, the TypeScript
/// files, the Rust files and the release files.
proof fn lemma_plan_parts(p: RepoProfile, x: Seq<char>)
    requires
        x != "README.md"@,
        license_label(p.license) != Some(x),
        !community_labels().contains(x),
        x != dependabot_label(p.languages),
        x != ".coderabbit.yaml"@,
        has_ts(p.languages) ==> !ts_labels().contains(x),
        has_rust(p.languages) ==> !rust_labels().contains(x),
        !publish_labels(p.publish).contains(x),
    ensures
        !plan_labels(p).contains(x),
{
    let a = seq!["README.md"@] + (match license_label(p.license) {
        Some(y) => seq![y],
        None => seq![],
    }) + community_labels() + seq![dependabot_label(p.languages), ".coderabbit.yaml"@];
    let lic = match license_label(p.license) {
        Some(y) => seq![y],
        None => seq![],
    };
    assert(!seq!["README.md"@].contains(x));
    assert(!lic.contains(x));
    assert(!seq![dependabot_label(p.languages), ".coderabbit.yaml"@].contains(x));
    lemma_concat_lacks(seq!["README.md"@], lic, x);
    lemma_concat_lacks(seq!["README.md"@] + lic, community_labels(), x);
    lemma_concat_lacks(
        seq!["README.md"@] + lic + community_labels(),
        seq![dependabot_label(p.languages), ".coderabbit.yaml"@],
        x,
    );
    let t = if has_ts(p.languages) { ts_labels() } else { seq![] };
    let r = if has_rust(p.languages) { rust_labels() } else { seq![] };
    lemma_concat_lacks(a, t, x);
    lemma_concat_lacks(a + t, r, x);
    lemma_concat_lacks(a + t + r, publish_labels(p.publish), x);
}

/// Every plan lists the README, the community files and the CodeRabbit config,
/// whatever the profile.
pub proof fn law_plan_has_community_files(p: RepoProfile)
    ensures
        plan_labels(p)[0] == "README.md"@,
        forall|i: int| 0 <= i < community_labels().len() ==> plan_labels(p).contains(#[trigger] community_labels()[i]),
        plan_labels(p).contains(".coderabbit.yaml"@),
{
    let l = plan_labels(p);
    let k: int = if license_label(p.license) is Some { 2 } else { 1 };
    assert forall|i: int| 0 <= i < community_labels().len() implies l.contains(#[trigger] community_labels()[i]) by {
        assert(l[k + i] == community_labels()[i]);
    }
    assert(l[k + 10] == ".coderabbit.yaml"@);
}

/// A profile that passes validation never plans npm release artifacts
/// without a JS/TS workspace to publish from.
pub proof fn law_valid_profile_releases_only_with_npm_workspace(p: RepoProfile)
    requires
        validation(p) is Ok,
        !(p.publish is NoPublish),
    ensures
        has_ts(p.languages),
        plan_labels(p).contains("package.json (type=module, workspace root)"@),
        plan_labels(p).contains(".changeset/config.json"@),
{
    let l = plan_labels(p);
    let k: int = if license_label(p.license) is Some { 2 } else { 1 };
    assert(l[k + 11] == "package.json (type=module, workspace root)"@);
    let r: int = if has_rust(p.languages) { 4 } else { 0 };
    assert(l[k + 17 + r] == ".changeset/config.json"@);
}

/// Lengths, first and ninth characters of the plan's labels, which tell them
/// apart.
proof fn lemma_label_facts()
    ensures
        "README.md"@[8] == 'd',
        "LICENSE (MIT)"@[8] == '(',
        "LICENSE (Apache-2.0)"@[8] == '(',
        "LICENSE (GPL-3.0)"@[8] == '(',
        "LICENSE (BSD-3-Clause)"@[8] == '(',
        "LICENSE (MPL-2.0)"@[8] == '(',
        "LICENSE (Unlicense)"@[8] == '(',
        "CONTRIBUTING.md"@[8] == 'T',
        "CODE_OF_CONDUCT.md (Contributor Covenant v2.1)"@[8] == 'C',
        "SECURITY.md"@[8] == '.',
        "CHANGELOG.md"@[8] == 'G',
        ".github/PULL_REQUEST_TEMPLATE.md"@[8] == 'P',
        ".github/ISSUE_TEMPLATE/bug_report.yml"@[8] == 'I',
        ".github/ISSUE_TEMPLATE/feature_request.yml"@[8] == 'I',
        ".github/ISSUE_TEMPLATE/documentation.yml"@[8] == 'I',
        ".github/ISSUE_TEMPLATE/config.yml"@[8] == 'I',
        ".github/dependabot.yml (npm ecosystem)"@[8] == 'd',
        ".github/dependabot.yml (cargo ecosystem)"@[8] == 'd',
        ".github/dependabot.yml (npm + cargo ecosystems)"@[8] == 'd',
        ".github/dependabot.yml (github-actions only)"@[8] == 'd',
        ".coderabbit.yaml"@[8] == 'b',
        "package.json (type=module, workspace root)"@[8] == 'j',
        "pnpm-workspace.yaml"@[8] == 'k',
        "turbo.json"@[8] == 'o',
        "tsconfig.base.json"@[8] == '.',
        "eslint.config.js"@[8] == 'o',
        ".github/workflows/typescript.yml"@[8] == 'w',
        "Cargo.toml (workspace)"@[8] == 'm',
        "rust-toolchain.toml"@[8] == 'l',
        "clippy.toml"@[8] == 'o',
        ".github/workflows/rust.yml"@[8] == 'w',
        ".changeset/config.json"@[8] == 'e',
        ".github/workflows/release.yml (changesets \u{2014} human-triggered)"@[8] == 'w',
        ".github/workflows/release.yml (npm publish on merge, provenance enabled)"@[8] == 'w',
        "README.md"@.len() == 9,
        "README.md"@[0] == 'R',
        "LICENSE (MIT)"@.len() == 13,
        "LICENSE (MIT)"@[0] == 'L',
        "LICENSE (Apache-2.0)"@.len() == 20,
        "LICENSE (Apache-2.0)"@[0] == 'L',
        "LICENSE (GPL-3.0)"@.len() == 17,
        "LICENSE (GPL-3.0)"@[0] == 'L',
        "LICENSE (BSD-3-Clause)"@.len() == 22,
        "LICENSE (BSD-3-Clause)"@[0] == 'L',
        "LICENSE (MPL-2.0)"@.len() == 17,
        "LICENSE (MPL-2.0)"@[0] == 'L',
        "LICENSE (Unlicense)"@.len() == 19,
        "LICENSE (Unlicense)"@[0] == 'L',
        "CONTRIBUTING.md"@.len() == 15,
        "CONTRIBUTING.md"@[0] == 'C',
        "CODE_OF_CONDUCT.md (Contributor Covenant v2.1)"@.len() == 46,
        "CODE_OF_CONDUCT.md (Contributor Covenant v2.1)"@[0] == 'C',
        "SECURITY.md"@.len() == 11,
        "SECURITY.md"@[0] == 'S',
        "CHANGELOG.md"@.len() == 12,
        "CHANGELOG.md"@[0] == 'C',
        ".github/PULL_REQUEST_TEMPLATE.md"@.len() == 32,
        ".github/PULL_REQUEST_TEMPLATE.md"@[0] == '.',
        ".github/ISSUE_TEMPLATE/bug_report.yml"@.len() == 37,
        ".github/ISSUE_TEMPLATE/bug_report.yml"@[0] == '.',
        ".github/ISSUE_TEMPLATE/feature_request.yml"@.len() == 42,
        ".github/ISSUE_TEMPLATE/feature_request.yml"@[0] == '.',
        ".github/ISSUE_TEMPLATE/documentation.yml"@.len() == 40,
        ".github/ISSUE_TEMPLATE/documentation.yml"@[0] == '.',
        ".github/ISSUE_TEMPLATE/config.yml"@.len() == 33,
        ".github/ISSUE_TEMPLATE/config.yml"@[0] == '.',
        ".github/dependabot.yml (npm ecosystem)"@.len() == 38,
        ".github/dependabot.yml (npm ecosystem)"@[0] == '.',
        ".github/dependabot.yml (cargo ecosystem)"@.len() == 40,
        ".github/dependabot.yml (cargo ecosystem)"@[0] == '.',
        ".github/dependabot.yml (npm + cargo ecosystems)"@.len() == 47,
        ".github/dependabot.yml (npm + cargo ecosystems)"@[0] == '.',
        ".github/dependabot.yml (github-actions only)"@.len() == 44,
        ".github/dependabot.yml (github-actions only)"@[0] == '.',
        ".coderabbit.yaml"@.len() == 16,
        ".coderabbit.yaml"@[0] == '.',
        "package.json (type=module, workspace root)"@.len() == 42,
        "package.json (type=module, workspace root)"@[0] == 'p',
        "pnpm-workspace.yaml"@.len() == 19,
        "pnpm-workspace.yaml"@[0] == 'p',
        "turbo.json"@.len() == 10,
        "turbo.json"@[0] == 't',
        "tsconfig.base.json"@.len() == 18,
        "tsconfig.base.json"@[0] == 't',
        "eslint.config.js"@.len() == 16,
        "eslint.config.js"@[0] == 'e',
        ".github/workflows/typescript.yml"@.len() == 32,
        ".github/workflows/typescript.yml"@[0] == '.',
        "Cargo.toml (workspace)"@.len() == 22,
        "Cargo.toml (workspace)"@[0] == 'C',
        "rust-toolchain.toml"@.len() == 19,
        "rust-toolchain.toml"@[0] == 'r',
        "clippy.toml"@.len() == 11,
        "clippy.toml"@[0] == 'c',
        ".github/workflows/rust.yml"@.len() == 26,
        ".github/workflows/rust.yml"@[0] == '.',
        ".changeset/config.json"@.len() == 22,
        ".changeset/config.json"@[0] == '.',
        ".github/workflows/release.yml (changesets \u{2014} human-triggered)"@.len() == 60,
        ".github/workflows/release.yml (changesets \u{2014} human-triggered)"@[0] == '.',
        ".github/workflows/release.yml (npm publish on merge, provenance enabled)"@.len() == 72,
        ".github/workflows/release.yml (npm publish on merge, provenance enabled)"@[0] == '.',
{
    reveal_strlit("README.md");
    reveal_strlit("LICENSE (MIT)");
    reveal_strlit("LICENSE (Apache-2.0)");
    reveal_strlit("LICENSE (GPL-3.0)");
    reveal_strlit("LICENSE (BSD-3-Clause)");
    reveal_strlit("LICENSE (MPL-2.0)");
    reveal_strlit("LICENSE (Unlicense)");
    reveal_strlit("CONTRIBUTING.md");
    reveal_strlit("CODE_OF_CONDUCT.md (Contributor Covenant v2.1)");
    reveal_strlit("SECURITY.md");
    reveal_strlit("CHANGELOG.md");
    reveal_strlit(".github/PULL_REQUEST_TEMPLATE.md");
    reveal_strlit(".github/ISSUE_TEMPLATE/bug_report.yml");
    reveal_strlit(".github/ISSUE_TEMPLATE/feature_request.yml");
    reveal_strlit(".github/ISSUE_TEMPLATE/documentation.yml");
    reveal_strlit(".github/ISSUE_TEMPLATE/config.yml");
    reveal_strlit(".github/dependabot.yml (npm ecosystem)");
    reveal_strlit(".github/dependabot.yml (cargo ecosystem)");
    reveal_strlit(".github/dependabot.yml (npm + cargo ecosystems)");
    reveal_strlit(".github/dependabot.yml (github-actions only)");
    reveal_strlit(".coderabbit.yaml");
    reveal_strlit("package.json (type=module, workspace root)");
    reveal_strlit("pnpm-workspace.yaml");
    reveal_strlit("turbo.json");
    reveal_strlit("tsconfig.base.json");
    reveal_strlit("eslint.config.js");
    reveal_strlit(".github/workflows/typescript.yml");
    reveal_strlit("Cargo.toml (workspace)");
    reveal_strlit("rust-toolchain.toml");
    reveal_strlit("clippy.toml");
    reveal_strlit(".github/workflows/rust.yml");
    reveal_strlit(".changeset/config.json");
    reveal_strlit(".github/workflows/release.yml (changesets \u{2014} human-triggered)");
    reveal_strlit(".github/workflows/release.yml (npm publish on merge, provenance enabled)");
}

/// The workspace files follow the language stack exactly: a Cargo workspace
/// if and only if Rust is in the stack, a `package.json` if and only if
/// TypeScript is, and release artifacts if and only if publishing is on.
pub proof fn law_plan_follows_stack(p: RepoProfile)
    ensures
        plan_labels(p).contains("Cargo.toml (workspace)"@) <==> has_rust(p.languages),
        plan_labels(p).contains("package.json (type=module, workspace root)"@) <==> has_ts(p.languages),
        plan_labels(p).contains(".changeset/config.json"@) <==> !(p.publish is NoPublish),
        license_label(p.license) is None <==> p.license is Proprietary,
{
    lemma_label_facts();
    let l = plan_labels(p);
    let k: int = if license_label(p.license) is Some { 2 } else { 1 };
    let t: int = if has_ts(p.languages) { 6 } else { 0 };
    let r: int = if has_rust(p.languages) { 4 } else { 0 };
    if has_rust(p.languages) {
        assert(l[k + 11 + t] == "Cargo.toml (workspace)"@);
    } else {
        lemma_plan_parts(p, "Cargo.toml (workspace)"@);
    }
    if has_ts(p.languages) {
        assert(l[k + 11] == "package.json (type=module, workspace root)"@);
    }
    if !(p.publish is NoPublish) {
        assert(l[k + 11 + t + r] == ".changeset/config.json"@);
    } else {
        lemma_plan_parts(p, ".changeset/config.json"@);
    }
    if !has_ts(p.languages) {
        lemma_plan_parts(p, "package.json (type=module, workspace root)"@);
    }
}

/// Which labels a stack and a publish setting add: each TypeScript file is
/// planned exactly when the stack has TypeScript, each Rust file exactly
/// when it has Rust, the Dependabot entry of exactly the chosen stack, and
/// the release files of exactly the chosen publish setting.
pub proof fn law_plan_group_labels(p: RepoProfile)
    ensures
        forall|j: int|
            0 <= j < ts_labels().len() ==> (plan_labels(p).contains(#[trigger] ts_labels()[j])
                <==> has_ts(p.languages)),
        forall|j: int|
            0 <= j < rust_labels().len() ==> (plan_labels(p).contains(#[trigger] rust_labels()[j])
                <==> has_rust(p.languages)),
        forall|l: Languages|
            plan_labels(p).contains(#[trigger] dependabot_label(l)) <==> l == p.languages,
        forall|q: Publish, j: int|
            0 <= j < publish_labels(q).len() ==> (plan_labels(p).contains(
                #[trigger] publish_labels(q)[j],
            ) <==> publish_labels(p.publish).contains(publish_labels(q)[j])),
{
    lemma_label_facts();
    let l = plan_labels(p);
    let k: int = if license_label(p.license) is Some { 2 } else { 1 };
    let t: int = if has_ts(p.languages) { 6 } else { 0 };
    let r: int = if has_rust(p.languages) { 4 } else { 0 };
    assert(l[k + 9] == dependabot_label(p.languages));
    assert forall|j: int| 0 <= j < ts_labels().len() implies (l.contains(#[trigger] ts_labels()[j])
        <==> has_ts(p.languages)) by {
        if has_ts(p.languages) {
            assert(l[k + 11 + j] == ts_labels()[j]);
        } else {
            if j == 0 {
                lemma_plan_parts(p, "package.json (type=module, workspace root)"@);
            } else if j == 1 {
                lemma_plan_parts(p, "pnpm-workspace.yaml"@);
            } else if j == 2 {
                lemma_plan_parts(p, "turbo.json"@);
            } else if j == 3 {
                lemma_plan_parts(p, "tsconfig.base.json"@);
            } else if j == 4 {
                lemma_plan_parts(p, "eslint.config.js"@);
            } else {
                lemma_plan_parts(p, ".github/workflows/typescript.yml"@);
            }
        }
    }
    assert forall|j: int| 0 <= j < rust_labels().len() implies (l.contains(#[trigger] rust_labels()[j])
        <==> has_rust(p.languages)) by {
        if has_rust(p.languages) {
            assert(l[k + 11 + t + j] == rust_labels()[j]);
        } else {
            if j == 0 {
                lemma_plan_parts(p, "Cargo.toml (workspace)"@);
            } else if j == 1 {
                lemma_plan_parts(p, "rust-toolchain.toml"@);
            } else if j == 2 {
                lemma_plan_parts(p, "clippy.toml"@);
            } else {
                lemma_plan_parts(p, ".github/workflows/rust.yml"@);
            }
        }
    }
    assert forall|m: Languages| l.contains(#[trigger] dependabot_label(m)) <==> m == p.languages by {
        if m != p.languages {
            match m {
                Languages::Ts => lemma_plan_parts(p, ".github/dependabot.yml (npm ecosystem)"@),
                Languages::Rust => lemma_plan_parts(p, ".github/dependabot.yml (cargo ecosystem)"@),
                Languages::Both => lemma_plan_parts(p, ".github/dependabot.yml (npm + cargo ecosystems)"@),
                Languages::Bare => lemma_plan_parts(p, ".github/dependabot.yml (github-actions only)"@),
            }
        }
    }
    assert forall|q: Publish, j: int| 0 <= j < publish_labels(q).len() implies (l.contains(
        #[trigger] publish_labels(q)[j],
    ) <==> publish_labels(p.publish).contains(publish_labels(q)[j])) by {
        let x = publish_labels(q)[j];
        let pl = publish_labels(p.publish);
        if pl.contains(x) {
            let m = choose|m: int| 0 <= m < pl.len() && pl[m] == x;
            assert(l[k + 11 + t + r + m] == x);
        } else {
            if x == ".changeset/config.json"@ {
                lemma_plan_parts(p, ".changeset/config.json"@);
            } else if x == ".github/workflows/release.yml (changesets \u{2014} human-triggered)"@ {
                lemma_plan_parts(p, ".github/workflows/release.yml (changesets \u{2014} human-triggered)"@);
            } else {
                assert(x == ".github/workflows/release.yml (npm publish on merge, provenance enabled)"@);
                lemma_plan_parts(p, ".github/workflows/release.yml (npm publish on merge, provenance enabled)"@);
            }
        }
    }
}

/// Every label of the list starts with a character other than `L`.
pub open spec fn none_start_with_l(s: Seq<Seq<char>>) -> bool {
    forall|j: int| 0 <= j < s.len() ==> (#[trigger] s[j]).len() > 0 && s[j][0] != 'L'
}

/// The fixed label groups hold no label starting with `L`.
proof fn lemma_groups_not_l(p: RepoProfile)
    ensures
        none_start_with_l(community_labels()),
        none_start_with_l(ts_labels()),
        none_start_with_l(rust_labels()),
        none_start_with_l(publish_labels(p.publish)),
        none_start_with_l(seq!["README.md"@, dependabot_label(p.languages), ".coderabbit.yaml"@]),
{
    lemma_label_facts();
    let c = community_labels();
    assert forall|j: int| 0 <= j < c.len() implies (#[trigger] c[j]).len() > 0 && c[j][0] != 'L' by {
        if j == 0 {} else if j == 1 {} else if j == 2 {} else if j == 3 {} else if j == 4 {}
        else if j == 5 {} else if j == 6 {} else if j == 7 {} else {}
    }
    let t = ts_labels();
    assert forall|j: int| 0 <= j < t.len() implies (#[trigger] t[j]).len() > 0 && t[j][0] != 'L' by {
        if j == 0 {} else if j == 1 {} else if j == 2 {} else if j == 3 {} else if j == 4 {} else {}
    }
    let r = rust_labels();
    assert forall|j: int| 0 <= j < r.len() implies (#[trigger] r[j]).len() > 0 && r[j][0] != 'L' by {
        if j == 0 {} else if j == 1 {} else if j == 2 {} else {}
    }
    let q = publish_labels(p.publish);
    assert forall|j: int| 0 <= j < q.len() implies (#[trigger] q[j]).len() > 0 && q[j][0] != 'L' by {
        if j == 0 {} else {}
    }
    let e = seq!["README.md"@, dependabot_label(p.languages), ".coderabbit.yaml"@];
    assert forall|j: int| 0 <= j < e.len() implies (#[trigger] e[j]).len() > 0 && e[j][0] != 'L' by {
        if j == 0 {} else if j == 1 {} else {}
    }
}

/// The plan's size follows the profile: twelve fixed entries, one LICENSE
/// unless proprietary, six TypeScript files, four Rust files and two release
/// files when those apply; and only the LICENSE entry, second in the plan,
/// starts with `LICENSE`.
pub proof fn law_plan_size_and_license(p: RepoProfile)
    ensures
        plan_labels(p).len() == 12 + (if p.license is Proprietary { 0int } else { 1int }) + (if has_ts(
            p.languages,
        ) {
            6int
        } else {
            0int
        }) + (if has_rust(p.languages) {
            4int
        } else {
            0int
        }) + (if p.publish is NoPublish {
            0int
        } else {
            2int
        }),
        plan_labels(p)[0] == "README.md"@,
        !(p.license is Proprietary) ==> plan_labels(p)[1] == license_label(p.license).unwrap()
            && starts_with_spec(plan_labels(p)[1], "LICENSE"@),
        forall|i: int|
            0 <= i < plan_labels(p).len() && !(i == 1 && !(p.license is Proprietary))
                ==> !starts_with_spec(#[trigger] plan_labels(p)[i], "LICENSE"@),
{
    lemma_label_facts();
    lemma_groups_not_l(p);
    reveal_strlit("LICENSE");
    let l = plan_labels(p);
    let lic = match license_label(p.license) {
        Some(y) => seq![y],
        None => seq![],
    };
    let k: int = lic.len() as int;
    let c = community_labels();
    let t = if has_ts(p.languages) { ts_labels() } else { seq![] };
    let r = if has_rust(p.languages) { rust_labels() } else { seq![] };
    let q = publish_labels(p.publish);
    let e = seq!["README.md"@, dependabot_label(p.languages), ".coderabbit.yaml"@];
    assert(l =~= seq![e[0]] + lic + c + seq![e[1], e[2]] + t + r + q);
    assert(p.license is Proprietary <==> k == 0);
    if !(p.license is Proprietary) {
        assert(l[1] == license_label(p.license).unwrap());
        let x = l[1];
        assert(x.len() >= 7 && x[0] == 'L');
        assert(x.subrange(0, 7) =~= "LICENSE"@) by {
            reveal_strlit("LICENSE (MIT)");
            reveal_strlit("LICENSE (Apache-2.0)");
            reveal_strlit("LICENSE (GPL-3.0)");
            reveal_strlit("LICENSE (BSD-3-Clause)");
            reveal_strlit("LICENSE (MPL-2.0)");
            reveal_strlit("LICENSE (Unlicense)");
        }
    }
    assert forall|i: int|
        0 <= i < l.len() && !(i == 1 && !(p.license is Proprietary)) implies !starts_with_spec(
        #[trigger] l[i],
        "LICENSE"@,
    ) by {
        let n = 1 + k;
        if i == 0 {
            assert(l[i] == e[0]);
        } else if i < n + 9 {
            assert(l[i] == c[i - n]);
        } else if i < n + 11 {
            assert(l[i] == e[i - n - 8]);
        } else if i < n + 11 + t.len() {
            assert(l[i] == t[i - n - 11]);
        } else if i < n + 11 + t.len() + r.len() {
            assert(l[i] == r[i - n - 11 - t.len()]);
        } else {
            assert(l[i] == q[i - n - 11 - t.len() - r.len()]);
        }
        assert(l[i].len() > 0 && l[i][0] != 'L');
        if starts_with_spec(l[i], "LICENSE"@) {
            assert(l[i].subrange(0, 7)[0] == l[i][0]);
        }
    }
}

/// The position of a label among all the labels a plan can hold, in plan
/// order (licenses, Dependabot entries and release workflows each in the
/// order of their enum).
pub open spec fn label_rank(x: Seq<char>) -> int {
    if x == "README.md"@ {
        0
    } else if x == "LICENSE (MIT)"@ {
        1
    } else if x == "LICENSE (Apache-2.0)"@ {
        2
    } else if x == "LICENSE (GPL-3.0)"@ {
        3
    } else if x == "LICENSE (BSD-3-Clause)"@ {
        4
    } else if x == "LICENSE (MPL-2.0)"@ {
        5
    } else if x == "LICENSE (Unlicense)"@ {
        6
    } else if x == "CONTRIBUTING.md"@ {
        7
    } else if x == "CODE_OF_CONDUCT.md (Contributor Covenant v2.1)"@ {
        8
    } else if x == "SECURITY.md"@ {
        9
    } else if x == "CHANGELOG.md"@ {
        10
    } else if x == ".github/PULL_REQUEST_TEMPLATE.md"@ {
        11
    } else if x == ".github/ISSUE_TEMPLATE/bug_report.yml"@ {
        12
    } else if x == ".github/ISSUE_TEMPLATE/feature_request.yml"@ {
        13
    } else if x == ".github/ISSUE_TEMPLATE/documentation.yml"@ {
        14
    } else if x == ".github/ISSUE_TEMPLATE/config.yml"@ {
        15
    } else if x == ".github/dependabot.yml (npm ecosystem)"@ {
        16
    } else if x == ".github/dependabot.yml (cargo ecosystem)"@ {
        17
    } else if x == ".github/dependabot.yml (npm + cargo ecosystems)"@ {
        18
    } else if x == ".github/dependabot.yml (github-actions only)"@ {
        19
    } else if x == ".coderabbit.yaml"@ {
        20
    } else if x == "package.json (type=module, workspace root)"@ {
        21
    } else if x == "pnpm-workspace.yaml"@ {
        22
    } else if x == "turbo.json"@ {
        23
    } else if x == "tsconfig.base.json"@ {
        24
    } else if x == "eslint.config.js"@ {
        25
    } else if x == ".github/workflows/typescript.yml"@ {
        26
    } else if x == "Cargo.toml (workspace)"@ {
        27
    } else if x == "rust-toolchain.toml"@ {
        28
    } else if x == "clippy.toml"@ {
        29
    } else if x == ".github/workflows/rust.yml"@ {
        30
    } else if x == ".changeset/config.json"@ {
        31
    } else if x == ".github/workflows/release.yml (changesets \u{2014} human-triggered)"@ {
        32
    } else if x == ".github/workflows/release.yml (npm publish on merge, provenance enabled)"@ {
        33
    } else {
        34
    }
}

/// The rank of each label.
proof fn lemma_label_ranks()
    ensures
        label_rank("README.md"@) == 0,
        label_rank("LICENSE (MIT)"@) == 1,
        label_rank("LICENSE (Apache-2.0)"@) == 2,
        label_rank("LICENSE (GPL-3.0)"@) == 3,
        label_rank("LICENSE (BSD-3-Clause)"@) == 4,
        label_rank("LICENSE (MPL-2.0)"@) == 5,
        label_rank("LICENSE (Unlicense)"@) == 6,
        label_rank("CONTRIBUTING.md"@) == 7,
        label_rank("CODE_OF_CONDUCT.md (Contributor Covenant v2.1)"@) == 8,
        label_rank("SECURITY.md"@) == 9,
        label_rank("CHANGELOG.md"@) == 10,
        label_rank(".github/PULL_REQUEST_TEMPLATE.md"@) == 11,
        label_rank(".github/ISSUE_TEMPLATE/bug_report.yml"@) == 12,
        label_rank(".github/ISSUE_TEMPLATE/feature_request.yml"@) == 13,
        label_rank(".github/ISSUE_TEMPLATE/documentation.yml"@) == 14,
        label_rank(".github/ISSUE_TEMPLATE/config.yml"@) == 15,
        label_rank(".github/dependabot.yml (npm ecosystem)"@) == 16,
        label_rank(".github/dependabot.yml (cargo ecosystem)"@) == 17,
        label_rank(".github/dependabot.yml (npm + cargo ecosystems)"@) == 18,
        label_rank(".github/dependabot.yml (github-actions only)"@) == 19,
        label_rank(".coderabbit.yaml"@) == 20,
        label_rank("package.json (type=module, workspace root)"@) == 21,
        label_rank("pnpm-workspace.yaml"@) == 22,
        label_rank("turbo.json"@) == 23,
        label_rank("tsconfig.base.json"@) == 24,
        label_rank("eslint.config.js"@) == 25,
        label_rank(".github/workflows/typescript.yml"@) == 26,
        label_rank("Cargo.toml (workspace)"@) == 27,
        label_rank("rust-toolchain.toml"@) == 28,
        label_rank("clippy.toml"@) == 29,
        label_rank(".github/workflows/rust.yml"@) == 30,
        label_rank(".changeset/config.json"@) == 31,
        label_rank(".github/workflows/release.yml (changesets \u{2014} human-triggered)"@) == 32,
        label_rank(".github/workflows/release.yml (npm publish on merge, provenance enabled)"@) == 33,
{
    lemma_label_facts();
    reveal_strlit("LICENSE (GPL-3.0)");
    reveal_strlit("LICENSE (MPL-2.0)");
    assert("LICENSE (GPL-3.0)"@[9] != "LICENSE (MPL-2.0)"@[9]);
}

/// A sequence whose neighbours increase holds no value twice.
proof fn lemma_increasing_no_duplicates(s: Seq<int>)
    requires
        forall|i: int| 0 <= i < s.len() - 1 ==> #[trigger] s[i] < s[i + 1],
    ensures
        forall|i: int, j: int| 0 <= i < j < s.len() ==> s[i] < s[j],
    decreases s.len(),
{
    if s.len() > 0 {
        let d = s.drop_last();
        assert forall|i: int| 0 <= i < d.len() - 1 implies #[trigger] d[i] < d[i + 1] by {
            assert(s[i] < s[i + 1]);
        }
        lemma_increasing_no_duplicates(d);
        assert forall|i: int, j: int| 0 <= i < j < s.len() implies s[i] < s[j] by {
            if j < s.len() - 1 {
                assert(d[i] < d[j]);
            } else if i < j - 1 {
                assert(d[i] < d[j - 1]);
                assert(s[j - 1] < s[j]);
            }
        }
    }
}

/// No file is planned twice: the labels of every plan are pairwise distinct.
pub proof fn law_plan_labels_distinct(p: RepoProfile)
    ensures
        plan_labels(p).no_duplicates(),
{
    lemma_label_ranks();
    let l = plan_labels(p);
    let lic = match license_label(p.license) {
        Some(y) => seq![y],
        None => seq![],
    };
    let k: int = lic.len() as int;
    let c = community_labels();
    let t = if has_ts(p.languages) { ts_labels() } else { seq![] };
    let r = if has_rust(p.languages) { rust_labels() } else { seq![] };
    let q = publish_labels(p.publish);
    let e = seq!["README.md"@, dependabot_label(p.languages), ".coderabbit.yaml"@];
    assert(l =~= seq![e[0]] + lic + c + seq![e[1], e[2]] + t + r + q);
    assert forall|m: int| 0 <= m < c.len() implies label_rank(#[trigger] c[m]) == 7 + m by {
        if m == 0 {} else if m == 1 {} else if m == 2 {} else if m == 3 {} else if m == 4 {}
        else if m == 5 {} else if m == 6 {} else if m == 7 {} else {}
    }
    assert forall|m: int| 0 <= m < t.len() implies label_rank(#[trigger] t[m]) == 21 + m by {
        if m == 0 {} else if m == 1 {} else if m == 2 {} else if m == 3 {} else if m == 4 {} else {}
    }
    assert forall|m: int| 0 <= m < r.len() implies label_rank(#[trigger] r[m]) == 27 + m by {
        if m == 0 {} else if m == 1 {} else if m == 2 {} else {}
    }
    assert(k == 1 ==> 1 <= label_rank(lic[0]) <= 6);
    assert(16 <= label_rank(e[1]) <= 19);
    assert(q.len() > 0 ==> label_rank(q[0]) == 31 && 32 <= label_rank(q[1]) <= 33);
    let ranks = l.map_values(|x: Seq<char>| label_rank(x));
    let n = 1 + k;
    assert forall|i: int| 0 <= i < ranks.len() - 1 implies #[trigger] ranks[i] < ranks[i + 1] by {
        assert(ranks[i] == label_rank(l[i]) && ranks[i + 1] == label_rank(l[i + 1]));
        if i == 0 {
            if k == 1 {
                assert(l[1] == lic[0]);
            } else {
                assert(l[1] == c[0]);
            }
        } else if i < n {
            assert(l[i] == lic[0] && l[i + 1] == c[0]);
        } else if i < n + 8 {
            assert(l[i] == c[i - n] && l[i + 1] == c[i + 1 - n]);
        } else if i == n + 8 {
            assert(l[i] == c[8] && l[i + 1] == e[1]);
        } else if i == n + 9 {
            assert(l[i] == e[1] && l[i + 1] == e[2]);
        } else if i < n + 11 + t.len() {
            if i == n + 10 {
                assert(l[i] == e[2]);
            } else {
                assert(l[i] == t[i - n - 11]);
            }
            if i + 1 < n + 11 + t.len() {
                assert(l[i + 1] == t[i + 1 - n - 11]);
            } else if r.len() > 0 {
                assert(l[i + 1] == r[0]);
            } else {
                assert(l[i + 1] == q[0]);
            }
        } else if i < n + 11 + t.len() + r.len() {
            assert(l[i] == r[i - n - 11 - t.len()]);
            if i + 1 < n + 11 + t.len() + r.len() {
                assert(l[i + 1] == r[i + 1 - n - 11 - t.len()]);
            } else {
                assert(l[i + 1] == q[0]);
            }
        } else {
            assert(l[i] == q[0] && l[i + 1] == q[1]);
        }
    }
    lemma_increasing_no_duplicates(ranks);
    assert forall|i: int, j: int| 0 <= i < l.len() && 0 <= j < l.len() && i != j implies l[i]
        != l[j] by {
        if i < j {
            assert(ranks[i] < ranks[j]);
        } else {
            assert(ranks[j] < ranks[i]);
        }
    }
}

/// Every label a plan can hold is one plain, non-empty line.
proof fn lemma_labels_plain()
    ensures
        plain_line("README.md"@) && "README.md"@.len() > 0,
        plain_line("LICENSE (MIT)"@) && "LICENSE (MIT)"@.len() > 0,
        plain_line("LICENSE (Apache-2.0)"@) && "LICENSE (Apache-2.0)"@.len() > 0,
        plain_line("LICENSE (GPL-3.0)"@) && "LICENSE (GPL-3.0)"@.len() > 0,
        plain_line("LICENSE (BSD-3-Clause)"@) && "LICENSE (BSD-3-Clause)"@.len() > 0,
        plain_line("LICENSE (MPL-2.0)"@) && "LICENSE (MPL-2.0)"@.len() > 0,
        plain_line("LICENSE (Unlicense)"@) && "LICENSE (Unlicense)"@.len() > 0,
        plain_line("CONTRIBUTING.md"@) && "CONTRIBUTING.md"@.len() > 0,
        plain_line("CODE_OF_CONDUCT.md (Contributor Covenant v2.1)"@) && "CODE_OF_CONDUCT.md (Contributor Covenant v2.1)"@.len() > 0,
        plain_line("SECURITY.md"@) && "SECURITY.md"@.len() > 0,
        plain_line("CHANGELOG.md"@) && "CHANGELOG.md"@.len() > 0,
        plain_line(".github/PULL_REQUEST_TEMPLATE.md"@) && ".github/PULL_REQUEST_TEMPLATE.md"@.len() > 0,
        plain_line(".github/ISSUE_TEMPLATE/bug_report.yml"@) && ".github/ISSUE_TEMPLATE/bug_report.yml"@.len() > 0,
        plain_line(".github/ISSUE_TEMPLATE/feature_request.yml"@) && ".github/ISSUE_TEMPLATE/feature_request.yml"@.len() > 0,
        plain_line(".github/ISSUE_TEMPLATE/documentation.yml"@) && ".github/ISSUE_TEMPLATE/documentation.yml"@.len() > 0,
        plain_line(".github/ISSUE_TEMPLATE/config.yml"@) && ".github/ISSUE_TEMPLATE/config.yml"@.len() > 0,
        plain_line(".github/dependabot.yml (npm ecosystem)"@) && ".github/dependabot.yml (npm ecosystem)"@.len() > 0,
        plain_line(".github/dependabot.yml (cargo ecosystem)"@) && ".github/dependabot.yml (cargo ecosystem)"@.len() > 0,
        plain_line(".github/dependabot.yml (npm + cargo ecosystems)"@) && ".github/dependabot.yml (npm + cargo ecosystems)"@.len() > 0,
        plain_line(".github/dependabot.yml (github-actions only)"@) && ".github/dependabot.yml (github-actions only)"@.len() > 0,
        plain_line(".coderabbit.yaml"@) && ".coderabbit.yaml"@.len() > 0,
        plain_line("package.json (type=module, workspace root)"@) && "package.json (type=module, workspace root)"@.len() > 0,
        plain_line("pnpm-workspace.yaml"@) && "pnpm-workspace.yaml"@.len() > 0,
        plain_line("turbo.json"@) && "turbo.json"@.len() > 0,
        plain_line("tsconfig.base.json"@) && "tsconfig.base.json"@.len() > 0,
        plain_line("eslint.config.js"@) && "eslint.config.js"@.len() > 0,
        plain_line(".github/workflows/typescript.yml"@) && ".github/workflows/typescript.yml"@.len() > 0,
        plain_line("Cargo.toml (workspace)"@) && "Cargo.toml (workspace)"@.len() > 0,
        plain_line("rust-toolchain.toml"@) && "rust-toolchain.toml"@.len() > 0,
        plain_line("clippy.toml"@) && "clippy.toml"@.len() > 0,
        plain_line(".github/workflows/rust.yml"@) && ".github/workflows/rust.yml"@.len() > 0,
        plain_line(".changeset/config.json"@) && ".changeset/config.json"@.len() > 0,
        plain_line(".github/workflows/release.yml (changesets \u{2014} human-triggered)"@) && ".github/workflows/release.yml (changesets \u{2014} human-triggered)"@.len() > 0,
        plain_line(".github/workflows/release.yml (npm publish on merge, provenance enabled)"@) && ".github/workflows/release.yml (npm publish on merge, provenance enabled)"@.len() > 0,
{
    reveal_strlit("README.md");
    reveal_strlit("LICENSE (MIT)");
    reveal_strlit("LICENSE (Apache-2.0)");
    reveal_strlit("LICENSE (GPL-3.0)");
    reveal_strlit("LICENSE (BSD-3-Clause)");
    reveal_strlit("LICENSE (MPL-2.0)");
    reveal_strlit("LICENSE (Unlicense)");
    reveal_strlit("CONTRIBUTING.md");
    reveal_strlit("CODE_OF_CONDUCT.md (Contributor Covenant v2.1)");
    reveal_strlit("SECURITY.md");
    reveal_strlit("CHANGELOG.md");
    reveal_strlit(".github/PULL_REQUEST_TEMPLATE.md");
    reveal_strlit(".github/ISSUE_TEMPLATE/bug_report.yml");
    reveal_strlit(".github/ISSUE_TEMPLATE/feature_request.yml");
    reveal_strlit(".github/ISSUE_TEMPLATE/documentation.yml");
    reveal_strlit(".github/ISSUE_TEMPLATE/config.yml");
    reveal_strlit(".github/dependabot.yml (npm ecosystem)");
    reveal_strlit(".github/dependabot.yml (cargo ecosystem)");
    reveal_strlit(".github/dependabot.yml (npm + cargo ecosystems)");
    reveal_strlit(".github/dependabot.yml (github-actions only)");
    reveal_strlit(".coderabbit.yaml");
    reveal_strlit("package.json (type=module, workspace root)");
    reveal_strlit("pnpm-workspace.yaml");
    reveal_strlit("turbo.json");
    reveal_strlit("tsconfig.base.json");
    reveal_strlit("eslint.config.js");
    reveal_strlit(".github/workflows/typescript.yml");
    reveal_strlit("Cargo.toml (workspace)");
    reveal_strlit("rust-toolchain.toml");
    reveal_strlit("clippy.toml");
    reveal_strlit(".github/workflows/rust.yml");
    reveal_strlit(".changeset/config.json");
    reveal_strlit(".github/workflows/release.yml (changesets \u{2014} human-triggered)");
    reveal_strlit(".github/workflows/release.yml (npm publish on merge, provenance enabled)");
}

/// Every label of a plan is one plain, non-empty line.
proof fn lemma_plan_labels_plain(p: RepoProfile)
    ensures
        forall|i: int|
            0 <= i < plan_labels(p).len() ==> plain_line(#[trigger] plan_labels(p)[i])
                && plan_labels(p)[i].len() > 0,
{
    lemma_labels_plain();
    let l = plan_labels(p);
    let lic = match license_label(p.license) {
        Some(y) => seq![y],
        None => seq![],
    };
    let k: int = lic.len() as int;
    let c = community_labels();
    let t = if has_ts(p.languages) { ts_labels() } else { seq![] };
    let r = if has_rust(p.languages) { rust_labels() } else { seq![] };
    let q = publish_labels(p.publish);
    let e = seq!["README.md"@, dependabot_label(p.languages), ".coderabbit.yaml"@];
    assert(l =~= seq![e[0]] + lic + c + seq![e[1], e[2]] + t + r + q);
    assert forall|m: int| 0 <= m < c.len() implies plain_line(#[trigger] c[m]) && c[m].len() > 0 by {
        if m == 0 {} else if m == 1 {} else if m == 2 {} else if m == 3 {} else if m == 4 {}
        else if m == 5 {} else if m == 6 {} else if m == 7 {} else {}
    }
    assert forall|m: int| 0 <= m < t.len() implies plain_line(#[trigger] t[m]) && t[m].len() > 0 by {
        if m == 0 {} else if m == 1 {} else if m == 2 {} else if m == 3 {} else if m == 4 {} else {}
    }
    assert forall|m: int| 0 <= m < r.len() implies plain_line(#[trigger] r[m]) && r[m].len() > 0 by {
        if m == 0 {} else if m == 1 {} else if m == 2 {} else {}
    }
    assert forall|m: int| 0 <= m < q.len() implies plain_line(#[trigger] q[m]) && q[m].len() > 0 by {
        if m == 0 {} else {}
    }
    assert forall|m: int| 0 <= m < lic.len() implies plain_line(#[trigger] lic[m]) && lic[m].len() > 0 by {}
    assert forall|m: int| 0 <= m < e.len() implies plain_line(#[trigger] e[m]) && e[m].len() > 0 by {
        if m == 0 {} else if m == 1 {} else {}
    }
    let n = 1 + k;
    assert forall|i: int| 0 <= i < l.len() implies plain_line(#[trigger] l[i]) && l[i].len() > 0 by {
        if i == 0 {
            assert(l[i] == e[0]);
        } else if i < n {
            assert(l[i] == lic[i - 1]);
        } else if i < n + 9 {
            assert(l[i] == c[i - n]);
        } else if i < n + 11 {
            assert(l[i] == e[i - n - 8]);
        } else if i < n + 11 + t.len() {
            assert(l[i] == t[i - n - 11]);
        } else if i < n + 11 + t.len() + r.len() {
            assert(l[i] == r[i - n - 11 - t.len()]);
        } else {
            assert(l[i] == q[i - n - 11 - t.len() - r.len()]);
        }
    }
}

/// The profile's names in the report are plain, non-empty lines.
proof fn lemma_names_plain(p: RepoProfile)
    ensures
        plain_line(topology_name(p.topology)) && topology_name(p.topology).len() > 0,
        plain_line(visibility_name(p.visibility)) && visibility_name(p.visibility).len() > 0,
        plain_line(publish_name(p.publish)) && publish_name(p.publish).len() > 0,
        plain_line(merge_name(p.merge)) && merge_name(p.merge).len() > 0,
        plain_line(languages_name(p.languages)) && languages_name(p.languages).len() > 0,
        plain_line(license_name(p.license)) && license_name(p.license).len() > 0,
{
    reveal_strlit("Solo");
    reveal_strlit("Team");
    reveal_strlit("Public");
    reveal_strlit("Private");
    reveal_strlit("None");
    reveal_strlit("Changesets");
    reveal_strlit("NpmNow");
    reveal_strlit("Library");
    reveal_strlit("App");
    reveal_strlit("Ts");
    reveal_strlit("Rust");
    reveal_strlit("Both");
    reveal_strlit("Bare");
    reveal_strlit("Mit");
    reveal_strlit("Apache2");
    reveal_strlit("Gpl3");
    reveal_strlit("Bsd3Clause");
    reveal_strlit("Mpl2");
    reveal_strlit("Unlicense");
    reveal_strlit("Proprietary");
}

/// The lines of the dry-run report before the planned files.
pub open spec fn report_head_lines(p: RepoProfile, target: Seq<char>) -> Seq<Seq<char>> {
    seq![
        "=== neon repo init \u{2014} DRY RUN ==="@,
        "  target:     "@ + target,
        Seq::empty(),
        "=== Profile ==="@,
        "  topology:   "@ + topology_name(p.topology),
        "  visibility: "@ + visibility_name(p.visibility),
        "  publish:    "@ + publish_name(p.publish),
        "  merge:      "@ + merge_name(p.merge),
        "  languages:  "@ + languages_name(p.languages),
        "  license:    "@ + license_name(p.license),
        Seq::empty(),
        "=== Would generate ==="@,
    ]
}

/// The closing lines of the dry-run report.
pub open spec fn report_tail_lines() -> Seq<Seq<char>> {
    seq![Seq::empty(), "No files were written (dry-run)."@]
}

/// The report's lines ending in a newline are the lines without it, then a
/// newline.
proof fn lemma_report_literals()
    ensures
        "=== neon repo init \u{2014} DRY RUN ===\n"@ == "=== neon repo init \u{2014} DRY RUN ==="@
            + seq!['\n'],
        "=== Profile ===\n"@ == "=== Profile ==="@ + seq!['\n'],
        "=== Would generate ===\n"@ == "=== Would generate ==="@ + seq!['\n'],
        "No files were written (dry-run).\n"@ == "No files were written (dry-run)."@ + seq!['\n'],
        "\n"@ == seq!['\n'],
{
    reveal_strlit("=== neon repo init \u{2014} DRY RUN ===\n");
    reveal_strlit("=== neon repo init \u{2014} DRY RUN ===");
    reveal_strlit("=== Profile ===\n");
    reveal_strlit("=== Profile ===");
    reveal_strlit("=== Would generate ===\n");
    reveal_strlit("=== Would generate ===");
    reveal_strlit("No files were written (dry-run).\n");
    reveal_strlit("No files were written (dry-run).");
    reveal_strlit("\n");
    assert("=== neon repo init \u{2014} DRY RUN ===\n"@ =~= "=== neon repo init \u{2014} DRY RUN ==="@
        + seq!['\n']);
    assert("=== Profile ===\n"@ =~= "=== Profile ==="@ + seq!['\n']);
    assert("=== Would generate ===\n"@ =~= "=== Would generate ==="@ + seq!['\n']);
    assert("No files were written (dry-run).\n"@ =~= "No files were written (dry-run)."@ + seq![
        '\n',
    ]);
}

/// The header and closing lines are plain lines, and none of them starts
/// with `  would create: `.
proof fn lemma_report_frame(p: RepoProfile, target: Seq<char>)
    requires
        plain_line(target),
    ensures
        forall|j: int|
            0 <= j < report_head_lines(p, target).len() ==> plain_line(
                #[trigger] report_head_lines(p, target)[j],
            ) && !starts_with_spec(report_head_lines(p, target)[j], "  would create: "@),
        forall|j: int|
            0 <= j < report_tail_lines().len() ==> plain_line(#[trigger] report_tail_lines()[j])
                && !starts_with_spec(report_tail_lines()[j], "  would create: "@),
{
    reveal_strlit("=== neon repo init \u{2014} DRY RUN ===");
    reveal_strlit("  target:     ");
    reveal_strlit("=== Profile ===");
    reveal_strlit("  topology:   ");
    reveal_strlit("  visibility: ");
    reveal_strlit("  publish:    ");
    reveal_strlit("  merge:      ");
    reveal_strlit("  languages:  ");
    reveal_strlit("  license:    ");
    reveal_strlit("=== Would generate ===");
    reveal_strlit("No files were written (dry-run).");
    reveal_strlit("  would create: ");
    lemma_names_plain(p);
    let pre = "  would create: "@;
    let h = report_head_lines(p, target);
    assert forall|j: int| 0 <= j < h.len() implies plain_line(#[trigger] h[j]) && !starts_with_spec(
        h[j],
        pre,
    ) by {
        if j == 1 {
            if target.len() > 0 {
                lemma_plain_concat("  target:     "@, target);
            }
        } else if j == 4 {
            lemma_plain_concat("  topology:   "@, topology_name(p.topology));
        } else if j == 5 {
            lemma_plain_concat("  visibility: "@, visibility_name(p.visibility));
        } else if j == 6 {
            lemma_plain_concat("  publish:    "@, publish_name(p.publish));
        } else if j == 7 {
            lemma_plain_concat("  merge:      "@, merge_name(p.merge));
        } else if j == 8 {
            lemma_plain_concat("  languages:  "@, languages_name(p.languages));
        } else if j == 9 {
            lemma_plain_concat("  license:    "@, license_name(p.license));
        }
        if starts_with_spec(h[j], pre) {
            assert(h[j].subrange(0, pre.len() as int)[0] == h[j][0]);
            assert(h[j].subrange(0, pre.len() as int)[2] == h[j][2]);
        }
    }
    let t = report_tail_lines();
    assert forall|j: int| 0 <= j < t.len() implies plain_line(#[trigger] t[j]) && !starts_with_spec(
        t[j],
        pre,
    ) by {
        if starts_with_spec(t[j], pre) {
            assert(t[j].subrange(0, pre.len() as int)[0] == t[j][0]);
        }
    }
}

/// The lines of plain lines, each followed by a newline, then more text.
proof fn lemma_lines_of_lines(ls: Seq<Seq<char>>, rest: Seq<char>)
    requires
        forall|j: int| 0 <= j < ls.len() ==> plain_line(#[trigger] ls[j]),
    ensures
        lines_spec(newline_ended(ls) + rest) == ls + lines_spec(rest),
    decreases ls.len(),
{
    if ls.len() == 0 {
        assert(newline_ended(ls) + rest =~= rest);
        assert(ls + lines_spec(rest) =~= lines_spec(rest));
    } else {
        let tl = ls.drop_first();
        assert forall|j: int| 0 <= j < tl.len() implies plain_line(#[trigger] tl[j]) by {
            assert(tl[j] == ls[j + 1]);
        }
        lemma_lines_of_lines(tl, rest);
        assert(plain_line(ls[0]));
        lemma_lines_cons(ls[0], newline_ended(tl) + rest);
        assert(newline_ended(ls) + rest =~= ls[0] + seq!['\n'] + (newline_ended(tl) + rest));
        assert(ls =~= seq![ls[0]] + tl);
    }
}

/// Each line followed by a newline.
pub open spec fn newline_ended(ls: Seq<Seq<char>>) -> Seq<char>
    decreases ls.len(),
{
    if ls.len() == 0 {
        seq![]
    } else {
        ls[0] + seq!['\n'] + newline_ended(ls.drop_first())
    }
}

/// Adding one more line at the end.
proof fn lemma_newline_ended_push(ls: Seq<Seq<char>>, x: Seq<char>)
    ensures
        newline_ended(ls.push(x)) == newline_ended(ls) + x + seq!['\n'],
    decreases ls.len(),
{
    if ls.len() == 0 {
        assert(ls.push(x).drop_first() =~= Seq::<Seq<char>>::empty());
        assert(newline_ended(ls.push(x).drop_first()) =~= Seq::<char>::empty());
        assert(ls.push(x)[0] == x);
        assert(newline_ended(ls.push(x)) == x + seq!['\n'] + newline_ended(ls.push(x).drop_first()));
        assert(newline_ended(ls) =~= Seq::<char>::empty());
        assert(newline_ended(ls.push(x)) =~= newline_ended(ls) + x + seq!['\n']);
    } else {
        let d = ls.drop_first();
        lemma_newline_ended_push(d, x);
        assert(ls.push(x).drop_first() =~= d.push(x));
        assert(ls.push(x)[0] == ls[0]);
        assert(newline_ended(ls.push(x)) == ls[0] + seq!['\n'] + newline_ended(d.push(x)));
        assert(newline_ended(ls) == ls[0] + seq!['\n'] + newline_ended(d));
        assert(newline_ended(ls.push(x)) =~= newline_ended(ls) + x + seq!['\n']);
    }
}

/// The report is its header lines, the planned files' lines and its
/// closing lines, each ended by a newline.
proof fn lemma_report_shape(p: RepoProfile, target: Seq<char>)
    ensures
        plan_report(p, target) == newline_ended(report_head_lines(p, target)) + (prefixed_lines(
            "  would create: "@,
            plan_labels(p),
        ) + newline_ended(report_tail_lines())),
{
    lemma_report_literals();
    let h = report_head_lines(p, target);
    let nl = seq!['\n'];
    let e = Seq::<Seq<char>>::empty();
    assert(newline_ended(e) =~= Seq::<char>::empty());
    let r1 = "=== neon repo init \u{2014} DRY RUN ===\n"@;
    let r2 = r1 + "  target:     "@ + target + "\n"@;
    let r3 = r2 + "\n"@;
    let r4 = r3 + "=== Profile ===\n"@;
    let r5 = r4 + "  topology:   "@ + topology_name(p.topology) + "\n"@;
    let r6 = r5 + "  visibility: "@ + visibility_name(p.visibility) + "\n"@;
    let r7 = r6 + "  publish:    "@ + publish_name(p.publish) + "\n"@;
    let r8 = r7 + "  merge:      "@ + merge_name(p.merge) + "\n"@;
    let r9 = r8 + "  languages:  "@ + languages_name(p.languages) + "\n"@;
    let r10 = r9 + "  license:    "@ + license_name(p.license) + "\n"@;
    let r11 = r10 + "\n"@;
    let r12 = r11 + "=== Would generate ===\n"@;
    lemma_newline_ended_push(e, h[0]);
    assert(h.subrange(0, 1) =~= e.push(h[0]));
    assert(newline_ended(h.subrange(0, 1)) =~= r1);
    lemma_newline_ended_push(h.subrange(0, 1), h[1]);
    assert(h.subrange(0, 2) =~= h.subrange(0, 1).push(h[1]));
    assert(newline_ended(h.subrange(0, 2)) =~= r2);
    lemma_newline_ended_push(h.subrange(0, 2), h[2]);
    assert(h.subrange(0, 3) =~= h.subrange(0, 2).push(h[2]));
    assert(newline_ended(h.subrange(0, 3)) =~= r3);
    lemma_newline_ended_push(h.subrange(0, 3), h[3]);
    assert(h.subrange(0, 4) =~= h.subrange(0, 3).push(h[3]));
    assert(newline_ended(h.subrange(0, 4)) =~= r4);
    lemma_newline_ended_push(h.subrange(0, 4), h[4]);
    assert(h.subrange(0, 5) =~= h.subrange(0, 4).push(h[4]));
    assert(newline_ended(h.subrange(0, 5)) =~= r5);
    lemma_newline_ended_push(h.subrange(0, 5), h[5]);
    assert(h.subrange(0, 6) =~= h.subrange(0, 5).push(h[5]));
    assert(newline_ended(h.subrange(0, 6)) =~= r6);
    lemma_newline_ended_push(h.subrange(0, 6), h[6]);
    assert(h.subrange(0, 7) =~= h.subrange(0, 6).push(h[6]));
    assert(newline_ended(h.subrange(0, 7)) =~= r7);
    lemma_newline_ended_push(h.subrange(0, 7), h[7]);
    assert(h.subrange(0, 8) =~= h.subrange(0, 7).push(h[7]));
    assert(newline_ended(h.subrange(0, 8)) =~= r8);
    lemma_newline_ended_push(h.subrange(0, 8), h[8]);
    assert(h.subrange(0, 9) =~= h.subrange(0, 8).push(h[8]));
    assert(newline_ended(h.subrange(0, 9)) =~= r9);
    lemma_newline_ended_push(h.subrange(0, 9), h[9]);
    assert(h.subrange(0, 10) =~= h.subrange(0, 9).push(h[9]));
    assert(newline_ended(h.subrange(0, 10)) =~= r10);
    lemma_newline_ended_push(h.subrange(0, 10), h[10]);
    assert(h.subrange(0, 11) =~= h.subrange(0, 10).push(h[10]));
    assert(newline_ended(h.subrange(0, 11)) =~= r11);
    lemma_newline_ended_push(h.subrange(0, 11), h[11]);
    assert(h.subrange(0, 12) =~= h.subrange(0, 11).push(h[11]));
    assert(newline_ended(h.subrange(0, 12)) =~= r12);
    assert(h.subrange(0, 12) =~= h);
    let t = report_tail_lines();
    lemma_newline_ended_push(e, t[0]);
    assert(seq![t[0]] =~= e.push(t[0]));
    lemma_newline_ended_push(seq![t[0]], t[1]);
    assert(t =~= seq![t[0]].push(t[1]));
    assert(newline_ended(t) =~= "\n"@ + "No files were written (dry-run).\n"@);
    let body = prefixed_lines("  would create: "@, plan_labels(p));
    assert(plan_report(p, target) == r12 + body + "\n"@ + "No files were written (dry-run).\n"@);
    assert(plan_report(p, target) =~= r12 + (body + newline_ended(t)));
}

/// The dry-run report read line by line: the header naming the target and
/// the profile, then one `  would create: ` line per planned file, in plan
/// order, then the closing note; only the planned files' lines start with
/// `  would create: `.
pub proof fn law_report_lines(p: RepoProfile, target: Seq<char>)
    requires
        plain_line(target),
    ensures
        lines_spec(plan_report(p, target)) == report_head_lines(p, target) + plan_labels(
            p,
        ).map_values(|x: Seq<char>| "  would create: "@ + x) + report_tail_lines(),
        forall|i: int|
            0 <= i < lines_spec(plan_report(p, target)).len() ==> (starts_with_spec(
                #[trigger] lines_spec(plan_report(p, target))[i],
                "  would create: "@,
            ) <==> 12 <= i < 12 + plan_labels(p).len()),
{
    reveal_strlit("  would create: ");
    lemma_plan_labels_plain(p);
    lemma_report_frame(p, target);
    lemma_report_shape(p, target);
    let pre = "  would create: "@;
    let labels = plan_labels(p);
    let h = report_head_lines(p, target);
    let t = report_tail_lines();
    let m = labels.map_values(|x: Seq<char>| pre + x);
    assert forall|i: int| 0 <= i < labels.len() implies no_newline(#[trigger] labels[i])
        && !ends_with_cr(pre + labels[i]) by {
        assert((pre + labels[i])[(pre + labels[i]).len() - 1] == labels[i][labels[i].len() - 1]);
    }
    lemma_lines_of_lines(t, seq![]);
    assert(lines_spec(seq![]) =~= Seq::<Seq<char>>::empty());
    assert(newline_ended(t) + seq![] =~= newline_ended(t));
    lemma_lines_prefixed(pre, labels, newline_ended(t));
    lemma_lines_of_lines(h, prefixed_lines(pre, labels) + newline_ended(t));
    let all = h + m + t;
    assert(lines_spec(plan_report(p, target)) =~= all);
    assert forall|i: int| 0 <= i < all.len() implies (starts_with_spec(#[trigger] all[i], pre)
        <==> 12 <= i < 12 + labels.len()) by {
        if 12 <= i < 12 + labels.len() {
            assert(all[i] == pre + labels[i - 12]);
            assert((pre + labels[i - 12]).subrange(0, pre.len() as int) =~= pre);
        } else if i < 12 {
            assert(all[i] == h[i]);
        } else {
            assert(all[i] == t[i - 12 - labels.len()]);
        }
    }
}

/// `s` holds no occurrence of `pat`.
proof fn lemma_lacks(s: Seq<char>, pat: Seq<char>)
    requires
        pat.len() > 0,
        forall|i: int| 0 <= i <= s.len() - pat.len() ==> #[trigger] s[i] != pat[0] || s.subrange(i, i + pat.len()) != pat,
    ensures
        !contains_spec(s, pat),
{
    if contains_spec(s, pat) {
        let i = choose|i: int| occurs_at(s, pat, i);
        assert(s.subrange(i, i + pat.len())[0] == s[i]);
    }
}

/// The Dependabot entry names the ecosystems of the chosen stack: it
/// mentions npm exactly when the stack has TypeScript and cargo exactly when
/// it has Rust, and it always configures `.github/dependabot.yml`.
pub proof fn law_dependabot_ecosystems(l: Languages)
    ensures
        contains_spec(dependabot_label(l), "npm"@) <==> has_ts(l),
        contains_spec(dependabot_label(l), "cargo"@) <==> has_rust(l),
        starts_with_spec(dependabot_label(l), ".github/dependabot.yml"@),
{
    reveal_strlit("npm");
    reveal_strlit("cargo");
    reveal_strlit(".github/dependabot.yml");
    let x = dependabot_label(l);
    let d = ".github/dependabot.yml"@;
    match l {
        Languages::Ts => {
            reveal_strlit(".github/dependabot.yml (npm ecosystem)");
            assert(x.subrange(0, d.len() as int) =~= d);
            assert(x.subrange(24, 27) =~= "npm"@);
            assert(occurs_at(x, "npm"@, 24));
            assert forall|i: int| 0 <= i <= x.len() - 5 implies #[trigger] x[i] != 'c' || x.subrange(i, i + 5) != "cargo"@ by {
                if x[i] == 'c' {
                    assert(x.subrange(i, i + 5)[1] != "cargo"@[1] || x.subrange(i, i + 5)[4] != "cargo"@[4]);
                }
            }
            lemma_lacks(x, "cargo"@);
        },
        Languages::Rust => {
            reveal_strlit(".github/dependabot.yml (cargo ecosystem)");
            assert(x.subrange(0, d.len() as int) =~= d);
            assert forall|i: int| 0 <= i <= x.len() - 3 implies #[trigger] x[i] != 'n' || x.subrange(i, i + 3) != "npm"@ by {
                if x[i] == 'n' {
                    assert(x.subrange(i, i + 3)[1] != "npm"@[1] || x.subrange(i, i + 3)[2] != "npm"@[2]);
                }
            }
            lemma_lacks(x, "npm"@);
            assert(x.subrange(24, 29) =~= "cargo"@);
            assert(occurs_at(x, "cargo"@, 24));
        },
        Languages::Both => {
            reveal_strlit(".github/dependabot.yml (npm + cargo ecosystems)");
            assert(x.subrange(0, d.len() as int) =~= d);
            assert(x.subrange(24, 27) =~= "npm"@);
            assert(occurs_at(x, "npm"@, 24));
            assert(x.subrange(30, 35) =~= "cargo"@);
            assert(occurs_at(x, "cargo"@, 30));
        },
        Languages::Bare => {
            reveal_strlit(".github/dependabot.yml (github-actions only)");
            assert(x.subrange(0, d.len() as int) =~= d);
            assert forall|i: int| 0 <= i <= x.len() - 3 implies #[trigger] x[i] != 'n' || x.subrange(i, i + 3) != "npm"@ by {
                if x[i] == 'n' {
                    assert(x.subrange(i, i + 3)[1] != "npm"@[1] || x.subrange(i, i + 3)[2] != "npm"@[2]);
                }
            }
            lemma_lacks(x, "npm"@);
            assert forall|i: int| 0 <= i <= x.len() - 5 implies #[trigger] x[i] != 'c' || x.subrange(i, i + 5) != "cargo"@ by {
                if x[i] == 'c' {
                    assert(x.subrange(i, i + 5)[1] != "cargo"@[1] || x.subrange(i, i + 5)[4] != "cargo"@[4]);
                }
            }
            lemma_lacks(x, "cargo"@);
        },
    }
}

} // verus!
