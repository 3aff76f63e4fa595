//! `neon setup git-identity`: set the git identity (name, email) in the
//! local or global scope, and keep a store of identities keyed by email in
//! `~/.config/git/identities`.
use vstd::prelude::*;
use vstd::string::*;

use crate::text::{owned, str_eq};

verus! {

/// Where the identity is written.
#[derive(Debug, Clone, Copy, PartialEq, Eq, Structural)]
pub enum IdentityScope {
    /// The current repository's config.
    Local,
    /// The user's global config.
    Global,
}

/// Arguments of `neon setup git-identity`.
pub struct GitIdentityArgs {
    /// Identity name.
    pub name: Option<String>,
    /// Identity email.
    pub email: Option<String>,
    /// Scope; local inside a git repository, global elsewhere, when absent.
    pub scope: Option<IdentityScope>,
    /// List the stored identities and exit.
    pub list: bool,
    /// Print the planned changes without writing anything.
    pub dry_run: bool,
}

/// One stored identity.
pub struct StoredIdentity {
    pub email: String,
    pub name: String,
    /// GPG or SSH signing key; empty when none.
    pub signing_key: String,
}

/// The identity store: one entry per email.
pub struct IdentityFile {
    pub identity: Vec<StoredIdentity>,
}

/// The scope to write to: the requested one, else local when inside a git
/// repository (asked only then), else global.
pub fn resolve_scope(requested: Option<IdentityScope>, inside_repo: &impl Fn() -> bool) -> (r:
    IdentityScope)
    requires
        call_requires(*inside_repo, ()),
    ensures
        match requested {
            Some(s) => r == s,
            None => exists|inside: bool|
                call_ensures(*inside_repo, (), inside) && r == if inside {
                    IdentityScope::Local
                } else {
                    IdentityScope::Global
                },
        },
{
    match requested {
        Some(s) => s,
        None => {
            let inside = inside_repo();
            if inside {
                IdentityScope::Local
            } else {
                IdentityScope::Global
            }
        },
    }
}

/// The `git config` flag of a scope.
pub open spec fn scope_flag_spec(scope: IdentityScope) -> Seq<char> {
    match scope {
        IdentityScope::Local => "--local"@,
        IdentityScope::Global => "--global"@,
    }
}

/// The display label of a scope.
pub open spec fn scope_label_spec(scope: IdentityScope) -> Seq<char> {
    match scope {
        IdentityScope::Local => "local"@,
        IdentityScope::Global => "global"@,
    }
}

/// `--local` or `--global`.
pub fn scope_flag(scope: IdentityScope) -> (r: &'static str)
    ensures
        r@ == scope_flag_spec(scope),
{
    match scope {
        IdentityScope::Local => "--local",
        IdentityScope::Global => "--global",
    }
}

/// `local` or `global`.
pub fn scope_label(scope: IdentityScope) -> (r: &'static str)
    ensures
        r@ == scope_label_spec(scope),
{
    match scope {
        IdentityScope::Local => "local",
        IdentityScope::Global => "global",
    }
}

/// Why `neon setup git-identity` stops.
#[derive(Debug, Clone, Copy, PartialEq, Eq, Structural)]
pub enum IdentityError {
    /// `--name` is missing.
    NameRequired,
    /// `--email` is missing.
    EmailRequired,
    /// A `git config` call failed.
    GitConfigFailed,
}

/// The message of each error.
pub open spec fn identity_error_message(e: IdentityError) -> Seq<char> {
    match e {
        IdentityError::NameRequired => "--name is required (use --list to list stored identities)"@,
        IdentityError::EmailRequired => "--email is required (use --list to list stored identities)"@,
        IdentityError::GitConfigFailed => "git config failed \u{2014} are you in a git repo for --scope local?"@,
    }
}

impl IdentityError {
    /// The message printed for this error.
    pub fn message(&self) -> (r: String)
        ensures
            r@ == identity_error_message(*self),
    {
        match self {
            IdentityError::NameRequired => String::from_str(
                "--name is required (use --list to list stored identities)",
            ),
            IdentityError::EmailRequired => String::from_str(
                "--email is required (use --list to list stored identities)",
            ),
            IdentityError::GitConfigFailed => String::from_str(
                "git config failed \u{2014} are you in a git repo for --scope local?",
            ),
        }
    }
}

/// The name and email to set: both are required, the name checked first.
pub fn required_identity(args: &GitIdentityArgs) -> (r: Result<(String, String), IdentityError>)
    ensures
        match (args.name, args.email) {
            (Some(n), Some(e)) => r matches Ok((rn, re)) && rn@ == n@ && re@ == e@,
            (None, _) => r == Err::<(String, String), IdentityError>(IdentityError::NameRequired),
            (Some(_), None) => r == Err::<(String, String), IdentityError>(
                IdentityError::EmailRequired,
            ),
        },
{
    let name = match &args.name {
        Some(n) => n.clone(),
        None => {
            return Err(IdentityError::NameRequired);
        },
    };
    let email = match &args.email {
        Some(e) => e.clone(),
        None => {
            return Err(IdentityError::EmailRequired);
        },
    };
    Ok((name, email))
}

/// The arguments of `git config <flag> <key> <value>`.
pub fn git_config_args(scope: IdentityScope, key: &str, value: &str) -> (r: Vec<String>)
    ensures
        crate::text::views(r@) == seq!["config"@, scope_flag_spec(scope), key@, value@],
{
    let mut v: Vec<String> = Vec::new();
    v.push(owned("config"));
    v.push(owned(scope_flag(scope)));
    v.push(owned(key));
    v.push(owned(value));
    assert(crate::text::views(v@) =~= seq!["config"@, scope_flag_spec(scope), key@, value@]);
    v
}

/// The dry-run lines: the two `git config` calls and the store upsert.
pub open spec fn identity_dry_run_spec(
    scope: IdentityScope,
    name: Seq<char>,
    email: Seq<char>,
    store: Seq<char>,
) -> Seq<char> {
    "[dry-run] git config "@ + scope_flag_spec(scope) + " user.name \""@ + name + "\"\n"@
        + "[dry-run] git config "@ + scope_flag_spec(scope) + " user.email \""@ + email + "\"\n"@
        + "[dry-run] upsert identity email=\""@ + email + "\" name=\""@ + name + "\" in "@ + store
        + "\n"@
}

/// The dry-run output of `git-identity`.
pub fn identity_dry_run(scope: IdentityScope, name: &str, email: &str, store: &str) -> (r: String)
    ensures
        r@ == identity_dry_run_spec(scope, name@, email@, store@),
{
    let mut s = String::from_str("[dry-run] git config ");
    s.append(scope_flag(scope));
    s.append(" user.name \"");
    s.append(name);
    s.append("\"\n");
    s.append("[dry-run] git config ");
    s.append(scope_flag(scope));
    s.append(" user.email \"");
    s.append(email);
    s.append("\"\n");
    s.append("[dry-run] upsert identity email=\"");
    s.append(email);
    s.append("\" name=\"");
    s.append(name);
    s.append("\" in ");
    s.append(store);
    s.append("\n");
    s
}

/// The confirmation printed after the git config was written.
pub fn identity_set_message(scope: IdentityScope, name: &str, email: &str) -> (r: String)
    ensures
        r@ == "Set git identity ("@ + scope_label_spec(scope) + "): name=\""@ + name@
            + "\" email=\""@ + email@ + "\""@,
{
    let mut s = String::from_str("Set git identity (");
    s.append(scope_label(scope));
    s.append("): name=\"");
    s.append(name);
    s.append("\" email=\"");
    s.append(email);
    s.append("\"");
    s
}

// --- The identity store ---

/// The stored identities as (email, name, signing key).
pub open spec fn store_view(ids: Seq<StoredIdentity>) -> Seq<(Seq<char>, Seq<char>, Seq<char>)> {
    ids.map_values(|i: StoredIdentity| (i.email@, i.name@, i.signing_key@))
}

/// Index of the first identity with email `email`, or `ids.len()`.
pub open spec fn email_index(ids: Seq<(Seq<char>, Seq<char>, Seq<char>)>, email: Seq<char>) -> nat
    decreases ids.len(),
{
    if ids.len() == 0 {
        0
    } else if ids[0].0 == email {
        0
    } else {
        1 + email_index(ids.subrange(1, ids.len() as int), email)
    }
}

/// The store after recording `name` for `email`: the first identity with
/// that email gets the new name (keeping its signing key), or a new
/// identity without signing key is appended.
pub open spec fn store_upserted(
    ids: Seq<(Seq<char>, Seq<char>, Seq<char>)>,
    email: Seq<char>,
    name: Seq<char>,
) -> Seq<(Seq<char>, Seq<char>, Seq<char>)> {
    let i = email_index(ids, email);
    if i < ids.len() {
        ids.update(i as int, (email, name, ids[i as int].2))
    } else {
        ids.push((email, name, seq![]))
    }
}

/// `email_index` finds the first identity with the email.
pub proof fn lemma_email_index(ids: Seq<(Seq<char>, Seq<char>, Seq<char>)>, email: Seq<char>, j: int)
    requires
        0 <= j <= ids.len(),
        forall|m: int| 0 <= m < j ==> (#[trigger] ids[m]).0 != email,
        j < ids.len() ==> ids[j].0 == email,
    ensures
        email_index(ids, email) == j,
    decreases j,
{
    if j > 0 {
        let t = ids.subrange(1, ids.len() as int);
        assert forall|m: int| 0 <= m < j - 1 implies (#[trigger] t[m]).0 != email by {
            assert(t[m] == ids[m + 1]);
        }
        if j < ids.len() {
            assert(t[j - 1] == ids[j]);
        }
        lemma_email_index(t, email, j - 1);
    }
}

/// Records `name` for `email` in the store.
pub fn upsert_identity(file: &mut IdentityFile, email: &str, name: &str)
    ensures
        store_view(final(file).identity@) == store_upserted(
            store_view(old(file).identity@),
            email@,
            name@,
        ),
{
    let ghost ids0 = store_view(file.identity@);
    let mut i: usize = 0;
    while i < file.identity.len() && !str_eq(file.identity[i].email.as_str(), email)
        invariant
            i <= file.identity@.len(),
            store_view(file.identity@) == ids0,
            forall|m: int| 0 <= m < i ==> (#[trigger] ids0[m]).0 != email@,
        decreases file.identity@.len() - i,
    {
        i = i + 1;
    }
    proof {
        lemma_email_index(ids0, email@, i as int);
    }
    if i < file.identity.len() {
        let old_entry = file.identity.remove(i);
        let entry = StoredIdentity {
            email: old_entry.email,
            name: owned(name),
            signing_key: old_entry.signing_key,
        };
        file.identity.insert(i, entry);
        assert(store_view(file.identity@) =~= store_upserted(ids0, email@, name@));
    } else {
        file.identity.push(
            StoredIdentity { email: owned(email), name: owned(name), signing_key: String::new() },
        );
        assert(store_view(file.identity@) =~= store_upserted(ids0, email@, name@));
    }
}

/// After recording `name` for `email`, the store's first identity with
/// that email carries `name`; recording it again changes nothing; and no
/// identity is added when the email was already stored.
pub proof fn law_store_upsert(
    ids: Seq<(Seq<char>, Seq<char>, Seq<char>)>,
    email: Seq<char>,
    name: Seq<char>,
)
    ensures
        ({
            let s1 = store_upserted(ids, email, name);
            &&& email_index(s1, email) < s1.len()
            &&& s1[email_index(s1, email) as int].1 == name
            &&& store_upserted(s1, email, name) == s1
            &&& s1.len() == if email_index(ids, email) < ids.len() {
                ids.len()
            } else {
                ids.len() + 1
            }
        }),
{
    let s1 = store_upserted(ids, email, name);
    let i = email_index(ids, email);
    lemma_email_index_props(ids, email);
    assert forall|m: int| 0 <= m < i implies (#[trigger] s1[m]).0 != email by {
        assert(s1[m] == ids[m]);
    }
    lemma_email_index(s1, email, i as int);
    assert(store_upserted(s1, email, name) =~= s1);
}

/// What `email_index` returns: no identity before it has the email, and
/// the one at it has it when it is in range.
pub proof fn lemma_email_index_props(ids: Seq<(Seq<char>, Seq<char>, Seq<char>)>, email: Seq<char>)
    ensures
        email_index(ids, email) <= ids.len(),
        forall|m: int| 0 <= m < email_index(ids, email) ==> (#[trigger] ids[m]).0 != email,
        email_index(ids, email) < ids.len() ==> ids[email_index(ids, email) as int].0 == email,
    decreases ids.len(),
{
    if ids.len() > 0 && ids[0].0 != email {
        let t = ids.subrange(1, ids.len() as int);
        lemma_email_index_props(t, email);
        assert forall|m: int| 0 <= m < email_index(ids, email) implies (#[trigger] ids[m]).0
            != email by {
            if m > 0 {
                assert(ids[m] == t[m - 1]);
            }
        }
        if email_index(ids, email) < ids.len() {
            assert(ids[email_index(ids, email) as int] == t[email_index(t, email) as int]);
        }
    }
}

/// One listed identity: `  name <email>`, with ` [signing: key]` when a
/// signing key is stored.
pub open spec fn identity_list_line(i: (Seq<char>, Seq<char>, Seq<char>)) -> Seq<char> {
    "  "@ + i.1 + " <"@ + i.0 + ">"@ + (if i.2.len() == 0 {
        seq![]
    } else {
        " [signing: "@ + i.2 + "]"@
    }) + "\n"@
}

/// The listed identities, in order.
pub open spec fn identity_list_lines(ids: Seq<(Seq<char>, Seq<char>, Seq<char>)>) -> Seq<char>
    decreases ids.len(),
{
    if ids.len() == 0 {
        seq![]
    } else {
        identity_list_lines(ids.drop_last()) + identity_list_line(ids.last())
    }
}

/// The output of `git-identity --list` for the store at `path`.
pub open spec fn identity_list_text(path: Seq<char>, ids: Seq<(Seq<char>, Seq<char>, Seq<char>)>) -> Seq<
    char,
> {
    if ids.len() == 0 {
        "No stored identities found in "@ + path + "\n"@
    } else {
        "Stored identities ("@ + path + "):\n"@ + identity_list_lines(ids)
    }
}

/// Lists the stored identities.
pub fn run_list(path: &str, file: &IdentityFile) -> (r: String)
    ensures
        r@ == identity_list_text(path@, store_view(file.identity@)),
{
    let ids = &file.identity;
    if ids.len() == 0 {
        let mut s = String::from_str("No stored identities found in ");
        s.append(path);
        s.append("\n");
        return s;
    }
    let mut s = String::from_str("Stored identities (");
    s.append(path);
    s.append("):\n");
    let ghost head = s@;
    let mut i: usize = 0;
    while i < ids.len()
        invariant
            i <= ids@.len(),
            s@ == head + identity_list_lines(store_view(ids@).subrange(0, i as int)),
        decreases ids@.len() - i,
    {
        let id = &ids[i];
        let ghost before = s@;
        s.append("  ");
        s.append(id.name.as_str());
        s.append(" <");
        s.append(id.email.as_str());
        s.append(">");
        if id.signing_key.unicode_len() > 0 {
            s.append(" [signing: ");
            s.append(id.signing_key.as_str());
            s.append("]");
        }
        s.append("\n");
        proof {
            let t = store_view(ids@).subrange(0, i + 1);
            assert(t.drop_last() =~= store_view(ids@).subrange(0, i as int));
            assert(t.last() == (id.email@, id.name@, id.signing_key@));
            assert(s@ =~= before + identity_list_line(t.last()));
        }
        i = i + 1;
    }
    assert(store_view(ids@).subrange(0, ids@.len() as int) =~= store_view(ids@));
    s
}

} // verus!
