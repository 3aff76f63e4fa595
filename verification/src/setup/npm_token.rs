//! `neon setup npm-token`: the `~/.npmrc` auth line for a registry and the
//! in-memory upsert of that line into the existing file contents.
//!
//! Idempotent by construction: an existing line for the same registry is
//! replaced instead of a second one being appended.
use vstd::prelude::*;
use vstd::string::*;

use crate::text::{
    drop_cr, ends_with_cr, from_range, join, join_spec, lemma_lines_last_nonempty, lemma_lines_no_newline,
    lemma_lines_of_join, lines, lines_read_back, lines_spec, no_newline, occurs_at, owned, starts_with,
    starts_with_spec, to_chars, trim_end_char, trim_end_char_spec, views,
};

verus! {

// --- Arguments and errors ---

/// Arguments of `neon setup npm-token`.
pub struct NpmTokenArgs {
    /// Auth token to write.
    pub token: String,
    /// Registry URL (the command line defaults it to `https://registry.npmjs.org`).
    pub registry: String,
    /// Print the planned change without writing anything.
    pub dry_run: bool,
}

/// Why `neon setup npm-token` refuses its arguments.
#[derive(Debug, Clone, Copy, PartialEq, Eq, Structural)]
pub enum NpmTokenError {
    /// `--token` was given as the empty string.
    EmptyToken,
}

impl NpmTokenError {
    /// The message printed for this error.
    pub fn message(&self) -> (r: String)
        ensures
            r@ == "--token cannot be empty"@,
    {
        match self {
            NpmTokenError::EmptyToken => String::from_str("--token cannot be empty"),
        }
    }
}

/// Refuses an empty token, the one argument check of the command.
pub fn validate(args: &NpmTokenArgs) -> (r: Result<(), NpmTokenError>)
    ensures
        r is Err <==> args.token@.len() == 0,
        r matches Err(e) ==> e == NpmTokenError::EmptyToken,
{
    if args.token.unicode_len() == 0 {
        Err(NpmTokenError::EmptyToken)
    } else {
        Ok(())
    }
}

// --- Specification ---

/// The registry URL without a leading `https://` or `http://`.
pub open spec fn scheme_stripped(r: Seq<char>) -> Seq<char> {
    if starts_with_spec(r, "https://"@) {
        r.subrange("https://"@.len() as int, r.len() as int)
    } else if starts_with_spec(r, "http://"@) {
        r.subrange("http://"@.len() as int, r.len() as int)
    } else {
        r
    }
}

/// The `.npmrc` auth key of a registry: `//<host/path>/:_authToken`.
pub open spec fn registry_key(registry: Seq<char>) -> Seq<char> {
    "//"@ + trim_end_char_spec(scheme_stripped(registry), '/') + "/:_authToken"@
}

/// The full `.npmrc` line `<key>=<token>`.
pub open spec fn npmrc_line(registry: Seq<char>, token: Seq<char>) -> Seq<char> {
    registry_key(registry) + "="@ + token
}

/// Index of the first line that starts with `p`, or `ls.len()` when none does.
pub open spec fn first_prefixed(ls: Seq<Seq<char>>, p: Seq<char>) -> nat
    decreases ls.len(),
{
    if ls.len() == 0 {
        0
    } else if starts_with_spec(ls[0], p) {
        0
    } else {
        1 + first_prefixed(ls.subrange(1, ls.len() as int), p)
    }
}

/// The first line starting with `p` replaced by `line`, or `line` appended
/// when no line starts with `p`.
pub open spec fn upserted_lines(ls: Seq<Seq<char>>, p: Seq<char>, line: Seq<char>) -> Seq<Seq<char>> {
    let i = first_prefixed(ls, p);
    if i < ls.len() {
        ls.update(i as int, line)
    } else {
        ls.push(line)
    }
}

/// A newline when `s` ends with one, else nothing.
pub open spec fn trailing_newline(s: Seq<char>) -> Seq<char> {
    if s.len() > 0 && s[s.len() - 1] == '\n' {
        seq!['\n']
    } else {
        seq![]
    }
}

/// The `.npmrc` contents after writing the token line for `registry`.
pub open spec fn npmrc_upsert(content: Seq<char>, registry: Seq<char>, token: Seq<char>) -> Seq<
    char,
> {
    join_spec(
        upserted_lines(
            lines_spec(content),
            registry_key(registry) + "="@,
            npmrc_line(registry, token),
        ),
        "\n"@,
    ) + trailing_newline(content)
}

/// `first_prefixed` finds the first line starting with `p`.
pub proof fn lemma_first_prefixed(ls: Seq<Seq<char>>, p: Seq<char>, j: int)
    requires
        0 <= j <= ls.len(),
        forall|k: int| 0 <= k < j ==> !starts_with_spec(#[trigger] ls[k], p),
        j < ls.len() ==> starts_with_spec(ls[j], p),
    ensures
        first_prefixed(ls, p) == j,
    decreases j,
{
    if j > 0 {
        let t = ls.subrange(1, ls.len() as int);
        assert forall|k: int| 0 <= k < j - 1 implies !starts_with_spec(#[trigger] t[k], p) by {
            assert(t[k] == ls[k + 1]);
        }
        if j < ls.len() {
            assert(t[j - 1] == ls[j]);
        }
        lemma_first_prefixed(t, p, j - 1);
    }
}

/// What `first_prefixed` returns: no line before it starts with `p`, and the
/// line at it does when it is in range.
pub proof fn lemma_first_prefixed_props(ls: Seq<Seq<char>>, p: Seq<char>)
    ensures
        first_prefixed(ls, p) <= ls.len(),
        forall|k: int| 0 <= k < first_prefixed(ls, p) ==> !starts_with_spec(#[trigger] ls[k], p),
        first_prefixed(ls, p) < ls.len() ==> starts_with_spec(ls[first_prefixed(ls, p) as int], p),
    decreases ls.len(),
{
    if ls.len() > 0 && !starts_with_spec(ls[0], p) {
        let t = ls.subrange(1, ls.len() as int);
        lemma_first_prefixed_props(t, p);
        assert forall|k: int| 0 <= k < first_prefixed(ls, p) implies !starts_with_spec(
            #[trigger] ls[k],
            p,
        ) by {
            if k > 0 {
                assert(ls[k] == t[k - 1]);
            }
        }
        if first_prefixed(ls, p) < ls.len() {
            assert(ls[first_prefixed(ls, p) as int] == t[first_prefixed(t, p) as int]);
        }
    }
}

/// Writing the same token for the same registry a second time leaves the
/// file exactly as the first write left it: the line is replaced, never
/// duplicated.  Stated for files whose lines do not end in a carriage
/// return, and for a token line without a newline.
pub proof fn law_upsert_idempotent(content: Seq<char>, registry: Seq<char>, token: Seq<char>)
    requires
        forall|i: int|
            0 <= i < lines_spec(content).len() ==> !ends_with_cr(#[trigger] lines_spec(content)[i]),
        no_newline(npmrc_line(registry, token)),
    ensures
        npmrc_upsert(npmrc_upsert(content, registry, token), registry, token) == npmrc_upsert(
            content,
            registry,
            token,
        ),
{
    reveal_strlit("\n");
    reveal_strlit("//");
    let ls = lines_spec(content);
    let p = registry_key(registry) + "="@;
    let nl = npmrc_line(registry, token);
    let ls2 = upserted_lines(ls, p, nl);
    let t = trailing_newline(content);
    let c1 = npmrc_upsert(content, registry, token);
    assert("\n"@ =~= seq!['\n']);
    assert(c1 == join_spec(ls2, seq!['\n']) + t);
    // the new line starts with the key prefix, also without a final `\r`
    assert(nl.subrange(0, p.len() as int) =~= p);
    assert(occurs_at(nl, p, 0));
    assert(nl.len() > 0);
    let back = drop_cr(nl);
    if nl.len() > p.len() {
        assert(back.subrange(0, p.len() as int) =~= p);
    } else {
        assert(nl =~= p);
        reveal_strlit("=");
        assert(p[p.len() - 1] == '=');
        assert(back == nl);
    }
    assert(occurs_at(back, p, 0));
    lemma_first_prefixed_props(ls, p);
    lemma_lines_no_newline(content);
    let i0 = first_prefixed(ls, p);
    assert(ls2.len() >= 1);
    assert(ls2[i0 as int] == nl);
    assert forall|i: int| 0 <= i < ls2.len() implies no_newline(#[trigger] ls2[i]) && (i != i0
        ==> !ends_with_cr(ls2[i])) by {
        if i != i0 {
            assert(ls2[i] == ls[i]);
        }
    }
    // the last line is not empty when no final newline follows it
    if t.len() == 0 && content.len() > 0 {
        lemma_lines_last_nonempty(content);
    }
    if ls.len() > 0 && i0 != ls2.len() - 1 {
        assert(ls2[ls2.len() - 1] == ls[ls.len() - 1]);
    }
    lemma_lines_of_join(ls2, t);
    let ls3 = lines_read_back(ls2, t);
    assert(lines_spec(c1) == ls3);
    assert forall|i: int| 0 <= i < ls3.len() && i != i0 implies #[trigger] ls3[i] == ls2[i] by {
        assert(!ends_with_cr(ls2[i]));
    }
    assert(ls3[i0 as int] == nl || ls3[i0 as int] == back);
    // the trailing newline is kept as it was
    let last = ls2[ls2.len() - 1];
    if ls2.len() == 1 {
        assert(join_spec(ls2, seq!['\n']) == last);
    } else {
        assert(join_spec(ls2, seq!['\n']) == join_spec(ls2.subrange(0, ls2.len() - 1), seq!['\n'])
            + seq!['\n'] + last);
    }
    if t.len() == 0 {
        assert(c1[c1.len() - 1] == last[last.len() - 1]);
        assert(no_newline(last));
    }
    assert(trailing_newline(c1) == t);
    // the second write finds the line the first one wrote
    assert forall|k: int| 0 <= k < i0 implies !starts_with_spec(#[trigger] ls3[k], p) by {
        assert(ls3[k] == ls2[k]);
        assert(ls2[k] == ls[k]);
    }
    assert(starts_with_spec(ls3[i0 as int], p));
    lemma_first_prefixed(ls3, p, i0 as int);
    assert(upserted_lines(ls3, p, nl) =~= ls2);
}

// --- Executable functions ---

/// The registry URL without its scheme.
fn strip_scheme(registry: &str) -> (r: String)
    ensures
        r@ == scheme_stripped(registry@),
{
    proof {
        reveal_strlit("https://");
        reveal_strlit("http://");
    }
    if starts_with(registry, "https://") {
        let v = to_chars(registry);
        from_range(&v, 8, v.len())
    } else if starts_with(registry, "http://") {
        let v = to_chars(registry);
        from_range(&v, 7, v.len())
    } else {
        owned(registry)
    }
}

/// Converts a registry URL to its `.npmrc` auth key.
///
/// `https://registry.npmjs.org` becomes `//registry.npmjs.org/:_authToken`.
pub fn registry_to_key(registry: &str) -> (r: String)
    ensures
        r@ == registry_key(registry@),
{
    let without_scheme = strip_scheme(registry);
    let bare = trim_end_char(without_scheme.as_str(), '/');
    let mut r = String::from_str("//");
    r.append(bare.as_str());
    r.append("/:_authToken");
    r
}

/// The full line that should appear in `.npmrc`.
pub fn build_npmrc_line(registry: &str, token: &str) -> (r: String)
    ensures
        r@ == npmrc_line(registry@, token@),
{
    let mut r = registry_to_key(registry);
    r.append("=");
    r.append(token);
    r
}

/// Upserts the auth line into the `.npmrc` contents.
///
/// The first line starting with `<key>=` is replaced; when there is none the
/// new line is appended.  Every other line is kept, and a trailing newline
/// is kept when the original had one.
pub fn upsert_npmrc_line(content: &str, registry: &str, token: &str) -> (r: String)
    ensures
        r@ == npmrc_upsert(content@, registry@, token@),
{
    let new_line = build_npmrc_line(registry, token);
    let mut prefix = registry_to_key(registry);
    prefix.append("=");
    let mut ls = lines(content);
    let ghost ls0 = views(ls@);
    let mut i: usize = 0;
    while i < ls.len() && !starts_with(ls[i].as_str(), prefix.as_str())
        invariant
            i <= ls.len(),
            views(ls@) == ls0,
            forall|k: int| 0 <= k < i ==> !starts_with_spec(#[trigger] ls0[k], prefix@),
        decreases ls.len() - i,
    {
        i = i + 1;
    }
    proof {
        lemma_first_prefixed(ls0, prefix@, i as int);
    }
    if i < ls.len() {
        ls.set(i, new_line);
        assert(views(ls@) =~= ls0.update(i as int, new_line@));
    } else {
        let ghost before = ls@;
        ls.push(new_line);
        assert(views(ls@) =~= views(before).push(new_line@));
    }
    let mut r = join(&ls, "\n");
    proof {
        reveal_strlit("\n");
    }
    let v = to_chars(content);
    if v.len() > 0 && v[v.len() - 1] == '\n' {
        r.append("\n");
        assert(r@ =~= join_spec(views(ls@), "\n"@) + trailing_newline(content@));
    } else {
        proof {
            assert(r@ + trailing_newline(content@) =~= r@);
        }
    }
    r
}

} // verus!
