//! `neon setup docker-login` / `docker-logout` / `docker-show`: the docker
//! invocations, their dry-run lines, and the registries that
//! `~/.docker/config.json` records as logged in.
use vstd::prelude::*;
use vstd::string::*;

use crate::install::str_views;
use crate::json::{entry_views, get_key, get_key_exec, json_view, json_views, lemma_entry_views, lemma_json_views, Json, JsonV};
use crate::setup::languages::path_answer;
use crate::text::{lex_order, owned, prefixed_lines, push_prefixed_lines, sort_strings, views};

verus! {

// --- Arguments ---

/// Arguments of `neon setup docker-login`.
pub struct DockerLoginArgs {
    /// Registry host (the command line defaults it to `docker.io`).
    pub registry: String,
    /// User name; docker prompts for it when absent.
    pub username: Option<String>,
    /// Print the planned command without running docker.
    pub dry_run: bool,
}

/// Arguments of `neon setup docker-logout`.
pub struct DockerLogoutArgs {
    /// Registry host (the command line defaults it to `docker.io`).
    pub registry: String,
    /// Print the planned command without running docker.
    pub dry_run: bool,
}

/// Arguments of `neon setup docker-show` (none).
pub struct DockerShowArgs {}

// --- Errors and outcomes ---

/// Why a docker step fails.
#[derive(Debug, Clone, Copy, PartialEq, Eq, Structural)]
pub enum DockerError {
    /// `docker` is not on PATH (login).
    LoginNotOnPath,
    /// `docker` is not on PATH (logout).
    LogoutNotOnPath,
    /// `docker login` exited unsuccessfully.
    LoginFailed,
    /// `docker logout` exited unsuccessfully.
    LogoutFailed,
}

/// The message of each error.
pub open spec fn docker_error_message(e: DockerError) -> Seq<char> {
    match e {
        DockerError::LoginNotOnPath => "docker is not on PATH \u{2014} install Docker first"@,
        DockerError::LogoutNotOnPath => "docker is not on PATH"@,
        DockerError::LoginFailed => "docker login failed"@,
        DockerError::LogoutFailed => "docker logout failed"@,
    }
}

impl DockerError {
    /// The message printed for this error.
    pub fn message(&self) -> (r: String)
        ensures
            r@ == docker_error_message(*self),
    {
        match self {
            DockerError::LoginNotOnPath => String::from_str(
                "docker is not on PATH \u{2014} install Docker first",
            ),
            DockerError::LogoutNotOnPath => String::from_str("docker is not on PATH"),
            DockerError::LoginFailed => String::from_str("docker login failed"),
            DockerError::LogoutFailed => String::from_str("docker logout failed"),
        }
    }
}

/// What a successful docker step did.
pub enum DockerOutcome {
    /// Dry run: this line is to be printed; docker was not run.
    DryRun(String),
    /// docker ran and succeeded.
    Done,
}

/// The arguments of `docker login`.
pub open spec fn login_args(registry: Seq<char>, username: Option<String>) -> Seq<Seq<char>> {
    match username {
        Some(u) => seq!["login"@, "--username"@, u@, registry],
        None => seq!["login"@, registry],
    }
}

/// The dry-run line of `docker-login`.
pub open spec fn login_dry_run_line(registry: Seq<char>, username: Option<String>) -> Seq<char> {
    match username {
        Some(u) => "[dry-run] docker login --username "@ + u@ + " "@ + registry,
        None => "[dry-run] docker login "@ + registry + " (will prompt for credentials)"@,
    }
}

/// `run` answered `ok` for `docker <args>` (run with inherited terminal).
pub open spec fn run_answer<R: Fn(&str, &[&str]) -> bool>(
    run: R,
    args: Seq<Seq<char>>,
    ok: bool,
) -> bool {
    exists|p: &str, a: &[&str]|
        p@ == "docker"@ && str_views(a@) == args && #[trigger] call_ensures(run, (p, a), ok)
}

/// Runs `docker <args>` through `run`.
fn run_docker(run: &impl Fn(&str, &[&str]) -> bool, args: &Vec<&str>) -> (ok: bool)
    requires
        forall|p: &str, a: &[&str]| call_requires(*run, (p, a)),
    ensures
        run_answer(*run, str_views(args@), ok),
{
    let a = args.as_slice();
    let ok = run("docker", a);
    assert(call_ensures(*run, ("docker", a), ok));
    ok
}

/// `neon setup docker-login`: requires docker on PATH; in a dry run returns
/// the planned command line, otherwise runs `docker login [--username <u>]
/// <registry>` (docker prompts for the password) and fails when it fails.
pub fn run_login(
    args: &DockerLoginArgs,
    on_path: &impl Fn(&str) -> bool,
    run: &impl Fn(&str, &[&str]) -> bool,
) -> (r: Result<DockerOutcome, DockerError>)
    requires
        forall|t: &str| call_requires(*on_path, (t,)),
        forall|p: &str, a: &[&str]| call_requires(*run, (p, a)),
    ensures
        exists|found: bool|
            path_answer(*on_path, "docker"@, found) && (!found ==> r == Err::<
                DockerOutcome,
                DockerError,
            >(DockerError::LoginNotOnPath)) && (found && args.dry_run ==> (r matches Ok(
                DockerOutcome::DryRun(line),
            ) && line@ == login_dry_run_line(args.registry@, args.username))) && (found
                && !args.dry_run ==> exists|ok: bool|
                run_answer(*run, login_args(args.registry@, args.username), ok) && if ok {
                    r matches Ok(DockerOutcome::Done)
                } else {
                    r == Err::<DockerOutcome, DockerError>(DockerError::LoginFailed)
                }),
{
    let found = on_path("docker");
    assert(call_ensures(*on_path, ("docker",), found));
    assert(path_answer(*on_path, "docker"@, found));
    if !found {
        return Err(DockerError::LoginNotOnPath);
    }
    if args.dry_run {
        let line = match &args.username {
            Some(u) => {
                let mut s = String::from_str("[dry-run] docker login --username ");
                s.append(u.as_str());
                s.append(" ");
                s.append(args.registry.as_str());
                s
            },
            None => {
                let mut s = String::from_str("[dry-run] docker login ");
                s.append(args.registry.as_str());
                s.append(" (will prompt for credentials)");
                s
            },
        };
        return Ok(DockerOutcome::DryRun(line));
    }
    let mut cmd: Vec<&str> = Vec::new();
    cmd.push("login");
    if let Some(u) = &args.username {
        cmd.push("--username");
        cmd.push(u.as_str());
    }
    cmd.push(args.registry.as_str());
    assert(str_views(cmd@) =~= login_args(args.registry@, args.username));
    let ok = run_docker(run, &cmd);
    if ok {
        Ok(DockerOutcome::Done)
    } else {
        Err(DockerError::LoginFailed)
    }
}

/// `neon setup docker-logout`: requires docker on PATH; in a dry run returns
/// the planned command line, otherwise runs `docker logout <registry>` and
/// fails when it fails.
pub fn run_logout(
    args: &DockerLogoutArgs,
    on_path: &impl Fn(&str) -> bool,
    run: &impl Fn(&str, &[&str]) -> bool,
) -> (r: Result<DockerOutcome, DockerError>)
    requires
        forall|t: &str| call_requires(*on_path, (t,)),
        forall|p: &str, a: &[&str]| call_requires(*run, (p, a)),
    ensures
        exists|found: bool|
            path_answer(*on_path, "docker"@, found) && (!found ==> r == Err::<
                DockerOutcome,
                DockerError,
            >(DockerError::LogoutNotOnPath)) && (found && args.dry_run ==> (r matches Ok(
                DockerOutcome::DryRun(line),
            ) && line@ == "[dry-run] docker logout "@ + args.registry@)) && (found && !args.dry_run
                ==> exists|ok: bool|
                run_answer(*run, seq!["logout"@, args.registry@], ok) && if ok {
                    r matches Ok(DockerOutcome::Done)
                } else {
                    r == Err::<DockerOutcome, DockerError>(DockerError::LogoutFailed)
                }),
{
    let found = on_path("docker");
    assert(call_ensures(*on_path, ("docker",), found));
    assert(path_answer(*on_path, "docker"@, found));
    if !found {
        return Err(DockerError::LogoutNotOnPath);
    }
    if args.dry_run {
        let mut s = String::from_str("[dry-run] docker logout ");
        s.append(args.registry.as_str());
        return Ok(DockerOutcome::DryRun(s));
    }
    let mut cmd: Vec<&str> = Vec::new();
    cmd.push("logout");
    cmd.push(args.registry.as_str());
    assert(str_views(cmd@) =~= seq!["logout"@, args.registry@]);
    let ok = run_docker(run, &cmd);
    if ok {
        Ok(DockerOutcome::Done)
    } else {
        Err(DockerError::LogoutFailed)
    }
}

// --- ~/.docker/config.json ---

/// The keys of an object's entries, in order.
pub open spec fn entry_keys(es: Seq<(Seq<char>, JsonV)>) -> Seq<Seq<char>> {
    es.map_values(|e: (Seq<char>, JsonV)| e.0)
}

/// The registries that a `config.json` document records under `auths`, as
/// reading it into `{ auths: map }` (absent `auths` meaning none) gives them;
/// a document of another shape gives none.  A JSON array stands for the
/// fields in order, so a one-element array holding a map reads as `auths`.
pub open spec fn docker_auths(doc: JsonV) -> Seq<Seq<char>> {
    match doc {
        JsonV::Object(_) => match get_key(doc, "auths"@) {
            Some(JsonV::Object(m)) => entry_keys(m),
            _ => seq![],
        },
        JsonV::Array(items) => if items.len() == 1 {
            match items[0] {
                JsonV::Object(m) => entry_keys(m),
                _ => seq![],
            }
        } else {
            seq![]
        },
        _ => seq![],
    }
}

/// The keys of a JSON object's entries.
fn object_keys(es: &Vec<(String, Json)>) -> (r: Vec<String>)
    ensures
        views(r@) == entry_keys(entry_views(es@)),
{
    proof {
        lemma_entry_views(es@);
    }
    let mut out: Vec<String> = Vec::new();
    let mut i: usize = 0;
    while i < es.len()
        invariant
            i <= es@.len(),
            entry_views(es@).len() == es@.len(),
            forall|m: int| 0 <= m < es@.len() ==> #[trigger] entry_views(es@)[m] == (
                es@[m].0@,
                json_view(es@[m].1),
            ),
            views(out@) == entry_keys(entry_views(es@)).subrange(0, i as int),
        decreases es@.len() - i,
    {
        let ghost before = out@;
        assert(entry_keys(entry_views(es@))[i as int] == es@[i as int].0@);
        let k = es[i].0.clone();
        out.push(k);
        assert(views(out@) =~= views(before).push(k@));
        assert(views(out@) =~= entry_keys(entry_views(es@)).subrange(0, i + 1));
        i = i + 1;
    }
    assert(entry_keys(entry_views(es@)).subrange(0, es@.len() as int) =~= entry_keys(
        entry_views(es@),
    ));
    out
}

/// The registries recorded under `auths`, in file order; none when the
/// file could not be read or parsed (`doc` absent).
pub fn docker_auths_exec(doc: Option<&Json>) -> (r: Vec<String>)
    ensures
        views(r@) == match doc {
            Some(d) => docker_auths(json_view(*d)),
            None => seq![],
        },
{
    match doc {
        None => {
            let r: Vec<String> = Vec::new();
            assert(views(r@) =~= Seq::<Seq<char>>::empty());
            r
        },
        Some(d) => match d {
            Json::Object(_) => match get_key_exec(d, "auths") {
                Some(a) => match a {
                    Json::Object(m) => object_keys(m),
                    _ => {
                        let r: Vec<String> = Vec::new();
                        assert(views(r@) =~= Seq::<Seq<char>>::empty());
                        r
                    },
                },
                None => {
                    let r: Vec<String> = Vec::new();
                    assert(views(r@) =~= Seq::<Seq<char>>::empty());
                    r
                },
            },
            Json::Array(items) => {
                proof {
                    lemma_json_views(items@);
                }
                if items.len() == 1 {
                    match &items[0] {
                        Json::Object(m) => object_keys(m),
                        _ => {
                            let r: Vec<String> = Vec::new();
                            assert(views(r@) =~= Seq::<Seq<char>>::empty());
                            r
                        },
                    }
                } else {
                    let r: Vec<String> = Vec::new();
                    assert(views(r@) =~= Seq::<Seq<char>>::empty());
                    r
                }
            },
            _ => {
                let r: Vec<String> = Vec::new();
                assert(views(r@) =~= Seq::<Seq<char>>::empty());
                r
            },
        },
    }
}

/// The logged-in registries, sorted.
pub fn docker_registries(doc: Option<&Json>) -> (r: Vec<String>)
    ensures
        views(r@) == (match doc {
            Some(d) => docker_auths(json_view(*d)),
            None => seq![],
        }).sort_by(lex_order()),
{
    let keys = docker_auths_exec(doc);
    sort_strings(&keys)
}

/// The text of `docker-show`: the config path, then one check-marked line
/// per registry (sorted), or a note that none is logged in.
pub open spec fn show_text(path: Seq<char>, registries: Seq<Seq<char>>) -> Seq<char> {
    "Docker auth state ("@ + path + ")\n"@ + if registries.len() == 0 {
        "  (no registries logged in)\n"@
    } else {
        prefixed_lines("  \u{2713} "@, registries)
    }
}

/// `neon setup docker-show`'s output for the config at `path`.
pub fn run_show(path: &str, doc: Option<&Json>) -> (r: String)
    ensures
        r@ == show_text(
            path@,
            (match doc {
                Some(d) => docker_auths(json_view(*d)),
                None => seq![],
            }).sort_by(lex_order()),
        ),
{
    let regs = docker_registries(doc);
    let mut s = String::from_str("Docker auth state (");
    s.append(path);
    s.append(")\n");
    if regs.len() == 0 {
        s.append("  (no registries logged in)\n");
    } else {
        push_prefixed_lines(&mut s, "  \u{2713} ", &regs);
    }
    s
}

} // verus!
