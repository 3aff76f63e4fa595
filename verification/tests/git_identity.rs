use neon_cli::setup::git_identity::{
    git_config_args, identity_dry_run, identity_set_message, required_identity, resolve_scope,
    run_list, scope_flag, scope_label, upsert_identity, GitIdentityArgs, IdentityError,
    IdentityFile, IdentityScope, StoredIdentity,
};

fn identity(email: &str, name: &str, key: &str) -> StoredIdentity {
    StoredIdentity { email: email.to_string(), name: name.to_string(), signing_key: key.to_string() }
}

#[test]
fn upsert_updates_existing_name() {
    let mut file = IdentityFile { identity: vec![identity("chris@example.com", "Old Name", "")] };
    upsert_identity(&mut file, "chris@example.com", "New Name");
    assert_eq!(file.identity.len(), 1);
    assert_eq!(file.identity[0].name, "New Name");
}

#[test]
fn upsert_appends_new_email_and_keeps_keys() {
    let mut file = IdentityFile { identity: vec![identity("a@x", "A", "KEY")] };
    upsert_identity(&mut file, "b@x", "B");
    assert_eq!(file.identity.len(), 2);
    assert_eq!(file.identity[1].email, "b@x");
    assert_eq!(file.identity[1].signing_key, "");
    upsert_identity(&mut file, "a@x", "A2");
    assert_eq!(file.identity[0].signing_key, "KEY");
    assert_eq!(file.identity[0].name, "A2");
    upsert_identity(&mut file, "a@x", "A2");
    assert_eq!(file.identity.len(), 2);
}

#[test]
fn scope_resolution_asks_git_only_when_needed() {
    let inside = || true;
    let outside = || false;
    assert_eq!(resolve_scope(Some(IdentityScope::Global), &inside), IdentityScope::Global);
    assert_eq!(resolve_scope(None, &inside), IdentityScope::Local);
    assert_eq!(resolve_scope(None, &outside), IdentityScope::Global);
    assert_eq!(scope_flag(IdentityScope::Local), "--local");
    assert_eq!(scope_label(IdentityScope::Global), "global");
}

#[test]
fn name_and_email_are_required() {
    let args = GitIdentityArgs { name: None, email: Some("e".to_string()), scope: None, list: false, dry_run: false };
    assert_eq!(required_identity(&args).unwrap_err(), IdentityError::NameRequired);
    let args = GitIdentityArgs { name: Some("n".to_string()), email: None, scope: None, list: false, dry_run: false };
    assert_eq!(required_identity(&args).unwrap_err(), IdentityError::EmailRequired);
    assert_eq!(
        IdentityError::EmailRequired.message(),
        "--email is required (use --list to list stored identities)"
    );
    let args = GitIdentityArgs { name: Some("n".to_string()), email: Some("e".to_string()), scope: None, list: false, dry_run: false };
    assert_eq!(required_identity(&args).unwrap(), ("n".to_string(), "e".to_string()));
}

#[test]
fn identity_commands_and_messages() {
    assert_eq!(
        git_config_args(IdentityScope::Global, "user.name", "Ada"),
        vec!["config".to_string(), "--global".to_string(), "user.name".to_string(), "Ada".to_string()]
    );
    assert_eq!(
        identity_dry_run(IdentityScope::Local, "Ada", "ada@x", "/h/.config/git/identities"),
        "[dry-run] git config --local user.name \"Ada\"\n[dry-run] git config --local user.email \"ada@x\"\n[dry-run] upsert identity email=\"ada@x\" name=\"Ada\" in /h/.config/git/identities\n"
    );
    assert_eq!(
        identity_set_message(IdentityScope::Local, "Ada", "ada@x"),
        "Set git identity (local): name=\"Ada\" email=\"ada@x\""
    );
}

#[test]
fn listing_shows_signing_keys() {
    let empty = IdentityFile { identity: vec![] };
    assert_eq!(run_list("/p", &empty), "No stored identities found in /p\n");
    let file = IdentityFile {
        identity: vec![identity("chris@example.com", "Chris", ""), identity("work@corp.example", "Chris Corp", "ABC123")],
    };
    assert_eq!(
        run_list("/p", &file),
        "Stored identities (/p):\n  Chris <chris@example.com>\n  Chris Corp <work@corp.example> [signing: ABC123]\n"
    );
}
