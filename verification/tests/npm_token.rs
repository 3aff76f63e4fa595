use neon_cli::setup::npm_token::{
    build_npmrc_line, registry_to_key, upsert_npmrc_line, validate, NpmTokenArgs, NpmTokenError,
};

#[test]
fn registry_to_key_strips_https() {
    assert_eq!(registry_to_key("https://registry.npmjs.org"), "//registry.npmjs.org/:_authToken");
}

#[test]
fn registry_to_key_strips_http() {
    assert_eq!(registry_to_key("http://registry.npmjs.org"), "//registry.npmjs.org/:_authToken");
}

#[test]
fn registry_to_key_no_scheme() {
    assert_eq!(registry_to_key("registry.npmjs.org"), "//registry.npmjs.org/:_authToken");
}

#[test]
fn registry_to_key_trailing_slash() {
    assert_eq!(registry_to_key("https://registry.npmjs.org/"), "//registry.npmjs.org/:_authToken");
}

#[test]
fn upsert_appends_when_absent() {
    let content = "other=value\n";
    let result = upsert_npmrc_line(content, "https://registry.npmjs.org", "mytoken");
    assert!(result.contains("//registry.npmjs.org/:_authToken=mytoken"));
    assert!(result.contains("other=value"));
}

#[test]
fn upsert_replaces_existing_line() {
    let content = "//registry.npmjs.org/:_authToken=oldtoken\nother=value\n";
    let result = upsert_npmrc_line(content, "https://registry.npmjs.org", "newtoken");
    assert!(result.contains("//registry.npmjs.org/:_authToken=newtoken"));
    assert!(!result.contains("oldtoken"));
    assert_eq!(result.matches("_authToken").count(), 1, "should not duplicate");
}

#[test]
fn upsert_preserves_trailing_newline() {
    let content = "foo=bar\n";
    let result = upsert_npmrc_line(content, "https://registry.npmjs.org", "tok");
    assert!(result.ends_with('\n'));
}

#[test]
fn upsert_empty_content_produces_single_line() {
    let result = upsert_npmrc_line("", "https://registry.npmjs.org", "tok");
    assert_eq!(result, "//registry.npmjs.org/:_authToken=tok");
}

#[test]
fn upsert_github_registry() {
    let content = "";
    let result = upsert_npmrc_line(content, "https://npm.pkg.github.com", "ghpat");
    assert!(result.contains("//npm.pkg.github.com/:_authToken=ghpat"));
}

#[test]
fn upsert_twice_gives_the_same_file() {
    let content = "a=1\r\n//registry.npmjs.org/:_authToken=old\nb=2";
    let once = upsert_npmrc_line(content, "https://registry.npmjs.org", "tok");
    let twice = upsert_npmrc_line(&once, "https://registry.npmjs.org", "tok");
    assert_eq!(once, "a=1\n//registry.npmjs.org/:_authToken=tok\nb=2");
    assert_eq!(once, twice);
}

#[test]
fn upsert_keeps_other_registries_lines_in_place() {
    let content = "//npm.pkg.github.com/:_authToken=gh\n";
    let result = upsert_npmrc_line(content, "https://registry.npmjs.org", "tok");
    assert_eq!(
        result,
        "//npm.pkg.github.com/:_authToken=gh\n//registry.npmjs.org/:_authToken=tok\n"
    );
}

#[test]
fn registry_key_trims_every_trailing_slash_and_keeps_paths() {
    assert_eq!(registry_to_key("https://host.example/npm//"), "//host.example/npm/:_authToken");
}

#[test]
fn masked_line_for_dry_run() {
    assert_eq!(
        build_npmrc_line("https://registry.npmjs.org", "****"),
        "//registry.npmjs.org/:_authToken=****"
    );
}

#[test]
fn empty_token_is_rejected() {
    let args = NpmTokenArgs {
        token: String::new(),
        registry: "https://registry.npmjs.org".to_string(),
        dry_run: false,
    };
    assert_eq!(validate(&args), Err(NpmTokenError::EmptyToken));
    assert_eq!(NpmTokenError::EmptyToken.message(), "--token cannot be empty");
    let ok = NpmTokenArgs { token: "t".to_string(), ..args };
    assert_eq!(validate(&ok), Ok(()));
}

#[test]
fn upsert_with_carriage_return_token_is_idempotent() {
    let once = upsert_npmrc_line("a=1\n", "https://registry.npmjs.org", "tok\r");
    assert_eq!(once, "a=1\n//registry.npmjs.org/:_authToken=tok\r\n");
    let twice = upsert_npmrc_line(&once, "https://registry.npmjs.org", "tok\r");
    assert_eq!(twice, once);
    let bare = upsert_npmrc_line("a=1", "https://registry.npmjs.org", "tok\r");
    assert_eq!(upsert_npmrc_line(&bare, "https://registry.npmjs.org", "tok\r"), bare);
}
