use neon_cli::json::Json;
use neon_cli::setup::docker::{
    docker_auths_exec, docker_registries, run_login, run_logout, run_show, DockerError,
    DockerLoginArgs, DockerLogoutArgs, DockerOutcome,
};

fn obj(entries: Vec<(&str, Json)>) -> Json {
    Json::Object(entries.into_iter().map(|(k, v)| (k.to_string(), v)).collect())
}

#[test]
fn docker_config_parse_empty_auths() {
    let cfg = obj(vec![("auths", obj(vec![]))]);
    assert!(docker_auths_exec(Some(&cfg)).is_empty());
}

#[test]
fn docker_config_parse_with_registry() {
    let cfg = obj(vec![(
        "auths",
        obj(vec![("docker.io", obj(vec![("auth", Json::Str("dXNlcjpwYXNz".to_string()))]))]),
    )]);
    assert!(docker_auths_exec(Some(&cfg)).contains(&"docker.io".to_string()));
}

#[test]
fn docker_config_missing_auths_key_defaults_empty() {
    let cfg = obj(vec![("credsStore", Json::Str("desktop".to_string()))]);
    assert!(docker_auths_exec(Some(&cfg)).is_empty());
}

#[test]
fn unreadable_or_odd_configs_have_no_registries() {
    assert!(docker_auths_exec(None).is_empty());
    assert!(docker_auths_exec(Some(&Json::Null)).is_empty());
    let bad = obj(vec![("auths", Json::Array(vec![]))]);
    assert!(docker_auths_exec(Some(&bad)).is_empty());
}

#[test]
fn registries_are_sorted() {
    let cfg = obj(vec![(
        "auths",
        obj(vec![("ghcr.io", Json::Null), ("docker.io", Json::Null), ("Zeta", Json::Null)]),
    )]);
    assert_eq!(
        docker_registries(Some(&cfg)),
        vec!["Zeta".to_string(), "docker.io".to_string(), "ghcr.io".to_string()]
    );
}

#[test]
fn show_lists_registries_or_says_none() {
    let cfg = obj(vec![("auths", obj(vec![("ghcr.io", Json::Null), ("docker.io", Json::Null)]))]);
    assert_eq!(
        run_show("/h/.docker/config.json", Some(&cfg)),
        "Docker auth state (/h/.docker/config.json)\n  \u{2713} docker.io\n  \u{2713} ghcr.io\n"
    );
    assert_eq!(
        run_show("/h/.docker/config.json", None),
        "Docker auth state (/h/.docker/config.json)\n  (no registries logged in)\n"
    );
}

#[test]
fn login_needs_docker_on_path() {
    let args = DockerLoginArgs { registry: "docker.io".to_string(), username: None, dry_run: false };
    let absent = |_: &str| false;
    let run = |_: &str, _: &[&str]| true;
    assert!(matches!(run_login(&args, &absent, &run), Err(DockerError::LoginNotOnPath)));
    assert_eq!(DockerError::LoginNotOnPath.message(), "docker is not on PATH \u{2014} install Docker first");
}

#[test]
fn login_dry_run_lines() {
    let present = |_: &str| true;
    let run = |_: &str, _: &[&str]| -> bool { panic!("docker must not run in a dry run") };
    let with_user = DockerLoginArgs {
        registry: "ghcr.io".to_string(),
        username: Some("ada".to_string()),
        dry_run: true,
    };
    match run_login(&with_user, &present, &run) {
        Ok(DockerOutcome::DryRun(line)) => assert_eq!(line, "[dry-run] docker login --username ada ghcr.io"),
        _ => panic!("expected a dry-run line"),
    }
    let without = DockerLoginArgs { registry: "docker.io".to_string(), username: None, dry_run: true };
    match run_login(&without, &present, &run) {
        Ok(DockerOutcome::DryRun(line)) => {
            assert_eq!(line, "[dry-run] docker login docker.io (will prompt for credentials)")
        }
        _ => panic!("expected a dry-run line"),
    }
}

#[test]
fn login_runs_docker_with_the_arguments() {
    let present = |_: &str| true;
    let run = |p: &str, a: &[&str]| p == "docker" && a == ["login", "--username", "ada", "ghcr.io"];
    let args = DockerLoginArgs {
        registry: "ghcr.io".to_string(),
        username: Some("ada".to_string()),
        dry_run: false,
    };
    assert!(matches!(run_login(&args, &present, &run), Ok(DockerOutcome::Done)));
    let failing = |_: &str, _: &[&str]| false;
    assert!(matches!(run_login(&args, &present, &failing), Err(DockerError::LoginFailed)));
}

#[test]
fn logout_runs_or_reports() {
    let present = |_: &str| true;
    let run = |p: &str, a: &[&str]| p == "docker" && a == ["logout", "docker.io"];
    let args = DockerLogoutArgs { registry: "docker.io".to_string(), dry_run: false };
    assert!(matches!(run_logout(&args, &present, &run), Ok(DockerOutcome::Done)));
    let dry = DockerLogoutArgs { registry: "docker.io".to_string(), dry_run: true };
    match run_logout(&dry, &present, &run) {
        Ok(DockerOutcome::DryRun(line)) => assert_eq!(line, "[dry-run] docker logout docker.io"),
        _ => panic!("expected a dry-run line"),
    }
    let absent = |_: &str| false;
    assert!(matches!(run_logout(&args, &absent, &run), Err(DockerError::LogoutNotOnPath)));
}
