use neon_cli::setup::diagnostics::{
    format_diagnostics, gather_diagnostics, git_config_value, identity_text, npm_token_status,
    npm_token_summary, redact_token, DiagnosticsData, NpmrcState,
};
use neon_cli::setup::ToolPresence;

#[test]
fn redact_short_token() {
    assert_eq!(redact_token("abc"), "****");
}

#[test]
fn redact_long_token() {
    let result = redact_token("abcdefgh");
    assert!(result.starts_with("****"));
    assert!(result.ends_with("efgh"));
}

#[test]
fn redact_exactly_four_chars() {
    assert_eq!(redact_token("abcd"), "****");
}

#[test]
fn redact_counts_characters_not_bytes() {
    assert_eq!(redact_token("ééééé"), "****éééé");
}

#[test]
fn npm_summary_redacts_each_auth_line() {
    let text = "registry=https://x\n//registry.npmjs.org/:_authToken= secret1234\n//npm.pkg.github.com/:_authToken=ghp_abcdefgh\n";
    assert_eq!(
        npm_token_summary(text),
        "//registry.npmjs.org/:_authToken=****1234, //npm.pkg.github.com/:_authToken=****efgh"
    );
    assert_eq!(npm_token_summary("registry=https://x\n"), "(no :_authToken entries in ~/.npmrc)");
}

#[test]
fn npm_status_for_each_file_state() {
    assert_eq!(npm_token_status(&NpmrcState::HomeUnknown), "(home dir unknown)");
    assert_eq!(npm_token_status(&NpmrcState::Missing), "(~/.npmrc not found)");
    assert_eq!(npm_token_status(&NpmrcState::Unreadable), "(could not read ~/.npmrc)");
    assert_eq!(
        npm_token_status(&NpmrcState::Text("//r/:_authToken=ab".to_string())),
        "//r/:_authToken=****"
    );
}

#[test]
fn identity_text_covers_every_combination() {
    let n = Some("Ada".to_string());
    let e = Some("ada@example.com".to_string());
    assert_eq!(identity_text(&n, &e, "(not set)"), "Ada <ada@example.com>");
    assert_eq!(identity_text(&n, &None, "(not set)"), "Ada <email not set>");
    assert_eq!(identity_text(&None, &e, "(not set)"), "<name not set> ada@example.com");
    assert_eq!(identity_text(&None, &None, "(not set)"), "(not set)");
}

#[test]
fn git_config_value_trims_and_drops_empty() {
    assert_eq!(git_config_value(true, "  Ada \n"), Some("Ada".to_string()));
    assert_eq!(git_config_value(true, " \n"), None);
    assert_eq!(git_config_value(false, "Ada"), None);
}

#[test]
fn diagnostics_report_has_every_section() {
    let data = DiagnosticsData {
        local_name: None,
        local_email: None,
        global_name: Some("Ada".to_string()),
        global_email: Some("ada@example.com".to_string()),
        registries: vec!["docker.io".to_string()],
        npm_token: "(~/.npmrc not found)".to_string(),
        runtimes: vec![
            ToolPresence { name: "node".to_string(), found: true, version: Some("v22.0.0".to_string()) },
            ToolPresence { name: "npm".to_string(), found: true, version: None },
            ToolPresence { name: "pnpm".to_string(), found: false, version: None },
        ],
        shells: vec![],
    };
    let out = format_diagnostics(&data);
    assert!(out.starts_with("=== neon setup diagnostics ===\n"));
    assert!(out.contains("    local:   (not set \u{2014} not in a git repo or no local identity)\n"));
    assert!(out.contains("    global:  Ada <ada@example.com>\n"));
    assert!(out.contains("    \u{2713} docker.io\n"));
    assert!(out.contains("    \u{2713} node     v22.0.0\n"));
    assert!(out.contains("    \u{2713} npm      ?\n"));
    assert!(out.contains("    \u{2717} pnpm     \u{2014}\n"));
    assert!(out.ends_with("  Shells:\n    (no recognized shell found)\n"));
}

#[test]
fn gathering_asks_git_and_probes() {
    let git = |scope: &str, key: &str| -> Option<String> {
        if scope == "--global" && key == "user.name" { Some("Ada".to_string()) } else { None }
    };
    let on_path = |p: &str| p == "bash" || p == "node";
    let probe = |p: &str, _a: &[&str]| -> Option<String> { Some(format!("{p} 1.0")) };
    let data = gather_diagnostics(&git, vec![], &NpmrcState::Missing, &on_path, &probe);
    assert_eq!(data.global_name, Some("Ada".to_string()));
    assert_eq!(data.local_name, None);
    assert_eq!(data.shells, vec!["bash (bash 1.0)".to_string()]);
    assert!(data.runtimes[0].found);
    assert!(!data.runtimes[2].found);
}
