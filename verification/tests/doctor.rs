use neon_cli::doctor::widgets::{
    sample_health, sample_identity, sample_tools, GitIdentityPane, RepoHealthPane, ToolingMissing,
    ToolingPane,
};
use neon_cli::doctor::{
    collect, first_line, format_plain, or_not_set, run, run_outcome_text, DiagData, GitIdentity,
    RepoHealth, RunOutcome, ToolInfo,
};

fn exited(success: bool, code: Option<i32>, stdout: &str, stderr: &str) -> RunOutcome {
    RunOutcome::Exited { success, code, stdout: stdout.to_string(), stderr: stderr.to_string() }
}

#[test]
fn first_line_takes_only_the_first_line() {
    assert_eq!(first_line("git version 2.43.0\nextra\nlines"), "git version 2.43.0");
    assert_eq!(first_line("single"), "single");
    assert_eq!(first_line(""), "");
}

#[test]
fn format_plain_renders_all_sections() {
    let data = DiagData {
        tools: vec![ToolInfo { name: "git".to_string(), version: "git version 2.43.0".to_string() }],
        identity: GitIdentity { user_name: "Ada".to_string(), user_email: "ada@example.com".to_string() },
        health: RepoHealth { branch: "main".to_string(), short_head: "abc1234".to_string(), dirty_count: 2 },
    };
    let report = format_plain(&data);
    assert!(report.contains("=== Tooling ==="));
    assert!(report.contains("git: git version 2.43.0"));
    assert!(report.contains("=== Git Identity ==="));
    assert!(report.contains("ada@example.com"));
    assert!(report.contains("=== Repo Health ==="));
    assert!(report.contains("branch:    main"));
    assert!(report.contains("dirty:     2 file(s)"));
}

#[test]
fn run_rustc_version_resolves_on_this_platform() {
    let exec = |p: &str, a: &[&str]| -> RunOutcome {
        if p == "rustc" && a == ["--version"] {
            exited(true, Some(0), "rustc 1.86.0 (05f9846f8 2025-03-31)\n", "")
        } else {
            RunOutcome::NotStarted
        }
    };
    let out = run("rustc", &["--version"], &exec);
    assert!(out.starts_with("rustc "), "expected 'rustc ...', got: {out}");
}

#[test]
fn probe_outcomes_map_to_text() {
    assert_eq!(run_outcome_text(&RunOutcome::NotStarted), "not found");
    assert_eq!(run_outcome_text(&exited(true, Some(0), "  v22.0.0\n", "")), "v22.0.0");
    assert_eq!(run_outcome_text(&exited(false, Some(9009), "", "'x' is not recognized")), "not found");
    assert_eq!(run_outcome_text(&exited(false, Some(1), "", "  ")), "not found");
    assert_eq!(run_outcome_text(&exited(false, Some(128), "", "fatal: not a git repository\n")), "error: fatal: not a git repository");
}

#[test]
fn or_not_set_hides_missing_values() {
    assert_eq!(or_not_set(String::new()), "(not set)");
    assert_eq!(or_not_set("not found".to_string()), "(not set)");
    assert_eq!(or_not_set("error: x".to_string()), "(not set)");
    assert_eq!(or_not_set("Ada".to_string()), "Ada");
}

#[test]
fn collect_reads_every_probe() {
    let exec = |p: &str, a: &[&str]| -> RunOutcome {
        match (p, a) {
            ("git", ["--version"]) => exited(true, Some(0), "git version 2.43.0\nextra\n", ""),
            ("git", ["config", "user.name"]) => exited(true, Some(0), "Ada\n", ""),
            ("git", ["config", "user.email"]) => exited(false, Some(1), "", ""),
            ("git", ["rev-parse", "--abbrev-ref", "HEAD"]) => exited(false, Some(128), "", "fatal: not a git repository"),
            ("git", ["rev-parse", "--short", "HEAD"]) => exited(true, Some(0), "abc1234\n", ""),
            ("git", ["status", "--porcelain"]) => exited(true, Some(0), " M a\n?? b\n", ""),
            _ => RunOutcome::NotStarted,
        }
    };
    let d = collect(&exec);
    let names: Vec<&str> = d.tools.iter().map(|t| t.name.as_str()).collect();
    assert_eq!(names, vec!["git", "rustc", "cargo", "node", "pnpm", "docker"]);
    assert_eq!(d.tools[0].version, "git version 2.43.0");
    assert_eq!(d.tools[1].version, "not found");
    assert_eq!(d.identity.user_name, "Ada");
    assert_eq!(d.identity.user_email, "(not set)");
    assert_eq!(d.health.branch, "(not a git repo)");
    assert_eq!(d.health.short_head, "abc1234");
    assert_eq!(d.health.dirty_count, 2);
}

#[test]
fn plain_report_is_exact() {
    let data = DiagData {
        tools: vec![ToolInfo { name: "rustc".to_string(), version: "rustc 1.86.0".to_string() }],
        identity: GitIdentity { user_name: "(not set)".to_string(), user_email: "(not set)".to_string() },
        health: RepoHealth { branch: "main".to_string(), short_head: "abc1234".to_string(), dirty_count: 0 },
    };
    assert_eq!(
        format_plain(&data),
        "=== Tooling ===\n   rustc: rustc 1.86.0\n\n=== Git Identity ===\n  name:  (not set)\n  email: (not set)\n\n=== Repo Health ===\n  branch:    main\n  HEAD:      abc1234\n  dirty:     0 file(s)\n"
    );
}

#[test]
fn pane_lines() {
    let tools = sample_tools();
    let pane = ToolingPane::new(&tools);
    assert_eq!(pane.title(), " Tooling ");
    assert_eq!(pane.lines()[0], "     git  git version 2.49.0");
    let id = sample_identity();
    assert_eq!(GitIdentityPane::new(&id).lines(), vec!["  name:   Ada Lovelace".to_string(), "  email:  ada@example.com".to_string()]);
    let h = sample_health();
    assert_eq!(RepoHealthPane::new(&h).lines()[2], "  dirty:   3 file(s)");
    let missing = ToolingMissing.tools();
    assert_eq!(missing[1].version, "not found");
    assert_eq!(ToolingMissing.info().1, "Missing tools");
}

#[test]
fn format_plain_matches_documented_example() {
    let tool = |name: &str, version: &str| ToolInfo { name: name.to_string(), version: version.to_string() };
    let data = DiagData {
        tools: vec![
            tool("git", "git version 2.47.0"),
            tool("rustc", "rustc 1.96.0"),
            tool("cargo", "cargo 1.96.0"),
            tool("node", "v22.14.0"),
            tool("pnpm", "9.15.0"),
            tool("docker", "Docker version 27.4.0"),
        ],
        identity: GitIdentity { user_name: "Ada Lovelace".to_string(), user_email: "ada@example.com".to_string() },
        health: RepoHealth { branch: "main".to_string(), short_head: "a1b2c3d".to_string(), dirty_count: 0 },
    };
    let expected = "=== Tooling ===\n     git: git version 2.47.0\n   rustc: rustc 1.96.0\n   cargo: cargo 1.96.0\n    node: v22.14.0\n    pnpm: 9.15.0\n  docker: Docker version 27.4.0\n\n=== Git Identity ===\n  name:  Ada Lovelace\n  email: ada@example.com\n\n=== Repo Health ===\n  branch:    main\n  HEAD:      a1b2c3d\n  dirty:     0 file(s)\n";
    assert_eq!(format_plain(&data), expected);
}
