use neon_cli::install::{
    build_plan, execute_plan, format_plan, install_spec, is_installed, platform_from_os, summary,
    winget_lists_obsidian, confirmed, is_yes, lowered_lists_obsidian, App, AppAction, AppResult, InstallError, InstallSpec, Platform,
};

// A probe that pretends nothing is installed.
fn nothing_installed(_app: App, _platform: Platform) -> bool {
    false
}

// A probe that pretends everything is installed.
fn everything_installed(_app: App, _platform: Platform) -> bool {
    true
}

#[test]
fn parse_list_all_four() {
    let apps = App::parse_list("git,gh,docker,obsidian").unwrap();
    assert_eq!(apps, vec![App::Git, App::Gh, App::Docker, App::Obsidian]);
}

#[test]
fn parse_list_single() {
    let apps = App::parse_list("git").unwrap();
    assert_eq!(apps, vec![App::Git]);
}

#[test]
fn parse_list_rejects_unknown() {
    assert!(App::parse_list("git,unknown").is_err());
}

#[test]
fn parse_list_rejects_empty() {
    assert!(App::parse_list("").is_err());
}

#[test]
fn parse_list_ignores_trailing_comma() {
    let apps = App::parse_list("git,").unwrap();
    assert_eq!(apps, vec![App::Git]);
}

#[test]
fn dry_run_all_four_windows_shows_winget_commands() {
    let plan = build_plan(App::all(), Platform::Windows, nothing_installed);
    let output = format_plan(&plan, true);
    assert!(output.contains("dry run"), "should mention dry run");
    for app in App::all() {
        assert!(output.contains(app.name()), "output should mention app '{}'", app.name());
    }
    assert!(output.contains("winget"), "Windows plan should mention winget");
    assert!(!output.contains("skipped"), "nothing should be skipped");
}

#[test]
fn dry_run_git_only_skips_others() {
    let plan = build_plan(&[App::Git], Platform::Windows, nothing_installed);
    let output = format_plan(&plan, true);
    assert!(output.contains("git"), "should mention git");
    assert!(output.contains("~ gh: skipped"), "gh should be skipped; got:\n{output}");
    assert!(output.contains("~ docker: skipped"), "docker should be skipped");
    assert!(output.contains("~ obsidian: skipped"), "obsidian should be skipped");
}

#[test]
fn already_installed_apps_show_checkmark() {
    let plan = build_plan(App::all(), Platform::Windows, everything_installed);
    let output = format_plan(&plan, false);
    for app in App::all() {
        let expected = format!("\u{2713} {}: already installed", app.name());
        assert!(output.contains(&expected), "expected '{}' in output; got:\n{output}", expected);
    }
}

#[test]
fn macos_platform_shows_unsupported() {
    let plan = build_plan(App::all(), Platform::MacOs, nothing_installed);
    let output = format_plan(&plan, true);
    assert!(output.contains("not yet supported"), "macOS should report unsupported; got:\n{output}");
}

#[test]
fn install_spec_display_contains_program() {
    let spec = InstallSpec::new("winget", &["install", "--id", "Git.Git", "-e"]);
    let display = spec.display();
    assert!(display.starts_with("winget"));
    assert!(display.contains("Git.Git"));
}

#[test]
fn linux_plan_has_apt_or_bash() {
    let plan = build_plan(App::all(), Platform::Linux, nothing_installed);
    let output = format_plan(&plan, true);
    assert!(
        output.contains("apt-get") || output.contains("bash"),
        "Linux plan should mention apt-get or bash; got:\n{output}"
    );
}

#[test]
fn install_spec_display_joins_program_and_args() {
    let spec = InstallSpec::new("winget", &["install", "--id", "Git.Git", "-e"]);
    assert_eq!(spec.display(), "winget install --id Git.Git -e");
    let bare = InstallSpec::new("brew", &[]);
    assert_eq!(bare.display(), "brew");
}

#[test]
fn windows_git_uses_winget_exact_id() {
    let spec = install_spec(App::Git, Platform::Windows).unwrap();
    assert_eq!(
        spec.display(),
        "winget install --id Git.Git -e --accept-source-agreements --accept-package-agreements"
    );
    assert!(install_spec(App::Git, Platform::Unknown).is_none());
}

#[test]
fn parse_list_error_names_the_unknown_app() {
    let err = App::parse_list("git,unknown").unwrap_err();
    assert_eq!(err, InstallError::UnknownApp("unknown".to_string()));
    assert!(err.message().contains("unknown"));
    assert_eq!(App::parse_list("").unwrap_err(), InstallError::EmptyList);
}

#[test]
fn platform_maps_std_os_names() {
    assert_eq!(platform_from_os("windows"), Platform::Windows);
    assert_eq!(platform_from_os("linux"), Platform::Linux);
    assert_eq!(platform_from_os("macos"), Platform::MacOs);
    assert_eq!(platform_from_os("freebsd"), Platform::Unknown);
}

#[test]
fn plan_keeps_app_order_and_skips_unrequested() {
    let plan = build_plan(&[App::Docker], Platform::Linux, nothing_installed);
    let apps: Vec<App> = plan.items.iter().map(|i| i.app).collect();
    assert_eq!(apps, vec![App::Git, App::Gh, App::Docker, App::Obsidian]);
    assert!(matches!(plan.items[0].action, AppAction::Skipped));
    assert!(matches!(plan.items[2].action, AppAction::WillInstall(_)));
}

#[test]
fn summary_lists_installed_and_failed() {
    let results = vec![
        (App::Git, AppResult::Installed),
        (App::Gh, AppResult::Failed("exit 1".to_string())),
    ];
    let s = summary(&results);
    assert!(s.contains("git"));
    assert!(s.contains("gh"));
}

#[test]
fn winget_listing_detects_obsidian_case_insensitively() {
    assert!(winget_lists_obsidian("Name  Id\nObsidian  Obsidian.Obsidian\n"));
    assert!(!winget_lists_obsidian("No installed package found matching input criteria."));
}

#[test]
fn installed_check_uses_path_for_git_and_snap_then_flatpak_for_obsidian() {
    let on_path = |p: &str| p == "git";
    let status = |p: &str, _a: &[&str]| p == "flatpak";
    let output = |_p: &str, _a: &[&str]| -> Option<String> { None };
    assert!(is_installed(App::Git, Platform::Linux, &on_path, &status, &output));
    assert!(!is_installed(App::Gh, Platform::Linux, &on_path, &status, &output));
    assert!(is_installed(App::Obsidian, Platform::Linux, &on_path, &status, &output));
    assert!(!is_installed(App::Obsidian, Platform::MacOs, &on_path, &status, &output));
    assert!(!is_installed(App::Obsidian, Platform::Windows, &on_path, &status, &output));
}

#[test]
fn confirmation_accepts_y_and_yes_in_any_case() {
    assert!(confirmed("y\n"));
    assert!(confirmed("  YES \n"));
    assert!(confirmed("Yes"));
    assert!(!confirmed("\n"));
    assert!(!confirmed("no"));
    assert!(!confirmed("yess"));
    assert!(is_yes("y"));
    assert!(is_yes("yes"));
    assert!(!is_yes("Y"));
}

#[test]
fn obsidian_listing_is_case_insensitive() {
    assert!(winget_lists_obsidian("OBSIDIAN  Obsidian.Obsidian  1.5.3"));
    assert!(lowered_lists_obsidian("obsidian  obsidian.obsidian"));
    assert!(!lowered_lists_obsidian("OBSIDIAN"));
}

#[test]
fn execute_plan_runs_only_planned_installs() {
    let plan = build_plan(&[App::Git, App::Docker], Platform::Windows, nothing_installed);
    let fail_docker = |app: App, spec: &InstallSpec| {
        assert_eq!(spec.program, "winget");
        if app == App::Docker { Err("exit 1".to_string()) } else { Ok(()) }
    };
    let results = execute_plan(&plan, &fail_docker);
    assert_eq!(results.len(), 4);
    assert!(matches!(results[0], (App::Git, AppResult::Installed)));
    assert!(matches!(results[1], (App::Gh, AppResult::Skipped)));
    match &results[2] {
        (App::Docker, AppResult::Failed(m)) => assert_eq!(m, "exit 1"),
        other => panic!("unexpected {other:?}"),
    }
    assert!(matches!(results[3], (App::Obsidian, AppResult::Skipped)));
}

#[test]
fn app_names_read_back() {
    for app in App::all() {
        assert_eq!(App::parse_list(app.name()).unwrap(), vec![*app]);
    }
    assert_eq!(App::parse_list(" git , ,docker,git").unwrap(), vec![App::Git, App::Docker, App::Git]);
}
