use neon_cli::install::Platform;
use neon_cli::setup::languages::{
    build_plan, default_probe, execute_plan, format_plan, install_steps, node_installed, LangAction,
    LangInstallSpec, LangResult, Language,
};

/// Probe that reports nothing installed.
fn nothing_installed(_lang: Language, _platform: Platform) -> bool {
    false
}

/// Probe that reports everything installed.
fn everything_installed(_lang: Language, _platform: Platform) -> bool {
    true
}

#[test]
fn skip_list_excludes_named_languages() {
    let skip = vec!["python".to_string(), "go".to_string()];
    let plan = build_plan(&skip, Platform::Windows, nothing_installed);
    for item in &plan.items {
        match item.language {
            Language::Python | Language::Go => {
                assert_eq!(item.action, LangAction::Skipped, "{} should be skipped", item.language.name());
            }
            Language::Node | Language::Rust => {
                assert!(!matches!(item.action, LangAction::Skipped), "{} should NOT be skipped", item.language.name());
            }
        }
    }
}

#[test]
fn skip_empty_list_installs_all() {
    let plan = build_plan(&[], Platform::Windows, nothing_installed);
    for item in &plan.items {
        assert!(!matches!(item.action, LangAction::Skipped), "{} should not be skipped", item.language.name());
    }
}

#[test]
fn dry_run_windows_shows_all_four_commands() {
    let plan = build_plan(&[], Platform::Windows, nothing_installed);
    let output = format_plan(&plan, true);
    assert!(output.contains("dry run"), "should mention dry run");
    for lang in Language::all() {
        assert!(output.contains(lang.name()), "output should mention language '{}'", lang.name());
    }
    assert!(output.contains("winget"), "Windows plan should mention winget; got:\n{output}");
    assert!(!output.contains("skipped"), "nothing should be skipped");
}

#[test]
fn dry_run_linux_shows_bash_and_apt() {
    let plan = build_plan(&[], Platform::Linux, nothing_installed);
    let output = format_plan(&plan, true);
    assert!(output.contains("bash") || output.contains("apt-get"), "got:\n{output}");
}

#[test]
fn dry_run_macos_shows_brew_and_bash() {
    let plan = build_plan(&[], Platform::MacOs, nothing_installed);
    let output = format_plan(&plan, true);
    assert!(output.contains("brew") || output.contains("bash"), "got:\n{output}");
}

#[test]
fn already_installed_shows_checkmark_no_colon() {
    let plan = build_plan(&[], Platform::Windows, everything_installed);
    let output = format_plan(&plan, false);
    for lang in Language::all() {
        let expected = format!("\u{2713} {} already installed", lang.name());
        assert!(output.contains(&expected), "expected '{}' in output; got:\n{output}", expected);
    }
    assert!(!output.contains('\u{2192}'), "no install arrows expected; got:\n{output}");
}

#[test]
fn node_install_has_multiple_steps_on_windows() {
    let plan = build_plan(&[], Platform::Windows, nothing_installed);
    let node_plan = plan.items.iter().find(|i| i.language == Language::Node).unwrap();
    if let LangAction::WillInstall(lp) = &node_plan.action {
        assert!(lp.steps.len() > 1, "got {}", lp.steps.len());
        assert_eq!(lp.steps[0].program, "winget");
        assert!(lp.steps[0].args.iter().any(|a| a.contains("NVMforWindows")));
    } else {
        panic!("expected WillInstall for node on Windows");
    }
}

#[test]
fn node_install_has_multiple_steps_on_linux() {
    let plan = build_plan(&[], Platform::Linux, nothing_installed);
    let node_plan = plan.items.iter().find(|i| i.language == Language::Node).unwrap();
    if let LangAction::WillInstall(lp) = &node_plan.action {
        assert!(lp.steps.len() > 1, "got {}", lp.steps.len());
    } else {
        panic!("expected WillInstall for node on Linux");
    }
}

#[test]
fn unknown_platform_marks_unsupported() {
    let plan = build_plan(&[], Platform::Unknown, nothing_installed);
    for item in &plan.items {
        assert_eq!(item.action, LangAction::PlatformUnsupported, "{}", item.language.name());
    }
}

#[test]
fn lang_install_spec_display_contains_program_and_args() {
    let spec = LangInstallSpec::new("winget", &["install", "--id", "GoLang.Go"]);
    let display = spec.display();
    assert!(display.starts_with("winget"));
    assert!(display.contains("GoLang.Go"));
}

#[test]
fn lang_install_spec_display_no_args() {
    let spec = LangInstallSpec::new("nvm", &[]);
    assert_eq!(spec.display(), "nvm");
}

#[test]
fn language_names_are_canonical() {
    assert_eq!(Language::Node.name(), "node");
    assert_eq!(Language::Python.name(), "python");
    assert_eq!(Language::Rust.name(), "rust");
    assert_eq!(Language::Go.name(), "go");
}

#[test]
fn unknown_platform_has_no_install_steps() {
    assert!(install_steps(Language::Go, Platform::Unknown).is_none());
    assert!(install_steps(Language::Go, Platform::Linux).is_some());
}

#[test]
fn python_probe_tries_python3_after_python_on_windows() {
    assert!(default_probe(Language::Python, Platform::Windows, |p: &str| p == "python3"));
    assert!(default_probe(Language::Python, Platform::Windows, |p: &str| p == "python"));
    assert!(!default_probe(Language::Python, Platform::Linux, |p: &str| p == "python"));
    assert!(default_probe(Language::Rust, Platform::Linux, |p: &str| p == "rustup"));
}

#[test]
fn node_installed_reads_the_results() {
    let results = vec![(Language::Node, LangResult::Installed)];
    assert!(node_installed(&results));
    let none: Vec<(Language, LangResult)> = vec![(Language::Go, LangResult::Installed)];
    assert!(!node_installed(&none));
}

#[test]
fn execute_plan_stops_at_the_first_failing_step() {
    let plan = build_plan(&["python".to_string(), "rust".to_string(), "go".to_string()], Platform::Linux, nothing_installed);
    let calls = std::cell::RefCell::new(Vec::new());
    let fail_second = |l: Language, i: usize, n: usize, _s: &LangInstallSpec| {
        calls.borrow_mut().push((l, i, n));
        if i == 1 { Err("step two failed".to_string()) } else { Ok(()) }
    };
    let results = execute_plan(&plan, &fail_second);
    assert_eq!(results.len(), 4);
    match &results[0] {
        (Language::Node, LangResult::Failed(m)) => assert_eq!(m, "step two failed"),
        other => panic!("unexpected {other:?}"),
    }
    assert!(matches!(results[1], (Language::Python, LangResult::Skipped)));
    let made = calls.borrow();
    assert_eq!(made.len(), 2);
    assert_eq!(made[0].0, Language::Node);
    assert_eq!((made[0].1, made[1].1), (0, 1));
    let all_ok = |_l: Language, _i: usize, _n: usize, _s: &LangInstallSpec| Ok(());
    let results = execute_plan(&plan, &all_ok);
    assert!(matches!(results[0], (Language::Node, LangResult::Installed)));
}

#[test]
fn node_takes_three_steps_everywhere() {
    for platform in [Platform::Windows, Platform::Linux, Platform::MacOs] {
        for lang in [Language::Node, Language::Python, Language::Rust, Language::Go] {
            let steps = install_steps(lang, platform).unwrap().steps;
            let expected = if lang == Language::Node { 3 } else { 1 };
            assert_eq!(steps.len(), expected, "{lang:?} on {platform:?}");
        }
    }
    let linux = install_steps(Language::Node, Platform::Linux).unwrap().steps;
    assert_eq!(linux[2].args, vec!["-c".to_string(), "source ~/.nvm/nvm.sh && nvm use --lts".to_string()]);
}
