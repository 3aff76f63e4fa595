use neon_cli::install::Platform;
use neon_cli::setup::{
    apply_shell_choice, apply_terminal_choice, agent_config_candidates, copy_line, copy_step,
    banner_names_wsl, detect_with, first_existing, format_report, is_wsl_kernel, junction_line, junction_step,
    os_info, resolve_agent_config, shell_dry_run_line, shell_from_label, step_line,
    validate_shell_choice, validate_terminal_choice, version_line, CapabilityReport,
    local_config_step, sync_step, ConfigResolution, CopyStep, JunctionStep, LocalConfigStep, OsInfo,
    OsKind, PickError, SetupConfig, SyncStep,
    ShellChoice, TerminalChoice, ToolPresence, LOCAL_CONFIG_TEMPLATE,
};

#[test]
fn capability_report_has_os() {
    let os = os_info(OsKind::Linux, Some("Linux version 6.1"));
    assert_ne!(os.kind, OsKind::Unknown, "OS kind should be detected, not Unknown");
}

#[test]
fn print_report_contains_headers() {
    let report = CapabilityReport {
        os: OsInfo { kind: OsKind::Linux, is_wsl: false },
        arch: "x86_64".to_string(),
        package_managers: vec![],
        shells: vec![],
        tools: vec![],
    };
    let output = format_report(&report);
    assert!(output.contains("OS:"), "output should contain 'OS:'");
    assert!(output.contains("Shells:"), "output should contain 'Shells:'");
    assert!(output.contains("Tools:"), "output should contain 'Tools:'");
}

#[test]
fn local_config_template_contains_placeholders() {
    let expected_keys = [
        "PLANNING_VAULT_ROOT",
        "WIKI_ROOT",
        "ISSUE_TRACKER",
        "LINEAR_TEAM",
        "LINEAR_PROJECT",
        "HANDOFF_TARGET",
        "LOCAL_SKILLS_HOME",
    ];
    for key in expected_keys {
        assert!(LOCAL_CONFIG_TEMPLATE.contains(key), "LOCAL_CONFIG_TEMPLATE missing key: {key}");
    }
}

#[test]
fn shell_choice_canonical_strings() {
    assert_eq!(ShellChoice::Powershell7.as_str(), "powershell7");
    assert_eq!(ShellChoice::Wsl.as_str(), "wsl");
    assert_eq!(ShellChoice::Zsh.as_str(), "zsh");
    assert_eq!(ShellChoice::Bash.as_str(), "bash");
}

#[test]
fn terminal_choice_canonical_strings() {
    assert_eq!(TerminalChoice::WindowsTerminal.as_str(), "windows-terminal");
    assert_eq!(TerminalChoice::Iterm2.as_str(), "iterm2");
    assert_eq!(TerminalChoice::GnomeTerminal.as_str(), "gnome-terminal");
}

#[test]
fn apply_shell_choice_sets_shell_section() {
    let cfg = SetupConfig::default();
    let (updated, canonical) = apply_shell_choice(cfg, ShellChoice::Powershell7);
    assert_eq!(canonical, "powershell7");
    assert_eq!(updated.shell.as_ref().unwrap().preferred, "powershell7");
    assert!(updated.terminal.is_none());
}

#[test]
fn apply_terminal_choice_sets_terminal_section() {
    let cfg = SetupConfig::default();
    let (updated, canonical) = apply_terminal_choice(cfg, TerminalChoice::WindowsTerminal);
    assert_eq!(canonical, "windows-terminal");
    assert_eq!(updated.terminal.as_ref().unwrap().preferred, "windows-terminal");
    assert!(updated.shell.is_none());
}

#[test]
fn both_sections_survive_sequential_updates() {
    let cfg = SetupConfig::default();
    let (after_shell, _) = apply_shell_choice(cfg, ShellChoice::Zsh);
    let (after_terminal, _) = apply_terminal_choice(after_shell, TerminalChoice::Iterm2);
    assert_eq!(after_terminal.shell.as_ref().unwrap().preferred, "zsh");
    assert_eq!(after_terminal.terminal.as_ref().unwrap().preferred, "iterm2");
}

#[test]
fn both_sections_survive_reverse_order() {
    let cfg = SetupConfig::default();
    let (after_terminal, _) = apply_terminal_choice(cfg, TerminalChoice::WindowsTerminal);
    let (after_shell, _) = apply_shell_choice(after_terminal, ShellChoice::Powershell7);
    assert_eq!(after_shell.terminal.as_ref().unwrap().preferred, "windows-terminal");
    assert_eq!(after_shell.shell.as_ref().unwrap().preferred, "powershell7");
}

#[test]
fn unknown_tables_are_carried_through_a_choice() {
    let mut cfg = SetupConfig::default();
    cfg.extra.insert("experimental".to_string(), toml::Value::Boolean(true));
    let (updated, _) = apply_shell_choice(cfg, ShellChoice::Bash);
    assert_eq!(updated.extra.get("experimental"), Some(&toml::Value::Boolean(true)));
}

#[test]
fn wsl_is_recognised_from_proc_version() {
    assert!(is_wsl_kernel("Linux version 5.15.90.1-microsoft-standard-WSL2"));
    assert!(!is_wsl_kernel("Linux version 6.1.0-18-amd64 (debian-kernel@lists.debian.org)"));
    assert!(os_info(OsKind::Linux, Some("MICROSOFT")).is_wsl);
    assert!(!os_info(OsKind::Windows, Some("microsoft")).is_wsl);
    assert!(!os_info(OsKind::Linux, None).is_wsl);
}

#[test]
fn report_lines_are_exact() {
    let report = CapabilityReport {
        os: OsInfo { kind: OsKind::MacOs, is_wsl: false },
        arch: "aarch64".to_string(),
        package_managers: vec!["brew".to_string()],
        shells: vec![],
        tools: vec![
            ToolPresence { name: "git".to_string(), found: true, version: Some("git version 2.43.0".to_string()) },
            ToolPresence { name: "gh".to_string(), found: false, version: None },
        ],
    };
    assert_eq!(
        format_report(&report),
        "=== neon setup detect ===\n\n  OS:       macOS (not WSL)\n  Arch:     aarch64\n\n  Package managers:\n    \u{2713} brew\n\n  Shells:\n    (none detected)\n\n  Tools:\n    \u{2713} git        git version 2.43.0\n    \u{2717} gh         \u{2014}\n"
    );
}

#[test]
fn detection_keeps_candidates_found_in_order() {
    let on_path = |p: &str| p == "apt" || p == "brew" || p == "zsh" || p == "git";
    let probe = |p: &str, _a: &[&str]| -> Option<String> { Some(format!("{p} 1")) };
    let os = OsInfo { kind: OsKind::Linux, is_wsl: false };
    let r = detect_with(os, "x86_64".to_string(), &on_path, &probe);
    assert_eq!(r.package_managers, vec!["apt".to_string(), "brew".to_string()]);
    assert_eq!(r.shells, vec!["zsh".to_string()]);
    assert_eq!(r.tools.len(), 10);
    assert!(r.tools[0].found && r.tools[0].version == Some("git 1".to_string()));
    assert!(!r.tools[1].found && r.tools[1].version.is_none());
}

#[test]
fn version_line_prefers_stdout_then_stderr() {
    assert_eq!(version_line("  git version 2.43.0\nmore\n", ""), Some("git version 2.43.0".to_string()));
    assert_eq!(version_line("  \n", "Python 2.7.18\n"), Some("Python 2.7.18".to_string()));
    assert_eq!(version_line("", "  "), None);
}

#[test]
fn agent_progress_lines() {
    assert_eq!(step_line(true, "~", "AGENTS.md", "skipped (already exists)"), "[dry-run] [~] AGENTS.md: skipped (already exists)");
    assert_eq!(copy_step(false, false, false), CopyStep::NoSource);
    assert_eq!(copy_step(true, true, false), CopyStep::AlreadyExists);
    assert_eq!(copy_step(true, false, true), CopyStep::WouldCopy);
    assert_eq!(copy_line(CopyStep::Copy, "settings.json", false), "[\u{2713}] settings.json: copied");
    assert_eq!(junction_step(true, false, false), JunctionStep::Occupied);
    assert_eq!(junction_step(false, false, true), JunctionStep::WouldCreate);
    assert_eq!(
        junction_line(JunctionStep::WouldCreate, "skills junction", "/h/.agent/skills", "/c/skills", true),
        "[dry-run] [\u{2713}] skills junction: /h/.agent/skills \u{2192} /c/skills  (would create)"
    );
}

#[test]
fn agent_config_resolution() {
    match resolve_agent_config(None, false, Some("/h/agent-config".to_string()), false) {
        ConfigResolution::Use { path, note } => {
            assert_eq!(path, "/h/agent-config");
            assert_eq!(note.unwrap(), "  Found agent-config at: /h/agent-config");
        }
        _ => panic!("expected Use"),
    }
    match resolve_agent_config(None, false, None, true) {
        ConfigResolution::Stop(t) => {
            assert!(t.starts_with("[dry-run] [!] agent-config: not found\n"));
            assert!(t.contains("[dry-run]       ~/.agent-config\n"));
        }
        _ => panic!("expected Stop"),
    }
    match resolve_agent_config(Some("/nope".to_string()), false, None, false) {
        ConfigResolution::Fail(m) => assert!(m.starts_with("agent-config path \"/nope\" is not an existing directory.")),
        _ => panic!("expected Fail"),
    }
    assert_eq!(agent_config_candidates().len(), 3);
    assert_eq!(first_existing(&[false, true, true]), Some(1));
    assert_eq!(first_existing(&[false, false]), None);
}

#[test]
fn pick_validation_follows_the_platform() {
    assert!(validate_shell_choice(ShellChoice::Zsh, Platform::Linux).is_ok());
    assert_eq!(
        validate_shell_choice(ShellChoice::Wsl, Platform::MacOs),
        Err(PickError::UnsupportedShell(ShellChoice::Wsl))
    );
    assert_eq!(
        PickError::UnsupportedShell(ShellChoice::Wsl).message(),
        "shell 'wsl' is not supported on this platform"
    );
    assert!(validate_terminal_choice(TerminalChoice::Iterm2, Platform::MacOs).is_ok());
    assert!(validate_terminal_choice(TerminalChoice::Iterm2, Platform::Linux).is_err());
    assert_eq!(shell_from_label(Platform::Windows, "PowerShell 7"), Some(ShellChoice::Powershell7));
    assert_eq!(shell_from_label(Platform::Linux, "PowerShell 7"), None);
    assert_eq!(shell_dry_run_line(ShellChoice::Zsh), "dry-run: would set shell to zsh (zsh)");
}

#[test]
fn agent_dry_run_changes_nothing() {
    for exists in [false, true] {
        for linked in [false, true] {
            assert_ne!(junction_step(exists, linked, true), JunctionStep::Create);
            assert_ne!(copy_step(exists, linked, true), CopyStep::Copy);
        }
        assert_ne!(local_config_step(exists, true), LocalConfigStep::Create);
        assert_ne!(sync_step(Platform::Windows, exists, true), SyncStep::Run);
    }
    assert_eq!(junction_step(false, false, true), JunctionStep::WouldCreate);
    assert_eq!(sync_step(Platform::Windows, true, false), SyncStep::Run);
    assert_eq!(sync_step(Platform::Linux, true, false), SyncStep::NotWindows);
}

#[test]
fn agent_second_run_keeps_everything() {
    assert_eq!(junction_step(true, true, false), JunctionStep::AlreadyLinked);
    assert_eq!(junction_step(true, false, false), JunctionStep::Occupied);
    assert_eq!(copy_step(true, true, false), CopyStep::AlreadyExists);
    assert_eq!(local_config_step(true, false), LocalConfigStep::Keep);
}

#[test]
fn wsl_banner_is_case_insensitive() {
    assert!(is_wsl_kernel("Linux version 5.10.16.3-MICROSOFT-standard"));
    assert!(is_wsl_kernel("Linux version 4.4.0-19041-Wsl"));
    assert!(banner_names_wsl("linux version 5.15 microsoft"));
    assert!(!banner_names_wsl("Linux version 5.15 MICROSOFT"));
}
