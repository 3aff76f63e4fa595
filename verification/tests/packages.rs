use neon_cli::install::{InstallSpec, Platform};
use neon_cli::setup::packages::{
    build_plan, execute_plan, format_plan, install_spec, is_installed, normalize_skip, summary, Package, PkgAction, PkgResult,
};

fn nothing_installed(_pkg: Package, _platform: Platform) -> bool {
    false
}

fn everything_installed(_pkg: Package, _platform: Platform) -> bool {
    true
}

#[test]
fn package_names_are_correct() {
    assert_eq!(Package::Bat.name(), "bat");
    assert_eq!(Package::Eza.name(), "eza");
    assert_eq!(Package::OhMyPosh.name(), "oh-my-posh");
    assert_eq!(Package::OhMyZsh.name(), "oh-my-zsh");
    assert_eq!(Package::PoshGit.name(), "posh-git");
    assert_eq!(Package::GitDelta.name(), "git-delta");
    assert_eq!(Package::Ripgrep.name(), "ripgrep");
    assert_eq!(Package::Fd.name(), "fd");
    assert_eq!(Package::Lazygit.name(), "lazygit");
    assert_eq!(Package::Fzf.name(), "fzf");
    assert_eq!(Package::Zoxide.name(), "zoxide");
    assert_eq!(Package::Zsh.name(), "zsh");
}

#[test]
fn windows_plan_uses_winget_for_most_tools() {
    let plan = build_plan(&[], Platform::Windows, nothing_installed);
    let output = format_plan(&plan, true);
    assert!(output.contains("winget"), "Windows plan should use winget");
    assert!(output.contains("powershell"), "Windows plan should use powershell for posh-git");
}

#[test]
fn windows_zsh_and_ohmyzsh_are_not_applicable() {
    let plan = build_plan(&[], Platform::Windows, nothing_installed);
    let output = format_plan(&plan, true);
    assert!(output.contains("not applicable"), "got:\n{output}");
}

#[test]
fn windows_zsh_not_applicable_even_when_present_on_path() {
    let plan = build_plan(&[], Platform::Windows, everything_installed);
    let zsh_item = plan.items.iter().find(|i| i.pkg == Package::Zsh).expect("Zsh in plan");
    assert_eq!(zsh_item.action, PkgAction::NotApplicable);
}

#[test]
fn linux_plan_uses_apt_and_curl() {
    let plan = build_plan(&[], Platform::Linux, nothing_installed);
    let output = format_plan(&plan, true);
    assert!(output.contains("apt-get") || output.contains("curl"), "got:\n{output}");
}

#[test]
fn linux_posh_git_is_not_applicable() {
    let plan = build_plan(&[], Platform::Linux, nothing_installed);
    let posh_item = plan.items.iter().find(|i| i.pkg == Package::PoshGit).expect("PoshGit in plan");
    assert_eq!(posh_item.action, PkgAction::NotApplicable);
}

#[test]
fn macos_plan_uses_brew() {
    let plan = build_plan(&[], Platform::MacOs, nothing_installed);
    let output = format_plan(&plan, true);
    assert!(output.contains("brew"), "macOS plan should use brew");
}

#[test]
fn macos_posh_git_is_not_applicable() {
    let plan = build_plan(&[], Platform::MacOs, nothing_installed);
    let posh_item = plan.items.iter().find(|i| i.pkg == Package::PoshGit).expect("PoshGit in plan");
    assert_eq!(posh_item.action, PkgAction::NotApplicable);
}

#[test]
fn skip_list_skips_named_packages() {
    let skip = vec!["bat".to_string(), "fzf".to_string()];
    let plan = build_plan(&skip, Platform::Windows, nothing_installed);
    let bat_item = plan.items.iter().find(|i| i.pkg == Package::Bat).expect("Bat in plan");
    let fzf_item = plan.items.iter().find(|i| i.pkg == Package::Fzf).expect("Fzf in plan");
    let rg_item = plan.items.iter().find(|i| i.pkg == Package::Ripgrep).expect("Ripgrep in plan");
    assert_eq!(bat_item.action, PkgAction::Skipped, "bat should be skipped");
    assert_eq!(fzf_item.action, PkgAction::Skipped, "fzf should be skipped");
    assert!(matches!(rg_item.action, PkgAction::WillInstall(_)));
}

#[test]
fn unknown_skip_name_is_ignored() {
    let skip = vec!["nonexistent-tool".to_string()];
    let plan = build_plan(&skip, Platform::Linux, nothing_installed);
    let zsh_item = plan.items.iter().find(|i| i.pkg == Package::Zsh).expect("Zsh in plan");
    assert!(matches!(zsh_item.action, PkgAction::WillInstall(_)));
}

#[test]
fn dry_run_mentions_dry_run_and_would_run() {
    let plan = build_plan(&[], Platform::Linux, nothing_installed);
    let output = format_plan(&plan, true);
    assert!(output.contains("dry run"), "dry-run output should say 'dry run'");
    assert!(output.contains("would run"), "dry-run output should say 'would run'");
}

#[test]
fn dry_run_shows_commands_for_linux_packages() {
    let plan = build_plan(&[], Platform::Linux, nothing_installed);
    let output = format_plan(&plan, true);
    assert!(output.contains("apt-get"), "got:\n{output}");
    assert!(output.contains("curl"), "got:\n{output}");
}

#[test]
fn already_installed_packages_show_checkmark() {
    let plan = build_plan(&[], Platform::Windows, everything_installed);
    let output = format_plan(&plan, false);
    assert!(output.contains("already installed"), "got:\n{output}");
}

#[test]
fn windows_winget_ids_are_correct() {
    let bat_spec = install_spec(Package::Bat, Platform::Windows).expect("bat has Windows spec");
    assert!(bat_spec.display().contains("sharkdp.bat"), "got: {}", bat_spec.display());
    let rg_spec =
        install_spec(Package::Ripgrep, Platform::Windows).expect("ripgrep has Windows spec");
    assert!(rg_spec.display().contains("BurntSushi.ripgrep.MSVC"), "got: {}", rg_spec.display());
    let delta_spec =
        install_spec(Package::GitDelta, Platform::Windows).expect("git-delta has Windows spec");
    assert!(delta_spec.display().contains("dandavison.delta"), "got: {}", delta_spec.display());
}

#[test]
fn every_package_is_planned_in_canonical_order() {
    let plan = build_plan(&[], Platform::Linux, nothing_installed);
    let pkgs: Vec<Package> = plan.items.iter().map(|i| i.pkg).collect();
    assert_eq!(pkgs, Package::all().to_vec());
}

#[test]
fn skip_names_match_case_insensitively_after_trim() {
    let skip = normalize_skip(&vec!["  BAT ".to_string(), "   ".to_string()]);
    assert_eq!(skip, vec!["bat".to_string()]);
    let plan = build_plan(&skip, Platform::Linux, nothing_installed);
    let bat_item = plan.items.iter().find(|i| i.pkg == Package::Bat).expect("Bat in plan");
    assert_eq!(bat_item.action, PkgAction::Skipped);
}

#[test]
fn package_summary_counts_outcomes() {
    let results = vec![
        (Package::Bat, PkgResult::Installed),
        (Package::Fzf, PkgResult::AlreadyInstalled),
    ];
    let s = summary(&results);
    assert!(s.contains("bat"), "got:\n{s}");
}

#[test]
fn installed_probe_falls_back_to_renamed_binaries() {
    let only_batcat = |name: &str| name == "batcat";
    let no_dir = |_rel: &str| false;
    let fails = |_p: &str, _a: &[&str]| false;
    assert!(is_installed(Package::Bat, Platform::Linux, &only_batcat, &no_dir, &fails));
    assert!(!is_installed(Package::Fd, Platform::Linux, &only_batcat, &no_dir, &fails));
    let only_fdfind = |name: &str| name == "fdfind";
    assert!(is_installed(Package::Fd, Platform::Linux, &only_fdfind, &no_dir, &fails));
    let only_delta = |name: &str| name == "delta";
    assert!(is_installed(Package::GitDelta, Platform::Linux, &only_delta, &no_dir, &fails));
    assert!(!is_installed(Package::Ripgrep, Platform::Linux, &only_delta, &no_dir, &fails));
}

#[test]
fn installed_probe_for_oh_my_zsh_and_posh_git() {
    let nothing = |_name: &str| false;
    let omz_dir = |rel: &str| rel == ".oh-my-zsh";
    let no_dir = |_rel: &str| false;
    let module_listed = |p: &str, a: &[&str]| p == "powershell" && a.len() == 4 && a[3].contains("posh-git");
    assert!(is_installed(Package::OhMyZsh, Platform::Linux, &nothing, &omz_dir, &module_listed));
    assert!(!is_installed(Package::OhMyZsh, Platform::Linux, &nothing, &no_dir, &module_listed));
    assert!(is_installed(Package::PoshGit, Platform::Windows, &nothing, &no_dir, &module_listed));
    assert!(!is_installed(Package::PoshGit, Platform::Linux, &nothing, &no_dir, &module_listed));
}

#[test]
fn execute_plan_reports_each_package() {
    let plan = build_plan(&["fzf".to_string()], Platform::Windows, nothing_installed);
    let fail_bat = |p: Package, _s: &InstallSpec| if p == Package::Bat { Err("no winget".to_string()) } else { Ok(()) };
    let results = execute_plan(&plan, &fail_bat);
    assert_eq!(results.len(), 12);
    assert!(matches!(results[0], (Package::Zsh, PkgResult::NotApplicable)));
    assert!(matches!(results[5], (Package::Fzf, PkgResult::Skipped)));
    match &results[6] {
        (Package::Bat, PkgResult::Failed(m)) => assert_eq!(m, "no winget"),
        other => panic!("unexpected {other:?}"),
    }
    assert!(matches!(results[4], (Package::Lazygit, PkgResult::Installed)));
}
