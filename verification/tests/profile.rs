use neon_cli::setup::profile::{
    has_marker, marker_block, profile_path_for, stub_for, stub_line, wire_step, wired_content,
    wiring_shell, ProfileError, WireStep, MARKER_END, MARKER_START, STUB_PS1, STUB_SH,
};

#[test]
fn marker_absent_returns_false() {
    assert!(!has_marker("# some comment\necho hello\n"));
}

#[test]
fn marker_present_returns_true() {
    let content = "# other stuff\n# neon:start\n. profile.ps1\n# neon:end\n";
    assert!(has_marker(content));
}

#[test]
fn empty_string_returns_false() {
    assert!(!has_marker(""));
}

#[test]
fn powershell7_path_uses_documents_powershell() {
    let path = profile_path_for("powershell7", "/fake/home").ok().unwrap();
    assert!(path.contains("Microsoft.PowerShell_profile.ps1"), "got: {path}");
    assert!(path.contains("PowerShell"), "got: {path}");
    let expected = std::path::Path::new("/fake/home")
        .join("Documents")
        .join("PowerShell")
        .join("Microsoft.PowerShell_profile.ps1");
    assert_eq!(std::path::PathBuf::from(path), expected);
}

#[test]
fn zsh_path_is_zshrc() {
    let path = profile_path_for("zsh", "/fake/home").ok().unwrap();
    assert_eq!(std::path::PathBuf::from(path), std::path::Path::new("/fake/home").join(".zshrc"));
}

#[test]
fn bash_path_is_bashrc() {
    let path = profile_path_for("bash", "/fake/home").ok().unwrap();
    assert_eq!(std::path::PathBuf::from(path), std::path::Path::new("/fake/home").join(".bashrc"));
}

#[test]
fn wsl_path_is_bashrc() {
    let path = profile_path_for("wsl", "/fake/home").ok().unwrap();
    assert_eq!(std::path::PathBuf::from(path), std::path::Path::new("/fake/home").join(".bashrc"));
}

#[test]
fn unknown_shell_returns_error() {
    let result = profile_path_for("fish", "/fake/home");
    assert!(result.is_err(), "expected error for unknown shell");
    let msg = match result {
        Err(e) => e.message(),
        Ok(_) => unreachable!(),
    };
    assert!(msg.contains("fish"), "error should mention the bad shell name");
}

#[test]
fn ps1_stub_contains_expected_comment() {
    assert!(STUB_PS1.contains("NeonOS managed profile"));
    assert!(STUB_PS1.contains("PowerShell profile"));
}

#[test]
fn sh_stub_contains_expected_comment() {
    assert!(STUB_SH.contains("NeonOS managed profile"));
    assert!(STUB_SH.contains("shell rc file"));
}

#[test]
fn powershell_marker_block_has_correct_source_line() {
    let block = marker_block("powershell7");
    assert!(block.contains(MARKER_START));
    assert!(block.contains(MARKER_END));
    assert!(block.contains("$env:USERPROFILE"));
    assert!(block.contains("profile.ps1"));
}

#[test]
fn zsh_marker_block_has_correct_source_line() {
    let block = marker_block("zsh");
    assert!(block.contains(MARKER_START));
    assert!(block.contains(MARKER_END));
    assert!(block.contains("$HOME"));
    assert!(block.contains("profile.sh"));
}

#[test]
fn bash_marker_block_matches_zsh() {
    assert_eq!(marker_block("bash"), marker_block("zsh"), "bash and zsh share the same source line");
}

#[test]
fn stub_for_powershell_returns_ps1_path() {
    let (path, content) = stub_for("powershell7", "C:/Users/test");
    assert!(path.ends_with("profile.ps1"));
    assert_eq!(content, STUB_PS1);
}

#[test]
fn stub_for_zsh_returns_sh_path() {
    let (path, content) = stub_for("zsh", "/home/test");
    assert!(path.ends_with("profile.sh"));
    assert_eq!(content, STUB_SH);
}

#[test]
fn marker_block_is_exact() {
    assert_eq!(
        marker_block("zsh"),
        "# neon:start\nsource \"$HOME/.config/neon/profile.sh\"\n# neon:end\n"
    );
    assert_eq!(
        marker_block("powershell7"),
        "# neon:start\n. \"$env:USERPROFILE\\.config\\neon\\profile.ps1\"\n# neon:end\n"
    );
}

#[test]
fn wiring_appends_after_a_blank_line() {
    assert_eq!(wired_content("", "B\n"), "B\n");
    assert_eq!(wired_content("x\n", "B\n"), "x\n\nB\n");
    assert_eq!(wired_content("x", "B\n"), "x\n\nB\n");
}

#[test]
fn wiring_twice_finds_the_marker() {
    let block = marker_block("zsh");
    let once = wired_content("alias ll='ls -l'", &block);
    match wire_step("/h/.zshrc", &once, "zsh", false) {
        WireStep::AlreadyWired(line) => assert_eq!(line, "[~] /h/.zshrc (already wired)"),
        _ => panic!("second run must find the file wired"),
    }
    match wire_step("/h/.zshrc", "alias ll='ls -l'", "zsh", false) {
        WireStep::Write { content, line } => {
            assert_eq!(content, once);
            assert_eq!(line, "[\u{2713}] /h/.zshrc (wired)");
        }
        _ => panic!("first run must write"),
    }
}

#[test]
fn dry_run_shows_the_block() {
    match wire_step("/h/.zshrc", "", "zsh", true) {
        WireStep::WouldWire(text) => {
            assert!(text.starts_with("[dry-run] [\u{2713}] /h/.zshrc (would append neon:start / neon:end block)\n[dry-run]     block content:\n"));
            assert!(text.ends_with("[dry-run]       # neon:end\n"));
        }
        _ => panic!("expected a dry-run plan"),
    }
}

#[test]
fn stub_lines_and_shell_choice() {
    assert_eq!(stub_line("/p", true, true), "[dry-run] [~] managed profile stub: /p (already exists)");
    assert_eq!(stub_line("/p", false, false), "[\u{2713}] managed profile stub: /p (created)");
    assert_eq!(wiring_shell(None, true).ok().unwrap(), "zsh");
    assert!(matches!(wiring_shell(None, false), Err(ProfileError::NoPreferredShell)));
    assert_eq!(wiring_shell(Some("bash".to_string()), false).ok().unwrap(), "bash");
}
