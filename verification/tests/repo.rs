use neon_cli::repo::{
    format_plan, plan, validate, Languages, License, Merge, Publish, RepoProfile, Topology,
    Visibility,
};

fn plan_labels(profile: &RepoProfile) -> Vec<String> {
    plan(profile).into_iter().map(|i| i.label).collect()
}

#[test]
fn default_profile_is_canonical_oss_solo_both() {
    let p = RepoProfile::default();
    assert_eq!(p.topology, Topology::Solo);
    assert_eq!(p.visibility, Visibility::Public);
    assert_eq!(p.publish, Publish::NoPublish);
    assert_eq!(p.merge, Merge::Library);
    assert_eq!(p.languages, Languages::Both);
    assert_eq!(p.license, License::Mit);
}

#[test]
fn both_languages_includes_rust_and_ts_entries() {
    let profile = RepoProfile {
        languages: Languages::Both,
        ..RepoProfile::default()
    };
    let labels = plan_labels(&profile);
    assert!(labels.iter().any(|l| l.contains("Cargo.toml")), "got: {labels:?}");
    assert!(labels.iter().any(|l| l.contains("rust.yml")), "got: {labels:?}");
    assert!(labels.iter().any(|l| l.contains("package.json")), "got: {labels:?}");
    assert!(labels.iter().any(|l| l.contains("turbo.json")), "got: {labels:?}");
    assert!(labels.iter().any(|l| l.contains("typescript.yml")), "got: {labels:?}");
}

#[test]
fn ts_only_omits_rust_entries() {
    let profile = RepoProfile {
        languages: Languages::Ts,
        ..RepoProfile::default()
    };
    let labels = plan_labels(&profile);
    assert!(!labels.iter().any(|l| l.contains("Cargo.toml")), "got: {labels:?}");
    assert!(!labels.iter().any(|l| l.contains("rust.yml")), "got: {labels:?}");
    assert!(!labels.iter().any(|l| l.contains("rust-toolchain")), "got: {labels:?}");
    assert!(labels.iter().any(|l| l.contains("package.json")), "got: {labels:?}");
    assert!(labels.iter().any(|l| l.contains("typescript.yml")), "got: {labels:?}");
}

#[test]
fn rust_only_omits_ts_entries() {
    let profile = RepoProfile {
        languages: Languages::Rust,
        ..RepoProfile::default()
    };
    let labels = plan_labels(&profile);
    assert!(!labels.iter().any(|l| l.contains("package.json")), "got: {labels:?}");
    assert!(!labels.iter().any(|l| l.contains("turbo.json")), "got: {labels:?}");
    assert!(!labels.iter().any(|l| l.contains("typescript.yml")), "got: {labels:?}");
    assert!(!labels.iter().any(|l| l.contains("pnpm")), "got: {labels:?}");
    assert!(labels.iter().any(|l| l.contains("Cargo.toml")), "got: {labels:?}");
    assert!(labels.iter().any(|l| l.contains("rust.yml")), "got: {labels:?}");
}

#[test]
fn publish_none_omits_release_workflow() {
    let profile = RepoProfile {
        publish: Publish::NoPublish,
        ..RepoProfile::default()
    };
    let labels = plan_labels(&profile);
    assert!(!labels.iter().any(|l| l.contains("release.yml")), "got: {labels:?}");
    assert!(!labels.iter().any(|l| l.contains(".changeset")), "got: {labels:?}");
}

#[test]
fn publish_changesets_includes_release_workflow() {
    let profile = RepoProfile {
        publish: Publish::Changesets,
        ..RepoProfile::default()
    };
    let labels = plan_labels(&profile);
    assert!(labels.iter().any(|l| l.contains(".changeset/config.json")), "got: {labels:?}");
    assert!(labels.iter().any(|l| l.contains("release.yml")), "got: {labels:?}");
}

#[test]
fn validate_rejects_rust_only_with_publish() {
    let profile = RepoProfile {
        languages: Languages::Rust,
        publish: Publish::NpmNow,
        ..RepoProfile::default()
    };
    assert!(validate(&profile).is_err(), "rust-only + publish should be rejected");
}

#[test]
fn validate_allows_rust_only_without_publish() {
    let profile = RepoProfile {
        languages: Languages::Rust,
        publish: Publish::NoPublish,
        ..RepoProfile::default()
    };
    assert!(validate(&profile).is_ok());
}

#[test]
fn validate_allows_publish_with_ts_or_both() {
    for languages in [Languages::Ts, Languages::Both] {
        let profile = RepoProfile {
            languages,
            publish: Publish::NpmNow,
            ..RepoProfile::default()
        };
        assert!(validate(&profile).is_ok(), "publish should be allowed for {languages:?}");
    }
}

#[test]
fn format_plan_contains_profile_summary_and_items() {
    let profile = RepoProfile::default();
    let output = format_plan(&profile, None);
    assert!(output.contains("=== neon repo init"));
    assert!(output.contains("=== Profile ==="));
    assert!(output.contains("=== Would generate ==="));
    assert!(output.contains("would create:"));
    assert!(output.contains("No files were written (dry-run)."));
    assert!(output.contains("target:     ."));
}

#[test]
fn bare_omits_workspace_files() {
    let profile = RepoProfile {
        languages: Languages::Bare,
        ..RepoProfile::default()
    };
    let labels = plan_labels(&profile);
    assert!(!labels.iter().any(|l| l.contains("package.json")), "got: {labels:?}");
    assert!(!labels.iter().any(|l| l.contains("Cargo.toml")), "got: {labels:?}");
    assert!(!labels.iter().any(|l| l.contains("typescript.yml")), "got: {labels:?}");
    assert!(!labels.iter().any(|l| l.contains("rust.yml")), "got: {labels:?}");
}

#[test]
fn bare_includes_community_files() {
    let profile = RepoProfile {
        languages: Languages::Bare,
        ..RepoProfile::default()
    };
    let labels = plan_labels(&profile);
    assert!(labels.iter().any(|l| l.contains("README.md")));
    assert!(labels.iter().any(|l| l.contains("CONTRIBUTING.md")));
    assert!(labels.iter().any(|l| l.contains("CODE_OF_CONDUCT.md")));
    assert!(labels.iter().any(|l| l.contains("SECURITY.md")));
    assert!(labels.iter().any(|l| l.contains("CHANGELOG.md")));
    assert!(labels.iter().any(|l| l.contains(".coderabbit.yaml")));
}

#[test]
fn bare_has_github_actions_dependabot_only() {
    let profile = RepoProfile {
        languages: Languages::Bare,
        ..RepoProfile::default()
    };
    let labels = plan_labels(&profile);
    let dependabot = labels
        .iter()
        .find(|l| l.contains("dependabot.yml"))
        .cloned()
        .unwrap_or_default();
    assert!(dependabot.contains("github-actions"), "got: {dependabot:?}");
    assert!(!dependabot.contains("npm"), "got: {dependabot:?}");
    assert!(!dependabot.contains("cargo"), "got: {dependabot:?}");
}

#[test]
fn license_selection_appears_in_plan() {
    let profile = RepoProfile {
        license: License::Apache2,
        ..RepoProfile::default()
    };
    let labels = plan_labels(&profile);
    assert!(labels.iter().any(|l| l.contains("Apache-2.0")), "got: {labels:?}");
}

#[test]
fn validate_rejects_bare_with_publish() {
    let profile = RepoProfile {
        languages: Languages::Bare,
        publish: Publish::Changesets,
        ..RepoProfile::default()
    };
    assert!(validate(&profile).is_err(), "bare + publish should be rejected");
}

#[test]
fn validate_allows_bare_without_publish() {
    let profile = RepoProfile {
        languages: Languages::Bare,
        publish: Publish::NoPublish,
        ..RepoProfile::default()
    };
    assert!(validate(&profile).is_ok());
}

#[test]
fn format_plan_names_the_target_path() {
    let output = format_plan(&RepoProfile::default(), Some("my-repo"));
    assert!(output.contains("target:     my-repo"));
}

#[test]
fn validate_errors_name_the_conflict() {
    let rust = RepoProfile {
        languages: Languages::Rust,
        publish: Publish::NpmNow,
        ..RepoProfile::default()
    };
    let bare = RepoProfile {
        languages: Languages::Bare,
        publish: Publish::NpmNow,
        ..RepoProfile::default()
    };
    let e1 = validate(&rust).unwrap_err();
    let e2 = validate(&bare).unwrap_err();
    assert_ne!(e1, e2);
    assert!(!e1.message().is_empty());
    assert!(!e2.message().is_empty());
}

#[test]
fn plan_size_and_single_license_entry() {
    let canonical = plan_labels(&RepoProfile::default());
    assert_eq!(canonical.len(), 12 + 1 + 6 + 4);
    assert_eq!(canonical[1], "LICENSE (MIT)");
    assert_eq!(canonical.iter().filter(|l| l.starts_with("LICENSE")).count(), 1);
    let bare = RepoProfile {
        languages: Languages::Bare,
        license: License::Proprietary,
        ..RepoProfile::default()
    };
    let labels = plan_labels(&bare);
    assert_eq!(labels.len(), 12);
    assert!(!labels.iter().any(|l| l.starts_with("LICENSE")));
    let rust_publish = RepoProfile {
        languages: Languages::Ts,
        publish: Publish::NpmNow,
        license: License::Apache2,
        ..RepoProfile::default()
    };
    let labels = plan_labels(&rust_publish);
    assert_eq!(labels.len(), 12 + 1 + 6 + 2);
    assert_eq!(labels[1], "LICENSE (Apache-2.0)");
}

#[test]
fn plan_labels_are_pairwise_distinct() {
    let both_changesets = RepoProfile {
        publish: Publish::Changesets,
        license: License::Gpl3,
        ..RepoProfile::default()
    };
    let ts_npm = RepoProfile {
        languages: Languages::Ts,
        publish: Publish::NpmNow,
        license: License::Mpl2,
        ..RepoProfile::default()
    };
    for profile in [RepoProfile::default(), both_changesets, ts_npm] {
        let labels = plan_labels(&profile);
        for i in 0..labels.len() {
            for j in (i + 1)..labels.len() {
                assert_ne!(labels[i], labels[j]);
            }
        }
    }
}

#[test]
fn report_would_create_lines_are_the_plan_in_order() {
    let profile = RepoProfile {
        languages: Languages::Ts,
        publish: Publish::Changesets,
        ..RepoProfile::default()
    };
    let report = format_plan(&profile, Some("target-dir"));
    let lines: Vec<&str> = report.lines().collect();
    let expected: Vec<String> =
        plan_labels(&profile).into_iter().map(|l| format!("  would create: {l}")).collect();
    let created: Vec<String> = lines
        .iter()
        .filter(|l| l.starts_with("  would create: "))
        .map(|l| l.to_string())
        .collect();
    assert_eq!(created, expected);
    assert_eq!(lines.len(), 12 + expected.len() + 2);
    assert_eq!(lines[1], "  target:     target-dir");
    assert_eq!(lines[11], "=== Would generate ===");
    assert_eq!(lines[12], expected[0]);
    assert_eq!(lines[lines.len() - 2], "");
    assert_eq!(lines[lines.len() - 1], "No files were written (dry-run).");
}
