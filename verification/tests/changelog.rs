use chrono::TimeZone;

use seal::changelog::{
    categorize_prs, changelog_file_path, create_release_body, extract_version_from_release_name,
    format_changelog_content, generate_full_changelog, is_prerelease, parse_latest_changelog_section,
    prepare_changelog_changes, prepare_changelog_file_change, updated_changelog_content,
    ChangelogError,
};
use seal::config::{ChangelogConfig, ChangelogHeading, SectionLabels};
use seal::github::{GitHubPullRequest, GitHubRelease, Timestamp};

fn at(y: i32, mo: u32, d: u32, h: u32, mi: u32, s: u32) -> Timestamp {
    let dt = chrono::Utc.with_ymd_and_hms(y, mo, d, h, mi, s).unwrap();
    Timestamp::new(dt.timestamp(), 0).unwrap()
}

fn pr(title: &str, number: u64, label: &str, author: &str, merged_at: Timestamp) -> GitHubPullRequest {
    GitHubPullRequest {
        title: title.to_string(),
        number,
        url: format!("https://github.com/owner/repo/pull/{number}"),
        labels: vec![label.to_string()],
        author: Some(author.to_string()),
        merged_at,
    }
}

fn sections(entries: &[(&str, &[&str])]) -> Option<SectionLabels> {
    Some(SectionLabels::from_entries(
        entries
            .iter()
            .map(|(name, labels)| (name.to_string(), labels.iter().map(|l| l.to_string()).collect()))
            .collect(),
    ))
}

#[test]
fn test_format_changelog_with_section_labels() {
    let prs = vec![
        pr("Breaking API change", 1, "breaking", "alice", at(2025, 12, 1, 10, 0, 0)),
        pr("Add new feature", 2, "enhancement", "bob", at(2025, 12, 2, 14, 30, 0)),
        pr("Fix bug", 3, "bug", "alice", at(2025, 12, 3, 9, 15, 0)),
    ];
    let config = ChangelogConfig {
        section_labels: sections(&[
            ("Breaking changes", &["breaking"]),
            ("Bug fixes", &["bug"]),
            ("Enhancements", &["enhancement", "feature"]),
        ]),
        include_contributors: Some(true),
        ..Default::default()
    };
    let result = format_changelog_content("1.0.0", prs, &config);
    assert_eq!(
        result,
        "## 1.0.0\n\n### Breaking changes\n\n- Breaking API change ([#1](https://github.com/owner/repo/pull/1))\n\n### Bug fixes\n\n- Fix bug ([#3](https://github.com/owner/repo/pull/3))\n\n### Enhancements\n\n- Add new feature ([#2](https://github.com/owner/repo/pull/2))\n\n### Contributors\n\n- [@alice](https://github.com/alice)\n- [@bob](https://github.com/bob)\n\n"
    );
}

#[test]
fn test_format_changelog_with_ignored_labels() {
    let prs = vec![
        pr("Add feature", 1, "enhancement", "alice", at(2025, 11, 20, 11, 0, 0)),
        pr("Internal refactor", 2, "internal", "bob", at(2025, 11, 21, 13, 45, 0)),
        pr("CI improvement", 3, "ci", "charlie", at(2025, 11, 22, 16, 20, 0)),
    ];
    let config = ChangelogConfig {
        ignore_labels: Some(vec!["internal".to_string(), "ci".to_string()]),
        section_labels: sections(&[("Enhancements", &["enhancement"])]),
        include_contributors: Some(true),
        ..Default::default()
    };
    let result = format_changelog_content("1.0.0", prs, &config);
    assert_eq!(
        result,
        "## 1.0.0\n\n### Enhancements\n\n- Add feature ([#1](https://github.com/owner/repo/pull/1))\n\n### Contributors\n\n- [@alice](https://github.com/alice)\n\n"
    );
}

#[test]
fn test_format_changelog_with_custom_heading() {
    let prs = vec![pr("Add feature", 1, "enhancement", "alice", at(2025, 10, 15, 8, 30, 0))];
    let config = ChangelogConfig {
        section_labels: sections(&[("Enhancements", &["enhancement"])]),
        changelog_heading: Some(ChangelogHeading::new("Version {version} - Released".to_string()).unwrap()),
        include_contributors: Some(false),
        ..Default::default()
    };
    let result = format_changelog_content("1.0.0", prs, &config);
    assert_eq!(
        result,
        "## Version 1.0.0 - Released\n\n### Enhancements\n\n- Add feature ([#1](https://github.com/owner/repo/pull/1))\n\n"
    );
}

#[test]
fn test_format_changelog_without_contributors() {
    let prs = vec![pr("Add feature", 1, "enhancement", "alice", at(2025, 9, 5, 12, 0, 0))];
    let config = ChangelogConfig {
        section_labels: sections(&[("Enhancements", &["enhancement"])]),
        include_contributors: Some(false),
        ..Default::default()
    };
    let result = format_changelog_content("1.0.0", prs, &config);
    assert_eq!(
        result,
        "## 1.0.0\n\n### Enhancements\n\n- Add feature ([#1](https://github.com/owner/repo/pull/1))\n\n"
    );
}

#[test]
fn test_format_changelog_with_other_section() {
    let prs = vec![
        pr("Add feature", 1, "enhancement", "alice", at(2025, 8, 12, 15, 20, 0)),
        pr("Update docs", 2, "documentation", "bob", at(2025, 8, 13, 9, 45, 0)),
    ];
    let config = ChangelogConfig {
        section_labels: sections(&[("Enhancements", &["enhancement"])]),
        include_contributors: Some(true),
        ..Default::default()
    };
    let result = format_changelog_content("1.0.0", prs, &config);
    assert_eq!(
        result,
        "## 1.0.0\n\n### Enhancements\n\n- Add feature ([#1](https://github.com/owner/repo/pull/1))\n\n### Contributors\n\n- [@alice](https://github.com/alice)\n- [@bob](https://github.com/bob)\n\n"
    );
}

#[test]
fn test_format_changelog_empty_prs() {
    let config = ChangelogConfig { include_contributors: Some(true), ..Default::default() };
    let result = format_changelog_content("1.0.0", vec![], &config);
    assert_eq!(result, "## 1.0.0\n\n");
}

#[test]
fn test_update_changelog_file_creates_new() {
    let content = "## 1.0.0\n\n- Feature A\n\n";
    let change =
        prepare_changelog_file_change("/tmp/project/CHANGELOG.md".to_string(), String::new(), content);
    assert_eq!(change.new_content(), "# Changelog\n\n## 1.0.0\n\n- Feature A\n\n");
    assert_eq!(change.old_content(), "");
    assert_eq!(change.path(), "/tmp/project/CHANGELOG.md");
}

#[test]
fn test_update_changelog_file_prepends_to_existing() {
    let existing = "# Changelog\n\n## 0.9.0\n\n- Old feature\n\n".to_string();
    let new_content = "## 1.0.0\n\n- New feature\n\n";
    let change =
        prepare_changelog_file_change("/tmp/project/CHANGELOG.md".to_string(), existing, new_content);
    assert_eq!(
        change.new_content(),
        "# Changelog\n\n## 1.0.0\n\n- New feature\n\n## 0.9.0\n\n- Old feature\n\n"
    );
}

#[test]
fn test_format_changelog_with_ignored_contributors() {
    let prs = vec![pr("Add feature", 1, "enhancement", "alice", at(2025, 6, 25, 14, 15, 0))];
    let config = ChangelogConfig {
        ignore_labels: Some(vec!["internal".to_string(), "ci".to_string()]),
        ignore_contributors: Some(vec!["alice".to_string()]),
        section_labels: sections(&[("Enhancements", &["enhancement"])]),
        include_contributors: Some(true),
        ..Default::default()
    };
    let result = format_changelog_content("1.0.0", prs, &config);
    assert_eq!(result, "## 1.0.0\n\n");
}

#[test]
fn test_parse_latest_changelog_section() {
    let changelog = r"# Changelog

## 1.0.0

### Features

- Added feature ([#1](url))

### Contributors

- [@alice](https://github.com/alice)

## 0.9.0

### Bug Fixes

- Fixed bug
";
    let section = parse_latest_changelog_section(changelog).unwrap();
    assert_eq!(section.version, "1.0.0");
    assert_eq!(
        section.body,
        "### Features\n\n- Added feature ([#1](url))\n\n### Contributors\n\n- [@alice](https://github.com/alice)"
    );
}

#[test]
fn test_parse_latest_changelog_section_no_sections() {
    let changelog = "# Changelog\n\nSome text but no version sections.";
    let result = parse_latest_changelog_section(changelog);
    assert!(result.is_err());
    assert!(result.unwrap_err().to_string().contains("No version sections found"));
}

#[test]
fn test_parse_latest_changelog_section_single_version() {
    let changelog = r"# Changelog

## 2.0.0-beta.1

### Changes

- Breaking change
";
    let section = parse_latest_changelog_section(changelog).unwrap();
    assert_eq!(section.version, "2.0.0-beta.1");
    assert_eq!(section.body, "### Changes\n\n- Breaking change");
}

#[test]
fn test_is_prerelease_alpha() {
    assert!(is_prerelease("1.0.0-alpha.1"));
    assert!(is_prerelease("1.0.0-ALPHA"));
    assert!(is_prerelease("2.0.0-alpha"));
}

#[test]
fn test_is_prerelease_beta() {
    assert!(is_prerelease("1.0.0-beta.1"));
    assert!(is_prerelease("1.0.0-BETA"));
    assert!(is_prerelease("2.0.0-beta"));
}

#[test]
fn test_is_prerelease_rc() {
    assert!(is_prerelease("1.0.0-rc.1"));
    assert!(is_prerelease("1.0.0-RC"));
    assert!(is_prerelease("2.0.0-rc"));
}

#[test]
fn test_is_prerelease_pre() {
    assert!(is_prerelease("1.0.0-pre.1"));
    assert!(is_prerelease("1.0.0-PRE"));
}

#[test]
fn test_is_prerelease_stable() {
    assert!(!is_prerelease("1.0.0"));
    assert!(!is_prerelease("2.3.4"));
    assert!(!is_prerelease("10.0.0"));
}

#[test]
fn test_create_release_body_stable() {
    let changelog = r"# Changelog

## 1.0.0

### Features

- Added feature

## 0.9.0

### Bug Fixes

- Fixed bug
";
    let release_body = create_release_body(changelog).unwrap();
    assert_eq!(release_body.title, "1.0.0");
    assert_eq!(release_body.body, "### Features\n\n- Added feature");
    assert!(!release_body.prerelease);
}

#[test]
fn test_create_release_body_prerelease() {
    let changelog = r"# Changelog

## 2.0.0-alpha.1

### Breaking Changes

- API changed
";
    let release_body = create_release_body(changelog).unwrap();
    assert_eq!(release_body.title, "2.0.0-alpha.1");
    assert_eq!(release_body.body, "### Breaking Changes\n\n- API changed");
    assert!(release_body.prerelease);
}

#[test]
fn release_body_error_when_no_section() {
    let e = create_release_body("# Changelog\n").unwrap_err();
    assert_eq!(e, ChangelogError::NoVersionSections);
    assert_eq!(e.to_string(), "No version sections found in changelog");
}

#[test]
fn a_written_entry_is_read_back_as_the_latest_section() {
    let config = ChangelogConfig {
        section_labels: sections(&[("Fixes", &["bug"])]),
        ..Default::default()
    };
    let prs = vec![pr("Fix crash", 7, "bug", "dana", at(2025, 1, 2, 3, 4, 5))];
    let entry = format_changelog_content("3.1.0", prs, &config);
    for existing in ["", "# Changelog\n\n## 3.0.0\n\n- Old\n", "Notes first\n", "# Title only"] {
        let updated = updated_changelog_content(existing, &entry);
        let body = create_release_body(&updated).unwrap();
        assert_eq!(body.title, "3.1.0");
        assert!(body.body.starts_with("### Fixes\n\n- Fix crash ([#7](https://github.com/owner/repo/pull/7))"));
    }
}

#[test]
fn an_existing_file_without_title_gets_one_and_blank_lines_after_the_title_are_dropped() {
    assert_eq!(
        updated_changelog_content("old text\n", "## 1.0.0\n\n"),
        "# Changelog\n\n## 1.0.0\n\nold text\n"
    );
    assert_eq!(
        updated_changelog_content("# Log\n\n\n\n## 0.1.0\n", "## 1.0.0\n\n"),
        "# Log\n\n## 1.0.0\n\n## 0.1.0\n"
    );
    assert_eq!(updated_changelog_content("# Log", "## 1.0.0\n\n"), "# Log\n\n## 1.0.0\n\n");
}

#[test]
fn categorization_puts_a_pr_in_its_first_section_and_lists_authors_once() {
    let mut both = pr("Both", 1, "bug", "erin", at(2025, 3, 3, 0, 0, 0));
    both.labels.push("breaking".to_string());
    let prs = vec![both, pr("Second", 2, "bug", "erin", at(2025, 3, 4, 0, 0, 0))];
    let config = ChangelogConfig {
        section_labels: sections(&[("A breaking", &["breaking"]), ("B fixes", &["bug"])]),
        ..Default::default()
    };
    let categorized = categorize_prs(prs, &config);
    assert_eq!(categorized.sections.len(), 2);
    assert_eq!(categorized.sections[0].0, "A breaking");
    assert_eq!(categorized.sections[0].1.len(), 1);
    assert_eq!(categorized.sections[0].1[0].number, 1);
    assert_eq!(categorized.sections[1].1.len(), 1);
    assert_eq!(categorized.sections[1].1[0].number, 2);
    assert_eq!(categorized.contributors, vec!["erin".to_string()]);
}

#[test]
fn full_changelog_lists_releases_newest_first() {
    let releases = vec![
        GitHubRelease { created_at: at(2025, 11, 15, 0, 0, 0), name: Some("v0.2.0".to_string()) },
        GitHubRelease { created_at: at(2025, 12, 1, 0, 0, 0), name: None },
    ];
    let prs = vec![
        pr("Add new feature X", 5, "feature", "alice", at(2025, 12, 8, 10, 0, 0)),
        pr("Fix critical bug in module Y", 4, "bug", "bob", at(2025, 11, 28, 0, 0, 0)),
        pr("Update documentation", 1, "documentation", "alice", at(2025, 11, 10, 0, 0, 0)),
    ];
    let config = ChangelogConfig {
        section_labels: sections(&[("Bug fixes", &["bug"]), ("Documentation", &["documentation"])]),
        include_contributors: Some(false),
        ..Default::default()
    };
    let out = generate_full_changelog(&config, &releases, &prs);
    assert_eq!(
        out,
        "## Release 2025-12-01\n\n### Bug fixes\n\n- Fix critical bug in module Y ([#4](https://github.com/owner/repo/pull/4))\n\n## 0.2.0\n\n### Documentation\n\n- Update documentation ([#1](https://github.com/owner/repo/pull/1))\n\n"
    );
    assert_eq!(generate_full_changelog(&config, &[], &prs), "");
}

#[test]
fn release_names_give_versions_without_a_leading_v() {
    assert_eq!(extract_version_from_release_name(Some(&"v1.2.3".to_string())), Some("1.2.3".to_string()));
    assert_eq!(extract_version_from_release_name(Some(&"1.2.3".to_string())), Some("1.2.3".to_string()));
    assert_eq!(extract_version_from_release_name(Some(&"vv1".to_string())), Some("v1".to_string()));
    assert_eq!(extract_version_from_release_name(None), None);
}

#[test]
fn changelog_changes_use_the_configured_path_under_the_root() {
    let config = ChangelogConfig { changelog_path: Some("docs/CHANGES.md".to_string()), ..Default::default() };
    assert_eq!(changelog_file_path("/repo", &config), "/repo/docs/CHANGES.md");
    assert_eq!(changelog_file_path("/repo", &ChangelogConfig::default()), "/repo/CHANGELOG.md");
    let changes = prepare_changelog_changes("/repo", "1.0.0", &config, vec![], String::new());
    let list = changes.iter();
    assert_eq!(list.len(), 1);
    assert_eq!(list[0].path(), "/repo/docs/CHANGES.md");
    assert_eq!(list[0].new_content(), "# Changelog\n\n## 1.0.0\n\n");
}
