use seal::config::{
    default_confirm, default_create_pr, default_push, BranchName, ChangelogConfig, ChangelogHeading,
    CommitMessage, Config, ConfigValidationError, ReleaseConfig, VersionFile,
};
use seal::project::ProjectError;

fn release(push: bool, create_pr: bool, branch: Option<&str>) -> ReleaseConfig {
    ReleaseConfig {
        current_version: "1.0.0".to_string(),
        version_files: None,
        commit_message: None,
        branch_name: branch.map(|b| BranchName::new(b.to_string()).unwrap()),
        push,
        create_pr,
        confirm: default_confirm(),
    }
}

fn config_with(release_config: ReleaseConfig) -> Config {
    Config { members: None, release: Some(release_config), changelog: None }
}

#[test]
fn test_commit_message_new_valid() {
    let msg = CommitMessage::new("Release v{version}".to_string()).unwrap();
    assert_eq!(msg.as_str(), "Release v{version}");
    assert_eq!(msg.to_string(), "Release v{version}");
}

#[test]
fn test_commit_message_new_empty() {
    let result = CommitMessage::new(String::new());
    assert!(result.is_err());
    assert_eq!(result.unwrap_err(), ConfigValidationError::EmptyCommitMessage);
}

#[test]
fn test_commit_message_new_missing_placeholder() {
    let result = CommitMessage::new("Release".to_string());
    assert!(result.is_err());
    assert_eq!(
        result.unwrap_err(),
        ConfigValidationError::MissingVersionPlaceholder {
            field: "commit-message".to_string(),
            value: "Release".to_string(),
        }
    );
}

#[test]
fn test_commit_message_whitespace_only() {
    let result = CommitMessage::new("   ".to_string());
    assert!(result.is_err());
    assert_eq!(result.unwrap_err(), ConfigValidationError::EmptyCommitMessage);
}

#[test]
fn test_branch_name_new_valid() {
    let name = BranchName::new("release/v{version}".to_string()).unwrap();
    assert_eq!(name.as_str(), "release/v{version}");
    assert_eq!(name.to_string(), "release/v{version}");
}

#[test]
fn test_branch_name_new_empty() {
    let result = BranchName::new(String::new());
    assert!(result.is_err());
    assert_eq!(result.unwrap_err(), ConfigValidationError::EmptyBranchName);
}

#[test]
fn test_branch_name_new_missing_placeholder() {
    let result = BranchName::new("release".to_string());
    assert!(result.is_err());
    assert_eq!(
        result.unwrap_err(),
        ConfigValidationError::MissingVersionPlaceholder {
            field: "branch-name".to_string(),
            value: "release".to_string(),
        }
    );
}

#[test]
fn test_changelog_heading_new_valid() {
    let name = ChangelogHeading::new("Version {version}".to_string()).unwrap();
    assert_eq!(name.as_str(), "Version {version}");
    assert_eq!(name.to_string(), "Version {version}");
}

#[test]
fn test_changelog_heading_new_empty() {
    let result = ChangelogHeading::new(String::new());
    assert!(result.is_err());
    assert_eq!(result.unwrap_err(), ConfigValidationError::EmptyChangelogHeading);
}

#[test]
fn test_changelog_heading_new_missing_placeholder() {
    let result = ChangelogHeading::new("release".to_string());
    assert!(result.is_err());
    assert_eq!(
        result.unwrap_err(),
        ConfigValidationError::MissingVersionPlaceholder {
            field: "changelog-heading".to_string(),
            value: "release".to_string(),
        }
    );
}

#[test]
fn test_changelog_heading_new_starts_with_hash() {
    let result = ChangelogHeading::new("# release-{version}".to_string());
    assert!(result.is_err());
    assert_eq!(
        result.unwrap_err(),
        ConfigValidationError::ChangelogHeadingStartsWithHash {
            value: "# release-{version}".to_string(),
        }
    );
}

#[test]
fn test_validation_push_requires_branch_name() {
    let config = config_with(release(true, false, None));
    assert_eq!(
        config.validate().map_err(ProjectError::from).unwrap_err(),
        ProjectError::InvalidConfigurationFile(ConfigValidationError::PushRequiresBranchName)
    );
}

#[test]
fn test_validation_create_pr_requires_branch_and_push() {
    let config = config_with(release(false, true, None));
    assert_eq!(
        config.validate().map_err(ProjectError::from).unwrap_err(),
        ProjectError::InvalidConfigurationFile(ConfigValidationError::CreatePrRequiresBranchAndPush)
    );
}

#[test]
fn test_validation_create_pr_requires_push() {
    let config = config_with(release(false, true, Some("release/{version}")));
    assert_eq!(
        config.validate().map_err(ProjectError::from).unwrap_err(),
        ProjectError::InvalidConfigurationFile(ConfigValidationError::CreatePrRequiresBranchAndPush)
    );
}

#[test]
fn test_validation_valid_with_branch_and_push() {
    let config = config_with(release(true, true, Some("release/{version}")));
    assert!(config.validate().is_ok());
    assert!(config.release.as_ref().unwrap().push);
    assert!(config.release.as_ref().unwrap().create_pr);
}

#[test]
fn test_config_validation_error_display() {
    assert_eq!(
        ConfigValidationError::EmptyCommitMessage.to_string(),
        "release.commit-message cannot be empty"
    );
    assert_eq!(ConfigValidationError::EmptyBranchName.to_string(), "release.branch-name cannot be empty");
    assert_eq!(
        ConfigValidationError::MissingVersionPlaceholder {
            field: "commit-message".to_string(),
            value: "Release".to_string(),
        }
        .to_string(),
        "release.commit-message must contain '{version}' placeholder, got: 'Release'"
    );
    assert_eq!(
        ConfigValidationError::InvalidVersion { value: String::new() }.to_string(),
        "release.current-version is not a valid version: ''"
    );
    assert_eq!(
        ConfigValidationError::PullRequestMissingPrerequisites.to_string(),
        "release.pull-request requires release.commit-message, release.branch-name, and release.push = true"
    );
    assert_eq!(
        ConfigValidationError::EmptyPullRequestTitle.to_string(),
        "release.pull-request.title cannot be empty"
    );
    assert_eq!(
        ConfigValidationError::EmptyPullRequestBase.to_string(),
        "release.pull-request.base cannot be empty"
    );
}

#[test]
fn test_project_error_from_config_validation() {
    let validation_err = ConfigValidationError::EmptyCommitMessage;
    let project_err: ProjectError = validation_err.into();
    assert_eq!(
        project_err.to_string(),
        "Invalid configuration file: release.commit-message cannot be empty"
    );
}

#[test]
fn release_defaults_and_other_messages() {
    assert!(!default_push());
    assert!(!default_create_pr());
    assert!(default_confirm());
    assert_eq!(
        ConfigValidationError::PushRequiresBranchName.to_string(),
        "release.push = true requires branch-name to be set"
    );
    assert_eq!(
        ConfigValidationError::ChangelogHeadingStartsWithHash { value: "# x".to_string() }.to_string(),
        "release.changelog.changelog-heading cannot start with '#', got: '# x'"
    );
    assert!(ChangelogHeading::new("  # {version}".to_string()).is_err());
    assert!(ChangelogHeading::new("{version} #1".to_string()).is_ok());
}

#[test]
fn changelog_config_getters_give_the_defaults() {
    let c = ChangelogConfig::default();
    assert_eq!(c.ignore_labels().len(), 0);
    assert_eq!(c.section_labels().len(), 0);
    assert_eq!(c.changelog_heading(), "{version}");
    assert!(c.include_contributors());
    let c = ChangelogConfig { include_contributors: Some(false), ..Default::default() };
    assert!(!c.include_contributors());
}

#[test]
fn version_file_paths() {
    assert_eq!(VersionFile::Simple("a.txt".to_string()).path(), "a.txt");
    assert_eq!(
        VersionFile::Search { path: "v.sh".to_string(), search: "V={version}".to_string() }.path(),
        "v.sh"
    );
    let config = Config { members: None, release: None, changelog: None };
    assert!(config.validate().is_ok());
}

#[test]
fn test_empty_branch_name() {
    let err = BranchName::new(String::new()).unwrap_err();
    assert_eq!(err, ConfigValidationError::EmptyBranchName);
    assert_eq!(err.to_string(), "release.branch-name cannot be empty");
}

#[test]
fn test_empty_commit_message() {
    let err = CommitMessage::new(String::new()).unwrap_err();
    assert_eq!(err, ConfigValidationError::EmptyCommitMessage);
    assert_eq!(err.to_string(), "release.commit-message cannot be empty");
}

#[test]
fn test_missing_version_placeholder_in_branch_name() {
    let err = BranchName::new("release-branch".to_string()).unwrap_err();
    assert_eq!(
        err.to_string(),
        "release.branch-name must contain '{version}' placeholder, got: 'release-branch'"
    );
}

#[test]
fn test_missing_version_placeholder_in_commit_message() {
    let err = CommitMessage::new("Release without placeholder".to_string()).unwrap_err();
    assert_eq!(
        err.to_string(),
        "release.commit-message must contain '{version}' placeholder, got: 'Release without placeholder'"
    );
}

#[test]
fn test_version_placeholder_case_sensitive() {
    let result = CommitMessage::new("Release {VERSION}".to_string());
    assert!(result.is_err());
    assert_eq!(
        result.unwrap_err().to_string(),
        "release.commit-message must contain '{version}' placeholder, got: 'Release {VERSION}'"
    );
}

#[test]
fn test_version_placeholder_multiple_times() {
    let msg = CommitMessage::new("Release {version} with {version} tag".to_string()).unwrap();
    assert_eq!(msg.as_str(), "Release {version} with {version} tag");
    let config = Config {
        members: None,
        release: Some(ReleaseConfig {
            current_version: "1.0.0".to_string(),
            version_files: None,
            commit_message: Some(msg),
            branch_name: None,
            push: default_push(),
            create_pr: default_create_pr(),
            confirm: default_confirm(),
        }),
        changelog: None,
    };
    assert_eq!(config.validate(), Ok(()));
}

#[test]
fn test_multiple_version_files() {
    let files = vec![
        VersionFile::Simple("Cargo.toml".to_string()),
        VersionFile::Simple("package.json".to_string()),
        VersionFile::Simple("VERSION".to_string()),
    ];
    let paths: Vec<&str> = files.iter().map(|f| f.path()).collect();
    assert_eq!(paths, vec!["Cargo.toml", "package.json", "VERSION"]);
    let mut rc = release(false, false, None);
    rc.version_files = Some(files);
    assert_eq!(config_with(rc).validate(), Ok(()));
}

#[test]
fn test_version_file_mixed_simple_and_detailed() {
    let files = vec![
        VersionFile::Simple("package.json".to_string()),
        VersionFile::Search { path: "version.sh".to_string(), search: "VERSION=\"{version}\"".to_string() },
    ];
    let paths: Vec<&str> = files.iter().map(|f| f.path()).collect();
    assert_eq!(paths, vec!["package.json", "version.sh"]);
}

#[test]
fn section_labels_are_a_map_in_name_order() {
    let labels = seal::config::SectionLabels::from_entries(vec![
        ("Fixes".to_string(), vec!["bug".to_string()]),
        ("Breaking".to_string(), vec!["breaking".to_string()]),
        ("Fixes".to_string(), vec!["fix".to_string()]),
    ]);
    assert_eq!(labels.entries().to_vec(), vec![
        ("Breaking".to_string(), vec!["breaking".to_string()]),
        ("Fixes".to_string(), vec!["fix".to_string()]),
    ]);
    assert_eq!(labels.clone(), labels);
    let config = ChangelogConfig { section_labels: Some(labels), ..ChangelogConfig::default() };
    assert_eq!(config.section_labels()[0].0, "Breaking");
}
