use seal::config::ConfigValidationError;
use seal::project::{ProjectError, ProjectName};

#[test]
fn test_valid_project_names() {
    assert!(ProjectName::new("my-project".to_string()).is_ok());
    assert!(ProjectName::new("my_project".to_string()).is_ok());
    assert!(ProjectName::new("MyProject123".to_string()).is_ok());
    assert!(ProjectName::new("project-name_123".to_string()).is_ok());
}

#[test]
fn test_empty_project_name() {
    let result = ProjectName::new(String::new());
    assert!(result.is_err());
    assert_eq!(result.unwrap_err(), ConfigValidationError::EmptyProjectName);
}

#[test]
fn test_whitespace_only_project_name() {
    let result = ProjectName::new("   ".to_string());
    assert!(result.is_err());
    assert_eq!(result.unwrap_err(), ConfigValidationError::EmptyProjectName);
}

#[test]
fn test_invalid_characters() {
    let result = ProjectName::new("my project".to_string());
    assert!(result.is_err());
    assert_eq!(
        result.unwrap_err(),
        ConfigValidationError::InvalidProjectName { name: "my project".to_string() }
    );
    assert!(ProjectName::new("my/project".to_string()).is_err());
    assert!(ProjectName::new("my@project".to_string()).is_err());
}

#[test]
fn test_project_name_display() {
    let name = ProjectName::new("test-project".to_string()).unwrap();
    assert_eq!(name.to_string(), "test-project");
    assert_eq!(name.as_str(), "test-project");
}

#[test]
fn test_project_name_ordering() {
    let name1 = ProjectName::new("aaa".to_string()).unwrap();
    let name2 = ProjectName::new("bbb".to_string()).unwrap();
    assert!(name1 < name2);
}

#[test]
fn test_project_error_display() {
    let err = ProjectError::NotInGitRepository { path: "/tmp/test".to_string() };
    assert_eq!(err.to_string(), "Not in a git repository: /tmp/test");
    let err = ProjectError::GitCommandFailed {
        command: "git status".to_string(),
        stderr: "fatal: not a git repository".to_string(),
    };
    assert_eq!(err.to_string(), "Git command 'git status' failed: fatal: not a git repository");
}

#[test]
fn test_dirty_git_state_error_display() {
    let error = ProjectError::DirtyGitState { changes: "  M src/lib.rs".to_string() };
    assert_eq!(
        error.to_string(),
        "Working tree and index are not clean:\n  M src/lib.rs\nCommit or stash these changes before running `seal bump`, or use `--force` to bypass this check."
    );
}

#[test]
fn test_invalid_git_branch_error_display() {
    let error = ProjectError::InvalidGitBranch { branch: "bad branch".to_string() };
    assert_eq!(error.to_string(), "Release branch `bad branch` is not a valid Git branch name");
}

#[test]
fn test_local_git_branch_exists_error_display() {
    let error = ProjectError::LocalGitBranchExists { branch: "release/v1.2.3".to_string() };
    assert_eq!(error.to_string(), "Release branch `release/v1.2.3` already exists locally");
}

#[test]
fn test_missing_git_remote_error_display() {
    let error = ProjectError::MissingGitRemote { remote: "origin".to_string() };
    assert_eq!(
        error.to_string(),
        "No `origin` Git remote is configured; release.push = true requires one"
    );
}

#[test]
fn test_remote_git_branch_exists_error_display() {
    let error = ProjectError::RemoteGitBranchExists {
        branch: "release/v1.2.3".to_string(),
        remote: "origin".to_string(),
    };
    assert_eq!(
        error.to_string(),
        "Release branch `release/v1.2.3` already exists on remote `origin`"
    );
}

#[test]
fn member_errors_display() {
    let e = ProjectError::MemberPathNotFound { member: "pkg".to_string(), path: "/r/pkg".to_string() };
    assert_eq!(e.to_string(), "Workspace member 'pkg' path does not exist: /r/pkg");
    let e = ProjectError::MemberMissingSealToml {
        member: "pkg".to_string(),
        path: "/r/pkg/seal.toml".to_string(),
    };
    assert_eq!(e.to_string(), "Workspace member 'pkg' is missing seal.toml at path: /r/pkg/seal.toml");
    let e = ProjectError::NoParentDirectory { path: "/".to_string() };
    assert_eq!(e.to_string(), "No parent directory found for path: /");
    let e = ProjectError::ConfigFileNotReadable { path: "x.toml".to_string(), message: "gone".to_string() };
    assert_eq!(e.to_string(), "Failed to read config file x.toml: gone");
}
