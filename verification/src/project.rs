//! Project names and workspaces.

use vstd::prelude::*;
use vstd::string::*;

use crate::config::{config_error_text, Config, ConfigValidationError, ConfigValidationErrorView};
use crate::text::{alphanumeric, blank, chars_of, concat2, concat3, extend_str, is_blank, string_of};

verus! {

/// A character allowed in a project name.
pub open spec fn name_char(c: char) -> bool {
    alphanumeric(c) || c == '-' || c == '_'
}

/// What `ProjectName::new` rejects: a blank name, or one with a character
/// other than a letter, a digit, `-` or `_`.
pub open spec fn project_name_check(value: Seq<char>) -> Option<ConfigValidationErrorView> {
    if is_blank(value) {
        Some(ConfigValidationErrorView::EmptyProjectName)
    } else if !(forall|i: int| 0 <= i < value.len() ==> name_char(#[trigger] value[i])) {
        Some(ConfigValidationErrorView::InvalidProjectName { name: value })
    } else {
        None
    }
}

/// The name of a workspace member.
#[derive(Debug, PartialEq, Eq, PartialOrd, Ord, Hash)]
pub struct ProjectName(String);

impl Clone for ProjectName {
    fn clone(&self) -> (r: Self)
        ensures
            r@ == self@,
    {
        proof {
            use_type_invariant(self);
        }
        ProjectName(self.0.clone())
    }
}

impl View for ProjectName {
    type V = Seq<char>;

    closed spec fn view(&self) -> Seq<char> {
        self.0@
    }
}

impl ProjectName {
    #[verifier::type_invariant]
    closed spec fn wf(self) -> bool {
        project_name_check(self.0@) is None
    }

    /// Checks the name: not blank, and only letters, digits, `-` and `_`.
    pub fn new(value: String) -> (r: Result<ProjectName, ConfigValidationError>)
        ensures
            match project_name_check(value@) {
                Some(e) => r is Err && r->Err_0@ == e,
                None => r is Ok && r->Ok_0@ == value@,
            },
    {
        let c = chars_of(value.as_str());
        if blank(c.as_slice()) {
            return Err(ConfigValidationError::EmptyProjectName);
        }
        let n = c.len();
        for i in 0..n
            invariant
                n == c@.len(),
                c@ == value@,
                !is_blank(value@),
                forall|k: int| 0 <= k < i ==> name_char(#[trigger] c@[k]),
        {
            let x = c[i];
            if !(crate::text::is_alphanumeric(x) || x == '-' || x == '_') {
                assert(!name_char(c@[i as int]));
                assert(value@[i as int] == c@[i as int]);
                assert(!(forall|k: int| 0 <= k < value@.len() ==> name_char(#[trigger] value@[k])));
                return Err(ConfigValidationError::InvalidProjectName { name: value });
            }
        }
        Ok(ProjectName(value))
    }

    /// The name's text.
    pub fn as_str(&self) -> (r: &str)
        ensures
            r@ == self@,
            project_name_check(r@) is None,
    {
        proof {
            use_type_invariant(self);
        }
        self.0.as_str()
    }

    /// The name's text, as its `Display` writes it.
    pub fn to_string(&self) -> (r: String)
        ensures
            r@ == self@,
    {
        self.0.clone()
    }
}

/// A member of a workspace: its directory and configuration.
#[derive(Debug, Clone)]
pub struct WorkspaceMember {
    pub root: String,
    pub config: Config,
}

impl WorkspaceMember {
    pub fn new(root: String, config: Config) -> (r: WorkspaceMember)
        ensures
            r.root == root,
            r.config == config,
    {
        WorkspaceMember { root, config }
    }
}

/// Errors of reading a project: its configuration, its git state, its
/// members.
#[derive(Debug, Clone, PartialEq, Eq)]
pub enum ProjectError {
    InvalidConfigurationFile(ConfigValidationError),
    /// A configuration file could not be read (`message` says why).
    ConfigFileNotReadable { path: String, message: String },
    NoParentDirectory { path: String },
    /// A configuration file is not valid TOML for the configuration (the
    /// message says why).
    ConfigParseError(String),
    NotInGitRepository { path: String },
    GitCommandFailed { command: String, stderr: String },
    DirtyGitState { changes: String },
    InvalidGitBranch { branch: String },
    LocalGitBranchExists { branch: String },
    MissingGitRemote { remote: String },
    RemoteGitBranchExists { branch: String, remote: String },
    MemberMissingSealToml { member: String, path: String },
    MemberPathNotFound { member: String, path: String },
}

/// The message of a project error.
pub open spec fn project_error_text(e: ProjectError) -> Seq<char> {
    match e {
        ProjectError::InvalidConfigurationFile(c) => "Invalid configuration file: "@
            + config_error_text(c@),
        ProjectError::ConfigFileNotReadable { path, message } => "Failed to read config file "@
            + path@ + ": "@ + message@,
        ProjectError::NoParentDirectory { path } => "No parent directory found for path: "@ + path@,
        ProjectError::ConfigParseError(m) => m@,
        ProjectError::NotInGitRepository { path } => "Not in a git repository: "@ + path@,
        ProjectError::GitCommandFailed { command, stderr } => "Git command '"@ + command@
            + "' failed: "@ + stderr@,
        ProjectError::DirtyGitState { changes } => "Working tree and index are not clean:\n"@
            + changes@
            + "\nCommit or stash these changes before running `seal bump`, or use `--force` to bypass this check."@,
        ProjectError::InvalidGitBranch { branch } => "Release branch `"@ + branch@
            + "` is not a valid Git branch name"@,
        ProjectError::LocalGitBranchExists { branch } => "Release branch `"@ + branch@
            + "` already exists locally"@,
        ProjectError::MissingGitRemote { remote } => "No `"@ + remote@
            + "` Git remote is configured; release.push = true requires one"@,
        ProjectError::RemoteGitBranchExists { branch, remote } => "Release branch `"@ + branch@
            + "` already exists on remote `"@ + remote@ + "`"@,
        ProjectError::MemberMissingSealToml { member, path } => "Workspace member '"@ + member@
            + "' is missing seal.toml at path: "@ + path@,
        ProjectError::MemberPathNotFound { member, path } => "Workspace member '"@ + member@
            + "' path does not exist: "@ + path@,
    }
}

impl ProjectError {
    /// The error's message, as its `Display` writes it.
    pub fn to_string(&self) -> (r: String)
        ensures
            r@ == project_error_text(*self),
    {
        match self {
            ProjectError::InvalidConfigurationFile(c) => {
                let m = c.to_string();
                concat2("Invalid configuration file: ", m.as_str())
            },
            ProjectError::ConfigFileNotReadable { path, message } => {
                let a = concat3("Failed to read config file ", path.as_str(), ": ");
                concat2(a.as_str(), message.as_str())
            },
            ProjectError::NoParentDirectory { path } => concat2(
                "No parent directory found for path: ",
                path.as_str(),
            ),
            ProjectError::ConfigParseError(m) => m.clone(),
            ProjectError::NotInGitRepository { path } => concat2(
                "Not in a git repository: ",
                path.as_str(),
            ),
            ProjectError::GitCommandFailed { command, stderr } => {
                let a = concat3("Git command '", command.as_str(), "' failed: ");
                concat2(a.as_str(), stderr.as_str())
            },
            ProjectError::DirtyGitState { changes } => concat3(
                "Working tree and index are not clean:\n",
                changes.as_str(),
                "\nCommit or stash these changes before running `seal bump`, or use `--force` to bypass this check.",
            ),
            ProjectError::InvalidGitBranch { branch } => concat3(
                "Release branch `",
                branch.as_str(),
                "` is not a valid Git branch name",
            ),
            ProjectError::LocalGitBranchExists { branch } => concat3(
                "Release branch `",
                branch.as_str(),
                "` already exists locally",
            ),
            ProjectError::MissingGitRemote { remote } => concat3(
                "No `",
                remote.as_str(),
                "` Git remote is configured; release.push = true requires one",
            ),
            ProjectError::RemoteGitBranchExists { branch, remote } => {
                let a = concat3("Release branch `", branch.as_str(), "` already exists on remote `");
                concat3(a.as_str(), remote.as_str(), "`")
            },
            ProjectError::MemberMissingSealToml { member, path } => {
                let a = concat3("Workspace member '", member.as_str(), "' is missing seal.toml at path: ");
                concat2(a.as_str(), path.as_str())
            },
            ProjectError::MemberPathNotFound { member, path } => {
                let a = concat3("Workspace member '", member.as_str(), "' path does not exist: ");
                concat2(a.as_str(), path.as_str())
            },
        }
    }
}

impl From<ConfigValidationError> for ProjectError {
    fn from(e: ConfigValidationError) -> (r: ProjectError) {
        ProjectError::InvalidConfigurationFile(e)
    }
}

impl vstd::std_specs::convert::FromSpecImpl<ConfigValidationError> for ProjectError {
    open spec fn obeys_from_spec() -> bool {
        true
    }

    open spec fn from_spec(e: ConfigValidationError) -> ProjectError {
        ProjectError::InvalidConfigurationFile(e)
    }
}

} // verus!
