//! The `seal.toml` configuration: its values and the rules they obey.

use vstd::prelude::*;
use vstd::string::*;

use crate::text::{
    blank, chars_of, concat3, concat5, contains, is_blank, is_ws, lemma_text_lt_irreflexive,
    lemma_text_lt_total, lemma_text_lt_transitive, lemma_trim_start_skip, starts_with,
    str_contains, text_less, text_lt, trim_start, views,
};

verus! {

/// A configuration value that breaks one of the configuration rules.
#[derive(Debug, Clone, PartialEq, Eq)]
pub enum ConfigValidationError {
    EmptyVersionFiles,
    EmptyVersionFilePath,
    EmptyCommitMessage,
    EmptyBranchName,
    MissingVersionPlaceholder { field: String, value: String },
    InvalidVersion { value: String },
    EmptyProjectName,
    InvalidProjectName { name: String },
    PushRequiresBranchName,
    CreatePrRequiresBranchAndPush,
    PreCommitCommandsRequireCommitMessage,
    PullRequestMissingPrerequisites,
    EmptyPullRequestTitle,
    EmptyPullRequestBase,
    EmptyChangelogHeading,
    ChangelogHeadingStartsWithHash { value: String },
}

/// The mathematical value of a [`ConfigValidationError`].
pub enum ConfigValidationErrorView {
    EmptyVersionFiles,
    EmptyVersionFilePath,
    EmptyCommitMessage,
    EmptyBranchName,
    MissingVersionPlaceholder { field: Seq<char>, value: Seq<char> },
    InvalidVersion { value: Seq<char> },
    EmptyProjectName,
    InvalidProjectName { name: Seq<char> },
    PushRequiresBranchName,
    CreatePrRequiresBranchAndPush,
    PreCommitCommandsRequireCommitMessage,
    PullRequestMissingPrerequisites,
    EmptyPullRequestTitle,
    EmptyPullRequestBase,
    EmptyChangelogHeading,
    ChangelogHeadingStartsWithHash { value: Seq<char> },
}

impl View for ConfigValidationError {
    type V = ConfigValidationErrorView;

    open spec fn view(&self) -> ConfigValidationErrorView {
        match self {
            ConfigValidationError::EmptyVersionFiles => ConfigValidationErrorView::EmptyVersionFiles,
            ConfigValidationError::EmptyVersionFilePath =>
                ConfigValidationErrorView::EmptyVersionFilePath,
            ConfigValidationError::EmptyCommitMessage =>
                ConfigValidationErrorView::EmptyCommitMessage,
            ConfigValidationError::EmptyBranchName => ConfigValidationErrorView::EmptyBranchName,
            ConfigValidationError::MissingVersionPlaceholder { field, value } =>
                ConfigValidationErrorView::MissingVersionPlaceholder { field: field@, value: value@ },
            ConfigValidationError::InvalidVersion { value } =>
                ConfigValidationErrorView::InvalidVersion { value: value@ },
            ConfigValidationError::EmptyProjectName => ConfigValidationErrorView::EmptyProjectName,
            ConfigValidationError::InvalidProjectName { name } =>
                ConfigValidationErrorView::InvalidProjectName { name: name@ },
            ConfigValidationError::PushRequiresBranchName =>
                ConfigValidationErrorView::PushRequiresBranchName,
            ConfigValidationError::CreatePrRequiresBranchAndPush =>
                ConfigValidationErrorView::CreatePrRequiresBranchAndPush,
            ConfigValidationError::PreCommitCommandsRequireCommitMessage =>
                ConfigValidationErrorView::PreCommitCommandsRequireCommitMessage,
            ConfigValidationError::PullRequestMissingPrerequisites =>
                ConfigValidationErrorView::PullRequestMissingPrerequisites,
            ConfigValidationError::EmptyPullRequestTitle =>
                ConfigValidationErrorView::EmptyPullRequestTitle,
            ConfigValidationError::EmptyPullRequestBase =>
                ConfigValidationErrorView::EmptyPullRequestBase,
            ConfigValidationError::EmptyChangelogHeading =>
                ConfigValidationErrorView::EmptyChangelogHeading,
            ConfigValidationError::ChangelogHeadingStartsWithHash { value } =>
                ConfigValidationErrorView::ChangelogHeadingStartsWithHash { value: value@ },
        }
    }
}

/// The message of a [`ConfigValidationError`], as its `Display` writes it.
pub open spec fn config_error_text(e: ConfigValidationErrorView) -> Seq<char> {
    match e {
        ConfigValidationErrorView::EmptyVersionFiles => "release.version-files cannot be empty"@,
        ConfigValidationErrorView::EmptyVersionFilePath =>
            "release.version-files cannot contain empty strings"@,
        ConfigValidationErrorView::EmptyCommitMessage => "release.commit-message cannot be empty"@,
        ConfigValidationErrorView::EmptyBranchName => "release.branch-name cannot be empty"@,
        ConfigValidationErrorView::MissingVersionPlaceholder { field, value } => "release."@ + field
            + " must contain '{version}' placeholder, got: '"@ + value + "'"@,
        ConfigValidationErrorView::InvalidVersion { value } =>
            "release.current-version is not a valid version: '"@ + value + "'"@,
        ConfigValidationErrorView::EmptyProjectName => "project name cannot be empty"@,
        ConfigValidationErrorView::InvalidProjectName { name } => "project name '"@ + name
            + "' contains invalid characters (only alphanumeric, dash, and underscore allowed)"@,
        ConfigValidationErrorView::PushRequiresBranchName =>
            "release.push = true requires branch-name to be set"@,
        ConfigValidationErrorView::CreatePrRequiresBranchAndPush =>
            "release.create-pr = true requires branch-name to be set and release.push = true"@,
        ConfigValidationErrorView::PreCommitCommandsRequireCommitMessage =>
            "release.pre-commit-commands requires release.commit-message to be set"@,
        ConfigValidationErrorView::PullRequestMissingPrerequisites =>
            "release.pull-request requires release.commit-message, release.branch-name, and release.push = true"@,
        ConfigValidationErrorView::EmptyPullRequestTitle =>
            "release.pull-request.title cannot be empty"@,
        ConfigValidationErrorView::EmptyPullRequestBase => "release.pull-request.base cannot be empty"@,
        ConfigValidationErrorView::EmptyChangelogHeading =>
            "release.changelog.changelog-heading cannot be empty"@,
        ConfigValidationErrorView::ChangelogHeadingStartsWithHash { value } =>
            "release.changelog.changelog-heading cannot start with '#', got: '"@ + value + "'"@,
    }
}

impl ConfigValidationError {
    /// The error's message, as its `Display` writes it.
    pub fn to_string(&self) -> (r: String)
        ensures
            r@ == config_error_text(self@),
    {
        match self {
            ConfigValidationError::EmptyVersionFiles => String::from_str(
                "release.version-files cannot be empty",
            ),
            ConfigValidationError::EmptyVersionFilePath => String::from_str(
                "release.version-files cannot contain empty strings",
            ),
            ConfigValidationError::EmptyCommitMessage => String::from_str(
                "release.commit-message cannot be empty",
            ),
            ConfigValidationError::EmptyBranchName => String::from_str(
                "release.branch-name cannot be empty",
            ),
            ConfigValidationError::MissingVersionPlaceholder { field, value } => concat5(
                "release.",
                field.as_str(),
                " must contain '{version}' placeholder, got: '",
                value.as_str(),
                "'",
            ),
            ConfigValidationError::InvalidVersion { value } => concat3(
                "release.current-version is not a valid version: '",
                value.as_str(),
                "'",
            ),
            ConfigValidationError::EmptyProjectName => String::from_str(
                "project name cannot be empty",
            ),
            ConfigValidationError::InvalidProjectName { name } => concat3(
                "project name '",
                name.as_str(),
                "' contains invalid characters (only alphanumeric, dash, and underscore allowed)",
            ),
            ConfigValidationError::PushRequiresBranchName => String::from_str(
                "release.push = true requires branch-name to be set",
            ),
            ConfigValidationError::CreatePrRequiresBranchAndPush => String::from_str(
                "release.create-pr = true requires branch-name to be set and release.push = true",
            ),
            ConfigValidationError::PreCommitCommandsRequireCommitMessage => String::from_str(
                "release.pre-commit-commands requires release.commit-message to be set",
            ),
            ConfigValidationError::PullRequestMissingPrerequisites => String::from_str(
                "release.pull-request requires release.commit-message, release.branch-name, and release.push = true",
            ),
            ConfigValidationError::EmptyPullRequestTitle => String::from_str(
                "release.pull-request.title cannot be empty",
            ),
            ConfigValidationError::EmptyPullRequestBase => String::from_str(
                "release.pull-request.base cannot be empty",
            ),
            ConfigValidationError::EmptyChangelogHeading => String::from_str(
                "release.changelog.changelog-heading cannot be empty",
            ),
            ConfigValidationError::ChangelogHeadingStartsWithHash { value } => concat3(
                "release.changelog.changelog-heading cannot start with '#', got: '",
                value.as_str(),
                "'",
            ),
        }
    }
}

/// A template text that must name the `{version}` placeholder.
pub open spec fn is_version_template(s: Seq<char>) -> bool {
    !is_blank(s) && contains(s, "{version}"@)
}

/// What the checked constructors give for a template: the empty error when
/// the text is blank, the placeholder error when `{version}` is missing.
pub open spec fn template_check(
    value: Seq<char>,
    empty: ConfigValidationErrorView,
    field: Seq<char>,
) -> Option<ConfigValidationErrorView> {
    if is_blank(value) {
        Some(empty)
    } else if !contains(value, "{version}"@) {
        Some(ConfigValidationErrorView::MissingVersionPlaceholder { field, value })
    } else {
        None
    }
}

/// The commit message template for release commits.
#[derive(Debug, PartialEq, Eq)]
pub struct CommitMessage(String);

impl Clone for CommitMessage {
    fn clone(&self) -> (r: Self)
        ensures
            r@ == self@,
    {
        proof {
            use_type_invariant(self);
        }
        CommitMessage(self.0.clone())
    }
}

impl View for CommitMessage {
    type V = Seq<char>;

    closed spec fn view(&self) -> Seq<char> {
        self.0@
    }
}

impl CommitMessage {
    #[verifier::type_invariant]
    closed spec fn wf(self) -> bool {
        is_version_template(self.0@)
    }

    /// Checks the template: not blank, and naming `{version}`.
    pub fn new(value: String) -> (r: Result<CommitMessage, ConfigValidationError>)
        ensures
            match template_check(
                value@,
                ConfigValidationErrorView::EmptyCommitMessage,
                "commit-message"@,
            ) {
                Some(e) => r is Err && r->Err_0@ == e,
                None => r is Ok && r->Ok_0@ == value@,
            },
    {
        let c = chars_of(value.as_str());
        if blank(c.as_slice()) {
            return Err(ConfigValidationError::EmptyCommitMessage);
        }
        if !str_contains(value.as_str(), "{version}") {
            return Err(
                ConfigValidationError::MissingVersionPlaceholder {
                    field: String::from_str("commit-message"),
                    value,
                },
            );
        }
        Ok(CommitMessage(value))
    }

    /// The template text; it is never blank and always names `{version}`.
    pub fn as_str(&self) -> (r: &str)
        ensures
            r@ == self@,
            is_version_template(r@),
    {
        proof {
            use_type_invariant(self);
        }
        self.0.as_str()
    }

    /// The template text, as its `Display` writes it.
    pub fn to_string(&self) -> (r: String)
        ensures
            r@ == self@,
    {
        self.0.clone()
    }
}

/// The branch name template for release branches.
#[derive(Debug, PartialEq, Eq)]
pub struct BranchName(String);

impl Clone for BranchName {
    fn clone(&self) -> (r: Self)
        ensures
            r@ == self@,
    {
        proof {
            use_type_invariant(self);
        }
        BranchName(self.0.clone())
    }
}

impl View for BranchName {
    type V = Seq<char>;

    closed spec fn view(&self) -> Seq<char> {
        self.0@
    }
}

impl BranchName {
    #[verifier::type_invariant]
    closed spec fn wf(self) -> bool {
        is_version_template(self.0@)
    }

    /// Checks the template: not blank, and naming `{version}`.
    pub fn new(value: String) -> (r: Result<BranchName, ConfigValidationError>)
        ensures
            match template_check(
                value@,
                ConfigValidationErrorView::EmptyBranchName,
                "branch-name"@,
            ) {
                Some(e) => r is Err && r->Err_0@ == e,
                None => r is Ok && r->Ok_0@ == value@,
            },
    {
        let c = chars_of(value.as_str());
        if blank(c.as_slice()) {
            return Err(ConfigValidationError::EmptyBranchName);
        }
        if !str_contains(value.as_str(), "{version}") {
            return Err(
                ConfigValidationError::MissingVersionPlaceholder {
                    field: String::from_str("branch-name"),
                    value,
                },
            );
        }
        Ok(BranchName(value))
    }

    /// The template text; it is never blank and always names `{version}`.
    pub fn as_str(&self) -> (r: &str)
        ensures
            r@ == self@,
            is_version_template(r@),
    {
        proof {
            use_type_invariant(self);
        }
        self.0.as_str()
    }

    /// The template text, as its `Display` writes it.
    pub fn to_string(&self) -> (r: String)
        ensures
            r@ == self@,
    {
        self.0.clone()
    }
}

/// The changelog heading template.
#[derive(Debug, PartialEq, Eq)]
pub struct ChangelogHeading(String);

impl Clone for ChangelogHeading {
    fn clone(&self) -> (r: Self)
        ensures
            r@ == self@,
    {
        proof {
            use_type_invariant(self);
        }
        ChangelogHeading(self.0.clone())
    }
}

impl View for ChangelogHeading {
    type V = Seq<char>;

    closed spec fn view(&self) -> Seq<char> {
        self.0@
    }
}

/// What `ChangelogHeading::new` rejects: a blank text, a text without
/// `{version}`, or one whose first non-blank character is `#`.
pub open spec fn heading_check(value: Seq<char>) -> Option<ConfigValidationErrorView> {
    match template_check(value, ConfigValidationErrorView::EmptyChangelogHeading, "changelog-heading"@) {
        Some(e) => Some(e),
        None => if starts_with(trim_start(value), "#"@) {
            Some(ConfigValidationErrorView::ChangelogHeadingStartsWithHash { value })
        } else {
            None
        },
    }
}

/// A heading template that `ChangelogHeading::new` accepts.
pub open spec fn is_heading_template(s: Seq<char>) -> bool {
    is_version_template(s) && !starts_with(trim_start(s), "#"@)
}

impl ChangelogHeading {
    #[verifier::type_invariant]
    closed spec fn wf(self) -> bool {
        is_heading_template(self.0@)
    }

    /// Checks the template: not blank, naming `{version}`, and not starting
    /// (after leading whitespace) with `#`.
    pub fn new(value: String) -> (r: Result<ChangelogHeading, ConfigValidationError>)
        ensures
            match heading_check(value@) {
                Some(e) => r is Err && r->Err_0@ == e,
                None => r is Ok && r->Ok_0@ == value@,
            },
    {
        let c = chars_of(value.as_str());
        if blank(c.as_slice()) {
            return Err(ConfigValidationError::EmptyChangelogHeading);
        }
        if !str_contains(value.as_str(), "{version}") {
            return Err(
                ConfigValidationError::MissingVersionPlaceholder {
                    field: String::from_str("changelog-heading"),
                    value,
                },
            );
        }
        let k = crate::text::lead_ws_len(c.as_slice());
        proof {
            lemma_trim_start_skip(value@);
            reveal_strlit("#");
            assert(trim_start(value@) == value@.skip(k as int));
        }
        if k < c.len() && c[k] == '#' {
            proof {
                assert(trim_start(value@).subrange(0, 1) =~= "#"@);
            }
            return Err(ConfigValidationError::ChangelogHeadingStartsWithHash { value });
        }
        proof {
            if starts_with(trim_start(value@), "#"@) {
                assert(trim_start(value@).subrange(0, 1)[0] == '#');
            }
        }
        Ok(ChangelogHeading(value))
    }

    /// The template text; it is never blank, always names `{version}`, and
    /// does not start with `#`.
    pub fn as_str(&self) -> (r: &str)
        ensures
            r@ == self@,
            is_heading_template(r@),
    {
        proof {
            use_type_invariant(self);
        }
        self.0.as_str()
    }

    /// The template text, as its `Display` writes it.
    pub fn to_string(&self) -> (r: String)
        ensures
            r@ == self@,
    {
        self.0.clone()
    }
}

/// How a text version file is updated.
#[derive(Debug, Clone, Copy, PartialEq, Eq)]
pub enum VersionFileTextFormat {
    Toml,
    Text,
}

/// A file (or glob of files) whose version text is updated on a bump.
#[derive(Debug, Clone, PartialEq, Eq)]
pub enum VersionFile {
    /// Text or TOML replacement (format determines behavior)
    Text {
        /// Glob pattern
        path: String,
        /// Format of the file
        format: VersionFileTextFormat,
        /// Field to update in the file
        field: Option<String>,
    },
    /// Search and replace with a `{version}` template
    Search {
        /// Glob pattern
        path: String,
        /// Pattern to search for, holding the `{version}` placeholder.
        search: String,
    },
    /// Just path, does a straight string replacement
    JustPath { path: String },
    /// Simple path, also does string replacement
    Simple(String),
}

impl VersionFile {
    /// The glob pattern of the files.
    pub fn path(&self) -> (r: &str)
        ensures
            r@ == match self {
                VersionFile::Text { path, .. } => path@,
                VersionFile::Search { path, .. } => path@,
                VersionFile::JustPath { path } => path@,
                VersionFile::Simple(path) => path@,
            },
    {
        match self {
            VersionFile::Text { path, .. } => path.as_str(),
            VersionFile::Search { path, .. } => path.as_str(),
            VersionFile::JustPath { path } => path.as_str(),
            VersionFile::Simple(path) => path.as_str(),
        }
    }
}

/// Release configuration for versioning and publishing.
#[derive(Debug, Clone, PartialEq)]
pub struct ReleaseConfig {
    /// The current version of the project.
    pub current_version: String,
    /// The version files that need to be updated.
    pub version_files: Option<Vec<VersionFile>>,
    /// The commit message to use when committing the release changes.
    pub commit_message: Option<CommitMessage>,
    /// The branch name to use when creating a new release branch.
    pub branch_name: Option<BranchName>,
    /// Whether to push the release changes to the remote repository.
    pub push: bool,
    /// Whether to create a pull request for the release changes.
    pub create_pr: bool,
    /// Whether to confirm the release changes with the user before proceeding.
    pub confirm: bool,
}

/// Default of `release.push`.
pub fn default_push() -> (r: bool)
    ensures
        r == false,
{
    false
}

/// Default of `release.create-pr`.
pub fn default_create_pr() -> (r: bool)
    ensures
        r == false,
{
    false
}

/// Default of `release.confirm`.
pub fn default_confirm() -> (r: bool)
    ensures
        r == true,
{
    true
}

/// What `ReleaseConfig::validate` rejects: pushing needs a branch name, and
/// a pull request needs both a branch name and pushing.
pub open spec fn release_check(push: bool, create_pr: bool, has_branch: bool) -> Option<
    ConfigValidationErrorView,
> {
    if push && !has_branch {
        Some(ConfigValidationErrorView::PushRequiresBranchName)
    } else if create_pr && (!has_branch || !push) {
        Some(ConfigValidationErrorView::CreatePrRequiresBranchAndPush)
    } else {
        None
    }
}

impl ReleaseConfig {
    /// Checks the rules that tie the release options together.
    pub fn validate(&self) -> (r: Result<(), ConfigValidationError>)
        ensures
            match release_check(self.push, self.create_pr, self.branch_name is Some) {
                Some(e) => r is Err && r->Err_0@ == e,
                None => r is Ok,
            },
            r is Ok ==> (self.push ==> self.branch_name is Some),
            r is Ok ==> (self.create_pr ==> self.push && self.branch_name is Some),
    {
        if self.push && self.branch_name.is_none() {
            return Err(ConfigValidationError::PushRequiresBranchName);
        }
        if self.create_pr && (self.branch_name.is_none() || !self.push) {
            return Err(ConfigValidationError::CreatePrRequiresBranchAndPush);
        }
        Ok(())
    }
}

/// The section labels: section name and the labels that put a pull request
/// in it, in ascending order of the section names.
pub open spec fn sections_view(v: Seq<(String, Vec<String>)>) -> Seq<(Seq<char>, Seq<Seq<char>>)> {
    v.map_values(|p: (String, Vec<String>)| (p.0@, views(p.1@)))
}

/// The keys of the entries are strictly ascending (so each occurs once).
pub open spec fn keys_ascending(r: Seq<(Seq<char>, Seq<Seq<char>>)>) -> bool {
    forall|i: int, j: int| 0 <= i < j < r.len() ==> text_lt(#[trigger] r[i].0, #[trigger] r[j].0)
}

/// The entries list exactly the map: each entry's key maps to its value,
/// and each key of the map has an entry.
pub open spec fn lists_map(r: Seq<(Seq<char>, Seq<Seq<char>>)>, m: Map<Seq<char>, Seq<Seq<char>>>) -> bool {
    &&& forall|i: int| 0 <= i < r.len() ==> m.contains_key(#[trigger] r[i].0) && m[r[i].0] == r[i].1
    &&& forall|k: Seq<char>| #[trigger] m.contains_key(k) ==> exists|i: int| 0 <= i < r.len() && r[i].0 == k
}

/// Puts `labels` under `key` in the ascending entries, replacing the
/// labels of an entry with that key (`BTreeMap::insert`).
pub fn insert_label_entry(
    entries: &mut Vec<(String, Vec<String>)>,
    key: String,
    labels: Vec<String>,
    Ghost(m): Ghost<Map<Seq<char>, Seq<Seq<char>>>>,
)
    requires
        keys_ascending(sections_view(old(entries)@)),
        lists_map(sections_view(old(entries)@), m),
    ensures
        keys_ascending(sections_view(final(entries)@)),
        lists_map(sections_view(final(entries)@), m.insert(key@, views(labels@))),
{
    let ghost ov = sections_view(entries@);
    let ghost k = key@;
    let ghost v = views(labels@);
    let kc = chars_of(key.as_str());
    let n = entries.len();
    let mut p: usize = 0;
    while p < n
        invariant
            n == entries@.len(),
            ov == sections_view(entries@),
            kc@ == k,
            p <= n,
            forall|i: int| 0 <= i < p ==> text_lt(#[trigger] ov[i].0, k),
        ensures
            p <= n,
            forall|i: int| 0 <= i < p ==> text_lt(#[trigger] ov[i].0, k),
            p < n ==> !text_lt(ov[p as int].0, k),
        decreases n - p,
    {
        let ec = chars_of(entries[p].0.as_str());
        assert(ov[p as int].0 == ec@);
        if !text_less(ec.as_slice(), kc.as_slice()) {
            break;
        }
        p = p + 1;
    }
    let found = p < n && crate::text::str_eq_chars(entries[p].0.as_str(), kc.as_slice());
    assert(found ==> ov[p as int].0 == k);
    assert(!found && p < n ==> ov[p as int].0 != k);
    if found {
        entries.set(p, (key, labels));
        proof {
            let nv = sections_view(entries@);
            assert(nv == ov.update(p as int, (k, v)));
            assert(ov[p as int].0 == k);
            assert forall|i: int| 0 <= i < ov.len() && i != p implies #[trigger] ov[i].0 != k by {
                lemma_text_lt_irreflexive(k);
                if i > p {
                    assert(text_lt(ov[p as int].0, ov[i].0));
                }
            }
            let m2 = m.insert(k, v);
            assert forall|kk: Seq<char>| #[trigger] m2.contains_key(kk) implies exists|i: int|
                0 <= i < nv.len() && nv[i].0 == kk by {
                if kk == k {
                    assert(nv[p as int].0 == kk);
                } else {
                    let i = choose|i: int| 0 <= i < ov.len() && ov[i].0 == kk;
                    assert(nv[i].0 == kk);
                }
            }
        }
    } else {
        entries.insert(p, (key, labels));
        proof {
            let nv = sections_view(entries@);
            assert(nv == ov.insert(p as int, (k, v)));
            if p < n {
                lemma_text_lt_total(ov[p as int].0, k);
                assert(text_lt(k, ov[p as int].0));
            }
            assert forall|i: int| 0 <= i < ov.len() implies #[trigger] ov[i].0 != k by {
                if i < p {
                    lemma_text_lt_irreflexive(k);
                } else {
                    if i > p {
                        lemma_text_lt_transitive(k, ov[p as int].0, ov[i].0);
                    }
                    lemma_text_lt_irreflexive(k);
                }
            }
            assert forall|i: int, j: int| 0 <= i < j < nv.len() implies text_lt(
                #[trigger] nv[i].0,
                #[trigger] nv[j].0,
            ) by {
                if j < p {
                } else if j == p {
                } else if i < p {
                    if j - 1 > p {
                        lemma_text_lt_transitive(k, ov[p as int].0, ov[j - 1].0);
                    }
                    lemma_text_lt_transitive(ov[i].0, k, ov[j - 1].0);
                } else if i == p {
                    if j - 1 > p {
                        lemma_text_lt_transitive(k, ov[p as int].0, ov[j - 1].0);
                    }
                } else {
                    assert(text_lt(ov[i - 1].0, ov[j - 1].0));
                }
            }
            let m2 = m.insert(k, v);
            assert forall|i: int| 0 <= i < nv.len() implies m2.contains_key(#[trigger] nv[i].0)
                && m2[nv[i].0] == nv[i].1 by {
                if i < p {
                    assert(nv[i] == ov[i]);
                } else if i > p {
                    assert(nv[i] == ov[i - 1]);
                }
            }
            assert forall|kk: Seq<char>| #[trigger] m2.contains_key(kk) implies exists|i: int|
                0 <= i < nv.len() && nv[i].0 == kk by {
                if kk == k {
                    assert(nv[p as int].0 == kk);
                } else {
                    let i = choose|i: int| 0 <= i < ov.len() && ov[i].0 == kk;
                    if i < p {
                        assert(nv[i].0 == kk);
                    } else {
                        assert(nv[i + 1].0 == kk);
                    }
                }
            }
        }
    }
}

/// Rooster's section labels as a map (a later entry with the same name
/// wins).
pub open spec fn labels_map(sl: Seq<(String, Vec<String>)>) -> Map<Seq<char>, Seq<Seq<char>>>
    decreases sl.len(),
{
    if sl.len() == 0 {
        Map::empty()
    } else {
        labels_map(sl.drop_last()).insert(sl.last().0@, views(sl.last().1@))
    }
}

/// Section names and the labels that put a pull request in each, as a map
/// (a `BTreeMap`): the entries are kept in ascending order of the names,
/// so each name occurs once.
#[derive(Debug, PartialEq)]
pub struct SectionLabels {
    entries: Vec<(String, Vec<String>)>,
}

impl SectionLabels {
    #[verifier::type_invariant]
    closed spec fn wf(self) -> bool {
        keys_ascending(sections_view(self.entries@))
    }

    /// The entries, in ascending order of the names.
    pub closed spec fn entries_view(self) -> Seq<(Seq<char>, Seq<Seq<char>>)> {
        sections_view(self.entries@)
    }

    /// The map of entries already in ascending order of their names.
    pub fn from_ascending(entries: Vec<(String, Vec<String>)>) -> (r: SectionLabels)
        requires
            keys_ascending(sections_view(entries@)),
        ensures
            r.entries_view() == sections_view(entries@),
    {
        SectionLabels { entries }
    }

    /// The map of the entries (`BTreeMap::from_iter`): a later entry with
    /// the same name replaces an earlier one.
    pub fn from_entries(entries: Vec<(String, Vec<String>)>) -> (r: SectionLabels)
        ensures
            keys_ascending(r.entries_view()),
            lists_map(r.entries_view(), labels_map(entries@)),
    {
        let mut result: Vec<(String, Vec<String>)> = Vec::new();
        let ghost all = entries@;
        let mut rest = entries;
        let n = rest.len();
        let mut i: usize = 0;
        assert(lists_map(sections_view(result@), labels_map(all.take(0)))) by {
            assert(all.take(0) =~= Seq::<(String, Vec<String>)>::empty());
        }
        while i < n
            invariant
                n == all.len(),
                i <= n,
                rest@ == all.skip(i as int),
                keys_ascending(sections_view(result@)),
                lists_map(sections_view(result@), labels_map(all.take(i as int))),
            decreases n - i,
        {
            let (name, labels) = rest.remove(0);
            assert(all.take(i + 1).drop_last() =~= all.take(i as int));
            assert(all.take(i + 1).last() == all[i as int]);
            assert(all.skip(i as int).drop_first() =~= all.skip(i + 1));
            insert_label_entry(&mut result, name, labels, Ghost(labels_map(all.take(i as int))));
            i = i + 1;
        }
        assert(all.take(n as int) =~= all);
        SectionLabels { entries: result }
    }

    /// The entries, in ascending order of the names.
    pub fn entries(&self) -> (r: &[(String, Vec<String>)])
        ensures
            sections_view(r@) == self.entries_view(),
            keys_ascending(self.entries_view()),
    {
        proof {
            use_type_invariant(self);
        }
        self.entries.as_slice()
    }
}

impl Clone for SectionLabels {
    fn clone(&self) -> (r: Self)
        ensures
            r.entries_view() == self.entries_view(),
    {
        proof {
            use_type_invariant(self);
        }
        let ghost sv = sections_view(self.entries@);
        let mut v: Vec<(String, Vec<String>)> = Vec::new();
        let n = self.entries.len();
        for i in 0..n
            invariant
                n == self.entries@.len(),
                sv == sections_view(self.entries@),
                sections_view(v@) == sv.take(i as int),
        {
            let name = self.entries[i].0.clone();
            let labels = crate::text::clone_strings(&self.entries[i].1);
            let ghost before = v@;
            v.push((name, labels));
            assert(sections_view(v@) =~= sections_view(before).push(sv[i as int]));
            assert(sv.take(i + 1) =~= sv.take(i as int).push(sv[i as int]));
        }
        assert(sv.take(n as int) =~= sv);
        SectionLabels { entries: v }
    }
}

/// Changelog configuration for release notes generation.
#[derive(Debug, Clone, PartialEq)]
pub struct ChangelogConfig {
    /// Labels to ignore when generating changelog.
    pub ignore_labels: Option<Vec<String>>,
    /// Contributors to ignore when generating changelog.
    pub ignore_contributors: Option<Vec<String>>,
    /// Section names and their labels, in ascending order of the names.
    pub section_labels: Option<SectionLabels>,
    /// Template for the changelog heading. Must contain {version} placeholder.
    pub changelog_heading: Option<ChangelogHeading>,
    /// Whether to include contributors in the changelog. Defaults to true.
    pub include_contributors: Option<bool>,
    /// Path to the changelog file. Defaults to `CHANGELOG.md`.
    pub changelog_path: Option<String>,
}

impl Default for ChangelogConfig {
    fn default() -> (r: ChangelogConfig)
        ensures
            r.ignore_labels is None,
            r.ignore_contributors is None,
            r.section_labels is None,
            r.changelog_heading is None,
            r.include_contributors is None,
            r.changelog_path is None,
    {
        ChangelogConfig {
            ignore_labels: None,
            ignore_contributors: None,
            section_labels: None,
            changelog_heading: None,
            include_contributors: None,
            changelog_path: None,
        }
    }
}

impl ChangelogConfig {
    /// The labels whose pull requests are left out (none when unset).
    pub open spec fn ignore_labels_view(&self) -> Seq<Seq<char>> {
        match self.ignore_labels {
            Some(v) => views(v@),
            None => seq![],
        }
    }

    /// The contributors whose pull requests are left out (none when unset).
    pub open spec fn ignore_contributors_view(&self) -> Seq<Seq<char>> {
        match self.ignore_contributors {
            Some(v) => views(v@),
            None => seq![],
        }
    }

    /// The sections (none when unset).
    pub open spec fn sections(&self) -> Seq<(Seq<char>, Seq<Seq<char>>)> {
        match self.section_labels {
            Some(s) => s.entries_view(),
            None => seq![],
        }
    }

    /// The heading template (`{version}` when unset).
    pub open spec fn heading(&self) -> Seq<char> {
        match self.changelog_heading {
            Some(h) => h@,
            None => "{version}"@,
        }
    }

    /// Whether contributors are listed (yes when unset).
    pub open spec fn lists_contributors(&self) -> bool {
        match self.include_contributors {
            Some(b) => b,
            None => true,
        }
    }

    /// Labels to ignore when generating changelog.
    pub fn ignore_labels(&self) -> (r: &[String])
        ensures
            views(r@) == self.ignore_labels_view(),
    {
        match &self.ignore_labels {
            Some(v) => v.as_slice(),
            None => &[],
        }
    }

    /// The section names and their labels.
    pub fn section_labels(&self) -> (r: &[(String, Vec<String>)])
        ensures
            sections_view(r@) == self.sections(),
            keys_ascending(self.sections()),
    {
        match &self.section_labels {
            Some(s) => s.entries(),
            None => &[],
        }
    }

    /// The heading template.
    pub fn changelog_heading(&self) -> (r: &str)
        ensures
            r@ == self.heading(),
    {
        match &self.changelog_heading {
            Some(h) => h.as_str(),
            None => "{version}",
        }
    }

    /// Whether to list contributors.
    pub fn include_contributors(&self) -> (r: bool)
        ensures
            r == self.lists_contributors(),
    {
        match self.include_contributors {
            Some(b) => b,
            None => true,
        }
    }
}

/// The whole `seal.toml` configuration.
#[derive(Debug, Clone, PartialEq)]
pub struct Config {
    /// The members of the project: name and path, in ascending order of the
    /// names.
    pub members: Option<Vec<(crate::project::ProjectName, String)>>,
    /// Release configuration for versioning and publishing.
    pub release: Option<ReleaseConfig>,
    /// Changelog configuration for release notes generation.
    pub changelog: Option<ChangelogConfig>,
}

impl Config {
    /// Checks the rules of the release section, if there is one.
    pub fn validate(&self) -> (r: Result<(), ConfigValidationError>)
        ensures
            match self.release {
                Some(rc) => match release_check(rc.push, rc.create_pr, rc.branch_name is Some) {
                    Some(e) => r is Err && r->Err_0@ == e,
                    None => r is Ok,
                },
                None => r is Ok,
            },
    {
        match &self.release {
            Some(release) => release.validate(),
            None => Ok(()),
        }
    }
}

} // verus!
