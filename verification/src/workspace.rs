//! Project workspaces: where the configuration is looked for, the
//! workspace's root, and its members.

use vstd::prelude::*;
use vstd::string::*;

use crate::config::Config;
use crate::file_change::{join, join_path};
use crate::project::{ProjectError, ProjectName, WorkspaceMember};
use crate::text::{chars_of, slice_chars, string_of};

verus! {

/// The name of the configuration file.
pub const CONFIG_FILE_NAME: &'static str = "seal.toml";

/// The position of the last `/` in `s`, if any.
pub open spec fn last_slash(s: Seq<char>) -> Option<int>
    decreases s.len(),
{
    if s.len() == 0 {
        None
    } else if s.last() == '/' {
        Some(s.len() - 1)
    } else {
        last_slash(s.drop_last())
    }
}

/// `s` without its trailing `/` characters.
pub open spec fn strip_trailing_slashes(s: Seq<char>) -> Seq<char>
    decreases s.len(),
{
    if s.len() > 0 && s.last() == '/' {
        strip_trailing_slashes(s.drop_last())
    } else {
        s
    }
}

/// The parent directory of a `/`-separated path (`Path::parent`): the path
/// up to its last separator (the root for a path right under it, nothing
/// before it for a single name); `None` for the root itself and for an
/// empty path. Trailing separators are ignored.
pub open spec fn parent_path(p: Seq<char>) -> Option<Seq<char>> {
    let t = strip_trailing_slashes(p);
    if t.len() == 0 {
        None
    } else {
        match last_slash(t) {
            None => Some(seq![]),
            Some(i) => if i == 0 {
                Some(seq!['/'])
            } else {
                Some(strip_trailing_slashes(t.take(i)))
            },
        }
    }
}

/// `s` without its trailing `/` characters.
fn strip_trailing_slash_chars(s: &[char]) -> (r: Vec<char>)
    ensures
        r@ == strip_trailing_slashes(s@),
{
    let mut j = s.len();
    assert(s@.take(j as int) == s@);
    while j > 0 && s[j - 1] == '/'
        invariant
            j <= s@.len(),
            strip_trailing_slashes(s@) == strip_trailing_slashes(s@.take(j as int)),
        decreases j,
    {
        assert(s@.take(j as int).drop_last() == s@.take(j - 1));
        j = j - 1;
    }
    let r = slice_chars(s, 0, j);
    assert(s@.subrange(0, j as int) == s@.take(j as int));
    r
}

/// The parent directory of a path (see [`parent_path`]).
pub fn parent_dir(p: &str) -> (r: Option<String>)
    ensures
        match parent_path(p@) {
            Some(q) => r is Some && r->Some_0@ == q,
            None => r is None,
        },
{
    let t = strip_trailing_slash_chars(chars_of(p).as_slice());
    if t.len() == 0 {
        return None;
    }
    let n = t.len();
    let mut i = n;
    assert(t@.take(n as int) == t@);
    while i > 0 && t[i - 1] != '/'
        invariant
            i <= n,
            n == t@.len(),
            last_slash(t@) == last_slash(t@.take(i as int)),
        decreases i,
    {
        assert(t@.take(i as int).drop_last() == t@.take(i - 1));
        i = i - 1;
    }
    if i == 0 {
        assert(t@.take(0) == Seq::<char>::empty());
        return Some(String::new());
    }
    assert(last_slash(t@.take(i as int)) == Some(i - 1));
    if i == 1 {
        let mut v: Vec<char> = Vec::new();
        v.push('/');
        return Some(string_of(v.as_slice()));
    }
    let head = slice_chars(t.as_slice(), 0, i - 1);
    assert(t@.subrange(0, i - 1) == t@.take(i - 1));
    Some(string_of(strip_trailing_slash_chars(head.as_slice()).as_slice()))
}

/// The configuration files looked for, in order, from `dir` up: the
/// `seal.toml` of each directory, up to the git root (or the top when the
/// root is not above `dir`).
pub open spec fn candidates_from(dir: Seq<char>, git_root: Seq<char>) -> Seq<Seq<char>>
    decreases dir.len(),
{
    let here = seq![join_path(dir, "seal.toml"@)];
    if dir == git_root {
        here
    } else {
        match parent_path(dir) {
            Some(p) => if p.len() < dir.len() {
                here + candidates_from(p, git_root)
            } else {
                here
            },
            None => here,
        }
    }
}

/// The configuration files to look for from `start_dir` up to the git root
/// (see [`candidates_from`]); the first that is a file is the project's.
pub fn config_candidates(start_dir: &str, git_root: &str) -> (r: Vec<String>)
    ensures
        views_of(r@) == candidates_from(start_dir@, git_root@),
{
    let mut out: Vec<String> = Vec::new();
    let mut current = String::from_str(start_dir);
    let root_c = chars_of(git_root);
    let ghost target = candidates_from(start_dir@, git_root@);
    loop
        invariant
            target == candidates_from(start_dir@, git_root@),
            root_c@ == git_root@,
            target == views_of(out@) + candidates_from(current@, git_root@),
        decreases current@.len(),
    {
        let here = join(current.as_str(), CONFIG_FILE_NAME);
        let ghost before = out@;
        out.push(here);
        assert(views_of(out@) == views_of(before).push(here@));
        if crate::text::str_eq_chars(current.as_str(), root_c.as_slice()) {
            assert(views_of(out@) == target);
            return out;
        }
        match parent_dir(current.as_str()) {
            Some(p) => {
                if chars_of(p.as_str()).len() < chars_of(current.as_str()).len() {
                    assert(candidates_from(current@, git_root@) == seq![here@] + candidates_from(
                        p@,
                        git_root@,
                    ));
                    assert(views_of(out@) + candidates_from(p@, git_root@) == views_of(before)
                        + candidates_from(current@, git_root@));
                    current = p;
                } else {
                    assert(views_of(out@) =~= target);
                    return out;
                }
            },
            None => {
                assert(views_of(out@) =~= target);
                return out;
            },
        }
    }
}

/// The views of strings.
pub open spec fn views_of(v: Seq<String>) -> Seq<Seq<char>> {
    v.map_values(|s: String| s@)
}

/// A loaded project: its root, its configuration file and configuration,
/// and its members in ascending order of name.
#[derive(Debug)]
pub struct ProjectWorkspace {
    pub root: String,
    pub config_file: String,
    pub config: Config,
    pub members: Vec<(ProjectName, WorkspaceMember)>,
}

impl ProjectWorkspace {
    /// The root directory.
    pub fn root(&self) -> (r: &String)
        ensures
            r == &self.root,
    {
        &self.root
    }

    /// The configuration.
    pub fn config(&self) -> (r: &Config)
        ensures
            r == &self.config,
    {
        &self.config
    }

    /// The configuration file.
    pub fn config_file(&self) -> (r: &String)
        ensures
            r == &self.config_file,
    {
        &self.config_file
    }

    /// The members.
    pub fn members(&self) -> (r: &[(ProjectName, WorkspaceMember)])
        ensures
            r@ == self.members@,
    {
        self.members.as_slice()
    }

    /// The workspace of a configuration file read from `config_path`: its
    /// root is the file's directory, which it must have.
    pub fn from_config_file(
        config_path: &str,
        config: Config,
        members: Vec<(ProjectName, WorkspaceMember)>,
    ) -> (r: Result<ProjectWorkspace, ProjectError>)
        ensures
            match parent_path(config_path@) {
                Some(root) => r is Ok && r->Ok_0.root@ == root && r->Ok_0.config_file@
                    == config_path@ && r->Ok_0.config == config && r->Ok_0.members == members,
                None => r is Err && r->Err_0 == (ProjectError::ConfigFileNotReadable {
                    path: r->Err_0->ConfigFileNotReadable_path,
                    message: r->Err_0->ConfigFileNotReadable_message,
                }) && r->Err_0->ConfigFileNotReadable_path@ == config_path@
                    && r->Err_0->ConfigFileNotReadable_message@
                    == "config file has no parent directory"@,
            },
    {
        match parent_dir(config_path) {
            Some(root) => Ok(
                ProjectWorkspace {
                    root,
                    config_file: String::from_str(config_path),
                    config,
                    members,
                },
            ),
            None => Err(
                ProjectError::ConfigFileNotReadable {
                    path: String::from_str(config_path),
                    message: String::from_str("config file has no parent directory"),
                },
            ),
        }
    }

    /// The workspace of the project directory `project_path`, whose
    /// `seal.toml` holds `config`.
    pub fn from_project_path(
        project_path: &str,
        config: Config,
        members: Vec<(ProjectName, WorkspaceMember)>,
    ) -> (r: ProjectWorkspace)
        ensures
            r.root@ == project_path@,
            r.config_file@ == join_path(project_path@, "seal.toml"@),
            r.config == config,
            r.members == members,
    {
        ProjectWorkspace {
            root: String::from_str(project_path),
            config_file: join(project_path, CONFIG_FILE_NAME),
            config,
            members,
        }
    }
}

/// Where a member is: its directory and configuration file.
#[derive(Debug)]
pub struct MemberLocation {
    pub name: ProjectName,
    pub path: String,
    pub config_path: String,
}

/// Where the members of a configuration are, in ascending order of name:
/// each member's path under `root`, and its `seal.toml`.
pub fn member_locations(root: &str, config: &Config) -> (r: Vec<MemberLocation>)
    ensures
        match config.members {
            None => r@.len() == 0,
            Some(ms) => r@.len() == ms@.len() && forall|i: int|
                0 <= i < r@.len() ==> {
                    &&& (#[trigger] r@[i]).name@ == ms@[i].0@
                    &&& r@[i].path@ == join_path(root@, ms@[i].1@)
                    &&& r@[i].config_path@ == join_path(r@[i].path@, "seal.toml"@)
                },
        },
{
    let mut out: Vec<MemberLocation> = Vec::new();
    match &config.members {
        None => {},
        Some(ms) => {
            let n = ms.len();
            for i in 0..n
                invariant
                    n == ms@.len(),
                    out@.len() == i,
                    forall|k: int|
                        0 <= k < i ==> {
                            &&& (#[trigger] out@[k]).name@ == ms@[k].0@
                            &&& out@[k].path@ == join_path(root@, ms@[k].1@)
                            &&& out@[k].config_path@ == join_path(out@[k].path@, "seal.toml"@)
                        },
            {
                let path = join(root, ms[i].1.as_str());
                let config_path = join(path.as_str(), CONFIG_FILE_NAME);
                let name = ms[i].0.clone();
                out.push(MemberLocation { name, path, config_path });
            }
        },
    }
    out
}

/// A member must have its directory and, in it, a `seal.toml`.
pub fn check_member(loc: &MemberLocation, path_exists: bool, config_exists: bool) -> (r: Result<
    (),
    ProjectError,
>)
    ensures
        !path_exists ==> r is Err && r->Err_0 is MemberPathNotFound
            && r->Err_0->MemberPathNotFound_member@ == loc.name@
            && r->Err_0->MemberPathNotFound_path@ == loc.path@,
        path_exists && !config_exists ==> r is Err && r->Err_0 is MemberMissingSealToml
            && r->Err_0->MemberMissingSealToml_member@ == loc.name@
            && r->Err_0->MemberMissingSealToml_path@ == loc.config_path@,
        path_exists && config_exists ==> r is Ok,
{
    if !path_exists {
        return Err(
            ProjectError::MemberPathNotFound {
                member: loc.name.to_string(),
                path: loc.path.clone(),
            },
        );
    }
    if !config_exists {
        return Err(
            ProjectError::MemberMissingSealToml {
                member: loc.name.to_string(),
                path: loc.config_path.clone(),
            },
        );
    }
    Ok(())
}

} // verus!
