//! What the git commands that inspect a repository are, and what their
//! output means.

use vstd::prelude::*;
use vstd::string::*;

use crate::project::ProjectError;
use crate::text::{
    chars_of, concat2, extend_chars, extend_str, join, lines, lines_of, string_of, trim, trim_chars,
    trim_end, views,
};

verus! {

/// What a git command gave: whether it succeeded, its exit code, and its
/// output (decoded as text).
#[derive(Debug, Clone)]
pub struct GitOutput {
    pub success: bool,
    pub code: Option<i32>,
    pub stdout: String,
    pub stderr: String,
}

/// A vector of owned strings from string literals.
fn strings2(a: &str, b: &str) -> (r: Vec<String>)
    ensures
        views(r@) == seq![a@, b@],
{
    let mut v: Vec<String> = Vec::new();
    v.push(String::from_str(a));
    v.push(String::from_str(b));
    assert(views(v@) == seq![a@, b@]);
    v
}

/// The arguments of `git rev-parse --show-toplevel`.
pub fn git_root_args() -> (r: Vec<String>)
    ensures
        views(r@) == seq!["rev-parse"@, "--show-toplevel"@],
{
    strings2("rev-parse", "--show-toplevel")
}

/// The root of the repository from `git rev-parse --show-toplevel`: its
/// trimmed output; not a repository when the command failed.
pub fn git_root_from_output(start_dir: &str, out: &GitOutput) -> (r: Result<String, ProjectError>)
    ensures
        !out.success ==> r is Err && r->Err_0 is NotInGitRepository && r->Err_0->NotInGitRepository_path@
            == start_dir@,
        out.success ==> r is Ok && r->Ok_0@ == trim(out.stdout@),
{
    if !out.success {
        return Err(ProjectError::NotInGitRepository { path: String::from_str(start_dir) });
    }
    Ok(string_of(trim_chars(chars_of(out.stdout.as_str()).as_slice()).as_slice()))
}

/// The shown form of the command that reads the current branch.
pub open spec fn current_branch_command() -> Seq<char> {
    "git symbolic-ref --short HEAD"@
}

/// The current branch from `git symbolic-ref --short HEAD`: its trimmed
/// output, which must not be empty.
pub fn current_branch_from_output(out: &GitOutput) -> (r: Result<String, ProjectError>)
    ensures
        !out.success ==> r is Err && r->Err_0 is GitCommandFailed
            && r->Err_0->GitCommandFailed_command@ == current_branch_command()
            && r->Err_0->GitCommandFailed_stderr@ == trim(out.stderr@),
        out.success && trim(out.stdout@).len() == 0 ==> r is Err && r->Err_0 is GitCommandFailed
            && r->Err_0->GitCommandFailed_command@ == current_branch_command()
            && r->Err_0->GitCommandFailed_stderr@ == "Git returned an empty branch name"@,
        out.success && trim(out.stdout@).len() > 0 ==> r is Ok && r->Ok_0@ == trim(out.stdout@),
{
    if !out.success {
        return Err(
            ProjectError::GitCommandFailed {
                command: String::from_str("git symbolic-ref --short HEAD"),
                stderr: string_of(trim_chars(chars_of(out.stderr.as_str()).as_slice()).as_slice()),
            },
        );
    }
    let branch = trim_chars(chars_of(out.stdout.as_str()).as_slice());
    if branch.len() == 0 {
        return Err(
            ProjectError::GitCommandFailed {
                command: String::from_str("git symbolic-ref --short HEAD"),
                stderr: String::from_str("Git returned an empty branch name"),
            },
        );
    }
    Ok(string_of(branch.as_slice()))
}

/// The shown form of the command that reads the state of the work tree.
pub open spec fn worktree_status_command() -> Seq<char> {
    "git --no-optional-locks status --porcelain=v1 --untracked-files=all --ignore-submodules=none"@
}

/// Each line indented by two spaces.
pub open spec fn indented(ls: Seq<Seq<char>>) -> Seq<Seq<char>> {
    ls.map_values(|l: Seq<char>| "  "@ + l)
}

/// The changes that `git status --porcelain` lists, one per line, each
/// indented by two spaces.
pub open spec fn listed_changes(status: Seq<char>) -> Seq<char> {
    join(indented(lines(trim_end(status))), "\n"@)
}

/// Whether the work tree is clean, from `git status --porcelain`: any
/// output means changes, which the error lists.
pub fn worktree_status_check(out: &GitOutput) -> (r: Result<(), ProjectError>)
    ensures
        !out.success ==> r is Err && r->Err_0 is GitCommandFailed
            && r->Err_0->GitCommandFailed_command@ == worktree_status_command()
            && r->Err_0->GitCommandFailed_stderr@ == trim(out.stderr@),
        out.success && out.stdout@.len() > 0 ==> r is Err && r->Err_0 is DirtyGitState
            && r->Err_0->DirtyGitState_changes@ == listed_changes(out.stdout@),
        out.success && out.stdout@.len() == 0 ==> r is Ok,
{
    if !out.success {
        return Err(
            ProjectError::GitCommandFailed {
                command: String::from_str(
                    "git --no-optional-locks status --porcelain=v1 --untracked-files=all --ignore-submodules=none",
                ),
                stderr: string_of(trim_chars(chars_of(out.stderr.as_str()).as_slice()).as_slice()),
            },
        );
    }
    if out.stdout.as_str().is_empty() {
        return Ok(());
    }
    let status = chars_of(out.stdout.as_str());
    let end = crate::text::trim_end_chars(status.as_slice());
    let ls = lines_of(end.as_slice());
    let ghost lv = views(ls@);
    let mut parts: Vec<String> = Vec::new();
    let n = ls.len();
    for i in 0..n
        invariant
            n == ls@.len(),
            lv == views(ls@),
            views(parts@) == indented(lv.take(i as int)),
    {
        let p = concat2("  ", ls[i].as_str());
        let ghost before = parts@;
        parts.push(p);
        assert(views(parts@) == views(before).push(p@));
        assert(indented(lv.take(i + 1)) == indented(lv.take(i as int)).push("  "@ + lv[i as int]));
    }
    assert(lv.take(n as int) == lv);
    let changes = string_of(crate::text::join_strings(&parts, "\n").as_slice());
    Err(ProjectError::DirtyGitState { changes })
}

/// Where a check that a release branch can be created stands: the branch
/// name is being validated, the local branches or the remote's URLs are
/// being read, or the branches of the remote's `index`-th URL are.
#[derive(Debug, Clone)]
pub enum BranchCheck {
    Name,
    Local,
    Remotes,
    Remote { urls: Vec<String>, index: usize },
}

/// What to do next in a branch check: run git with the arguments and come
/// back in the given state with its output, or stop with the answer
/// (whether the remote was checked).
#[derive(Debug)]
pub enum BranchCheckAction {
    Run { state: BranchCheck, args: Vec<String> },
    Done(Result<bool, ProjectError>),
}

/// The arguments of `git check-ref-format --branch BRANCH`.
pub open spec fn name_check_args(branch: Seq<char>) -> Seq<Seq<char>> {
    seq!["check-ref-format"@, "--branch"@, branch]
}

/// The arguments of `git show-ref --verify --quiet refs/heads/BRANCH`.
pub open spec fn local_check_args(branch: Seq<char>) -> Seq<Seq<char>> {
    seq!["show-ref"@, "--verify"@, "--quiet"@, "refs/heads/"@ + branch]
}

/// The arguments of `git remote get-url --push --all REMOTE`.
pub open spec fn remotes_args(remote: Seq<char>) -> Seq<Seq<char>> {
    seq!["remote"@, "get-url"@, "--push"@, "--all"@, remote]
}

/// The arguments of `git ls-remote --exit-code --heads URL refs/heads/BRANCH`.
pub open spec fn remote_check_args(url: Seq<char>, branch: Seq<char>) -> Seq<Seq<char>> {
    seq!["ls-remote"@, "--exit-code"@, "--heads"@, url, "refs/heads/"@ + branch]
}

/// A run of git in the state `s` with the arguments `a`.
pub open spec fn runs(act: BranchCheckAction, s: BranchCheck, a: Seq<Seq<char>>) -> bool {
    act matches BranchCheckAction::Run { state, args } && state == s && views(args@) == a
}

/// A stop with the error that `e` holds of.
pub open spec fn stops_with(act: BranchCheckAction, e: spec_fn(ProjectError) -> bool) -> bool {
    act matches BranchCheckAction::Done(Err(err)) && e(err)
}

/// The first step of a branch check: validate the name.
pub fn branch_check_begin(branch: &str) -> (r: BranchCheckAction)
    ensures
        runs(r, BranchCheck::Name, name_check_args(branch@)),
{
    let mut args: Vec<String> = Vec::new();
    args.push(String::from_str("check-ref-format"));
    args.push(String::from_str("--branch"));
    args.push(String::from_str(branch));
    assert(views(args@) == name_check_args(branch@));
    BranchCheckAction::Run { state: BranchCheck::Name, args }
}

/// The run of `git ls-remote` for the `index`-th URL.
fn remote_check(urls: Vec<String>, index: usize, branch: &str) -> (r: BranchCheckAction)
    requires
        index < urls@.len(),
    ensures
        runs(
            r,
            BranchCheck::Remote { urls, index },
            remote_check_args(urls@[index as int]@, branch@),
        ),
{
    let mut args: Vec<String> = Vec::new();
    args.push(String::from_str("ls-remote"));
    args.push(String::from_str("--exit-code"));
    args.push(String::from_str("--heads"));
    args.push(urls[index].clone());
    args.push(concat2("refs/heads/", branch));
    assert(views(args@) == remote_check_args(urls@[index as int]@, branch@));
    BranchCheckAction::Run { state: BranchCheck::Remote { urls, index }, args }
}

/// The next step of a check that the release branch `branch` can be
/// created and pushed to `remote`, from the output of the step that ran:
/// the name must be a valid branch name (not `HEAD`); no local branch may
/// have it; the remote must have URLs (else the answer is that the remote
/// was not checked, or an error when a remote is required); no URL of the
/// remote may have the branch.
pub fn branch_check_step(
    state: BranchCheck,
    out: &GitOutput,
    branch: &str,
    remote: &str,
    require_remote: bool,
) -> (r: BranchCheckAction)
    ensures
        match state {
            BranchCheck::Name => if !out.success || trim(out.stdout@) != branch@ || branch@
                == "HEAD"@ {
                stops_with(
                    r,
                    |e: ProjectError| e is InvalidGitBranch && e->InvalidGitBranch_branch@ == branch@,
                )
            } else {
                runs(r, BranchCheck::Local, local_check_args(branch@))
            },
            BranchCheck::Local => match out.code {
                Some(0) => stops_with(
                    r,
                    |e: ProjectError|
                        e is LocalGitBranchExists && e->LocalGitBranchExists_branch@ == branch@,
                ),
                Some(1) => runs(r, BranchCheck::Remotes, remotes_args(remote@)),
                _ => stops_with(
                    r,
                    |e: ProjectError|
                        e is GitCommandFailed && e->GitCommandFailed_command@
                            == "git show-ref --verify --quiet refs/heads/"@ + branch@
                            && e->GitCommandFailed_stderr@ == trim(out.stderr@),
                ),
            },
            BranchCheck::Remotes => if !out.success || out.stdout@.len() == 0 {
                if require_remote {
                    stops_with(
                        r,
                        |e: ProjectError|
                            e is MissingGitRemote && e->MissingGitRemote_remote@ == remote@,
                    )
                } else {
                    r == BranchCheckAction::Done(Ok(false))
                }
            } else if lines(out.stdout@).len() == 0 {
                r == BranchCheckAction::Done(Ok(true))
            } else {
                r matches BranchCheckAction::Run { state: BranchCheck::Remote { urls, index }, args }
                    && views(urls@) == lines(out.stdout@) && index == 0 && views(args@)
                    == remote_check_args(lines(out.stdout@)[0], branch@)
            },
            BranchCheck::Remote { urls, index } => match out.code {
                Some(0) => stops_with(
                    r,
                    |e: ProjectError|
                        e is RemoteGitBranchExists && e->RemoteGitBranchExists_branch@ == branch@
                            && e->RemoteGitBranchExists_remote@ == remote@,
                ),
                Some(2) => if index + 1 < urls@.len() {
                    runs(
                        r,
                        BranchCheck::Remote { urls, index: (index + 1) as usize },
                        remote_check_args(urls@[index + 1]@, branch@),
                    )
                } else {
                    r == BranchCheckAction::Done(Ok(true))
                },
                _ => stops_with(
                    r,
                    |e: ProjectError|
                        e is GitCommandFailed && e->GitCommandFailed_command@
                            == "git ls-remote --exit-code --heads "@ + remote@ + " refs/heads/"@
                            + branch@ && e->GitCommandFailed_stderr@ == trim(out.stderr@),
                ),
            },
        },
{
    let stderr = string_of(trim_chars(chars_of(out.stderr.as_str()).as_slice()).as_slice());
    match state {
        BranchCheck::Name => {
            let name = trim_chars(chars_of(out.stdout.as_str()).as_slice());
            let bc = chars_of(branch);
            if !out.success || !crate::text::chars_eq(name.as_slice(), bc.as_slice())
                || crate::text::str_eq_chars("HEAD", bc.as_slice()) {
                return BranchCheckAction::Done(
                    Err(ProjectError::InvalidGitBranch { branch: String::from_str(branch) }),
                );
            }
            let mut args: Vec<String> = Vec::new();
            args.push(String::from_str("show-ref"));
            args.push(String::from_str("--verify"));
            args.push(String::from_str("--quiet"));
            args.push(concat2("refs/heads/", branch));
            assert(views(args@) == local_check_args(branch@));
            BranchCheckAction::Run { state: BranchCheck::Local, args }
        },
        BranchCheck::Local => match out.code {
            Some(0) => BranchCheckAction::Done(
                Err(ProjectError::LocalGitBranchExists { branch: String::from_str(branch) }),
            ),
            Some(1) => {
                let mut args: Vec<String> = Vec::new();
                args.push(String::from_str("remote"));
                args.push(String::from_str("get-url"));
                args.push(String::from_str("--push"));
                args.push(String::from_str("--all"));
                args.push(String::from_str(remote));
                assert(views(args@) == remotes_args(remote@));
                BranchCheckAction::Run { state: BranchCheck::Remotes, args }
            },
            _ => BranchCheckAction::Done(
                Err(
                    ProjectError::GitCommandFailed {
                        command: concat2("git show-ref --verify --quiet refs/heads/", branch),
                        stderr,
                    },
                ),
            ),
        },
        BranchCheck::Remotes => {
            if !out.success || out.stdout.as_str().is_empty() {
                if require_remote {
                    return BranchCheckAction::Done(
                        Err(ProjectError::MissingGitRemote { remote: String::from_str(remote) }),
                    );
                }
                return BranchCheckAction::Done(Ok(false));
            }
            let urls = lines_of(chars_of(out.stdout.as_str()).as_slice());
            if urls.len() == 0 {
                return BranchCheckAction::Done(Ok(true));
            }
            assert(views(urls@)[0] == urls@[0]@);
            remote_check(urls, 0, branch)
        },
        BranchCheck::Remote { urls, index } => match out.code {
            Some(0) => BranchCheckAction::Done(
                Err(
                    ProjectError::RemoteGitBranchExists {
                        branch: String::from_str(branch),
                        remote: String::from_str(remote),
                    },
                ),
            ),
            Some(2) => {
                if index < urls.len() && index + 1 < urls.len() {
                    remote_check(urls, index + 1, branch)
                } else {
                    BranchCheckAction::Done(Ok(true))
                }
            },
            _ => {
                let mut c = chars_of("git ls-remote --exit-code --heads ");
                extend_str(&mut c, remote);
                extend_str(&mut c, " refs/heads/");
                extend_str(&mut c, branch);
                BranchCheckAction::Done(
                    Err(ProjectError::GitCommandFailed { command: string_of(c.as_slice()), stderr }),
                )
            },
        },
    }
}

} // verus!
