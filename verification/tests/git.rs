use seal::git::{
    branch_check_begin, branch_check_step, current_branch_from_output, git_root_args,
    git_root_from_output, worktree_status_check, BranchCheck, BranchCheckAction, GitOutput,
};
use seal::project::ProjectError;

fn output(success: bool, code: i32, stdout: &str, stderr: &str) -> GitOutput {
    GitOutput { success, code: Some(code), stdout: stdout.to_string(), stderr: stderr.to_string() }
}

fn run_args(a: &BranchCheckAction) -> Vec<String> {
    match a {
        BranchCheckAction::Run { args, .. } => args.clone(),
        BranchCheckAction::Done(_) => panic!("expected a run"),
    }
}

fn run_state(a: BranchCheckAction) -> BranchCheck {
    match a {
        BranchCheckAction::Run { state, .. } => state,
        BranchCheckAction::Done(_) => panic!("expected a run"),
    }
}

#[test]
fn git_root_is_the_trimmed_output() {
    assert_eq!(git_root_args(), vec!["rev-parse", "--show-toplevel"]);
    assert_eq!(git_root_from_output("/x/y", &output(true, 0, "/x\n", "")), Ok("/x".to_string()));
    assert_eq!(
        git_root_from_output("/x/y", &output(false, 128, "", "fatal")),
        Err(ProjectError::NotInGitRepository { path: "/x/y".to_string() })
    );
}

#[test]
fn current_branch_is_the_trimmed_output() {
    assert_eq!(current_branch_from_output(&output(true, 0, "main\n", "")), Ok("main".to_string()));
    let err = current_branch_from_output(&output(false, 128, "", "fatal: ref HEAD is not a symbolic ref\n"))
        .unwrap_err();
    assert!(err.to_string().contains("git symbolic-ref --short HEAD"));
    assert_eq!(
        err,
        ProjectError::GitCommandFailed {
            command: "git symbolic-ref --short HEAD".to_string(),
            stderr: "fatal: ref HEAD is not a symbolic ref".to_string(),
        }
    );
    assert_eq!(
        current_branch_from_output(&output(true, 0, "  \n", "")),
        Err(ProjectError::GitCommandFailed {
            command: "git symbolic-ref --short HEAD".to_string(),
            stderr: "Git returned an empty branch name".to_string(),
        })
    );
}

#[test]
fn clean_worktree_passes_and_changes_are_listed() {
    assert_eq!(worktree_status_check(&output(true, 0, "", "")), Ok(()));
    assert_eq!(
        worktree_status_check(&output(true, 0, "?? new.txt\nA  staged.txt\n", "")),
        Err(ProjectError::DirtyGitState { changes: "  ?? new.txt\n  A  staged.txt".to_string() })
    );
}

#[test]
fn invalid_branch_name_is_rejected() {
    let begin = branch_check_begin("bad..name");
    assert_eq!(run_args(&begin), vec!["check-ref-format", "--branch", "bad..name"]);
    let next = branch_check_step(run_state(begin), &output(false, 1, "", ""), "bad..name", "origin", true);
    assert!(matches!(
        next,
        BranchCheckAction::Done(Err(ProjectError::InvalidGitBranch { ref branch })) if branch == "bad..name"
    ));
    let head = branch_check_step(BranchCheck::Name, &output(true, 0, "HEAD\n", ""), "HEAD", "origin", true);
    assert!(matches!(head, BranchCheckAction::Done(Err(ProjectError::InvalidGitBranch { .. }))));
}

#[test]
fn existing_local_branch_is_rejected() {
    let next = branch_check_step(BranchCheck::Name, &output(true, 0, "rel\n", ""), "rel", "origin", false);
    assert_eq!(run_args(&next), vec!["show-ref", "--verify", "--quiet", "refs/heads/rel"]);
    let done = branch_check_step(run_state(next), &output(true, 0, "", ""), "rel", "origin", false);
    assert!(matches!(
        done,
        BranchCheckAction::Done(Err(ProjectError::LocalGitBranchExists { ref branch })) if branch == "rel"
    ));
}

#[test]
fn missing_remote_is_an_error_only_when_required() {
    let remotes = branch_check_step(BranchCheck::Local, &output(false, 1, "", ""), "rel", "origin", true);
    assert_eq!(run_args(&remotes), vec!["remote", "get-url", "--push", "--all", "origin"]);
    let required =
        branch_check_step(BranchCheck::Remotes, &output(false, 2, "", "error: No such remote"), "rel", "origin", true);
    assert!(matches!(
        required,
        BranchCheckAction::Done(Err(ProjectError::MissingGitRemote { ref remote })) if remote == "origin"
    ));
    let optional =
        branch_check_step(BranchCheck::Remotes, &output(false, 2, "", ""), "rel", "origin", false);
    assert!(matches!(optional, BranchCheckAction::Done(Ok(false))));
}

#[test]
fn each_push_url_is_checked_in_turn() {
    let first = branch_check_step(
        BranchCheck::Remotes,
        &output(true, 0, "git@a:x.git\ngit@b:x.git\n", ""),
        "rel",
        "origin",
        true,
    );
    assert_eq!(run_args(&first), vec!["ls-remote", "--exit-code", "--heads", "git@a:x.git", "refs/heads/rel"]);
    let second = branch_check_step(run_state(first), &output(false, 2, "", ""), "rel", "origin", true);
    assert_eq!(run_args(&second), vec!["ls-remote", "--exit-code", "--heads", "git@b:x.git", "refs/heads/rel"]);
    let state = run_state(second);
    let found = branch_check_step(state.clone(), &output(true, 0, "abc refs/heads/rel\n", ""), "rel", "origin", true);
    assert!(matches!(
        found,
        BranchCheckAction::Done(Err(ProjectError::RemoteGitBranchExists { ref branch, ref remote }))
            if branch == "rel" && remote == "origin"
    ));
    let absent = branch_check_step(state, &output(false, 2, "", ""), "rel", "origin", true);
    assert!(matches!(absent, BranchCheckAction::Done(Ok(true))));
}

#[test]
fn failing_ls_remote_is_reported() {
    let state = BranchCheck::Remote { urls: vec!["u".to_string()], index: 0 };
    let done = branch_check_step(state, &output(false, 128, "", " denied \n"), "rel", "origin", true);
    match done {
        BranchCheckAction::Done(Err(e)) => assert_eq!(
            e.to_string(),
            "Git command 'git ls-remote --exit-code --heads origin refs/heads/rel' failed: denied"
        ),
        _ => panic!("expected an error"),
    }
}
