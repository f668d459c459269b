use seal::bump::{CalculateError, VersionBump, VersionBumpError};
use seal::command::{CommandFailed, CommandResult, CommandWrapper};
use seal::config::{BranchName, CommitMessage, ReleaseConfig};
use seal::file_change::{FileChange, FileChanges, FileResolver};
use seal::release::{
    bump_announcement, bump_step, changes_preview, commands_listing, is_confirmation, plan_bump,
    plan_commands, BumpError, BumpStep,
};
use seal::version::Version;

fn args_of(c: &CommandWrapper) -> Vec<String> {
    c.command_with_args().to_vec()
}

#[test]
fn command_constructors() {
    assert_eq!(args_of(&CommandWrapper::git_add_all()), vec!["git", "add", "-A"]);
    assert_eq!(args_of(&CommandWrapper::git_commit("Release 1.0.0")), vec![
        "git",
        "commit",
        "-m",
        "Release 1.0.0"
    ]);
    assert_eq!(args_of(&CommandWrapper::create_branch("release/1.0.0")), vec![
        "git",
        "checkout",
        "-b",
        "release/1.0.0"
    ]);
    assert_eq!(args_of(&CommandWrapper::git_push_branch("rel")), vec!["git", "push", "origin", "rel"]);
}

#[test]
fn custom_command_splits_on_whitespace() {
    let c = CommandWrapper::custom("  uv   lock --upgrade ");
    assert_eq!(args_of(&c), vec!["uv", "lock", "--upgrade"]);
    assert_eq!(c.as_string(), "uv lock --upgrade");
    assert_eq!(c.announcement(), "Executing command: `uv lock --upgrade`\n");
}

#[test]
fn command_execute_reports_failure() {
    let c = CommandWrapper::git_add_all();
    let ok = CommandResult { success: true, exit_code: Some(0), stderr: String::new() };
    assert_eq!(c.execute(&ok), Ok(()));
    let failed = CommandResult {
        success: false,
        exit_code: Some(128),
        stderr: "  fatal: not a git repository\n".to_string(),
    };
    assert_eq!(
        c.execute(&failed),
        Err(CommandFailed {
            message: "Command `git add -A` failed (exit code 128)\nfatal: not a git repository"
                .to_string()
        })
    );
    let killed = CommandResult { success: false, exit_code: None, stderr: String::new() };
    assert_eq!(
        c.execute(&killed),
        Err(CommandFailed { message: "Command `git add -A` failed".to_string() })
    );
}

fn release(branch: Option<&str>, message: Option<&str>, push: bool) -> ReleaseConfig {
    ReleaseConfig {
        current_version: "1.2.3".to_string(),
        version_files: None,
        commit_message: message.map(|m| CommitMessage::new(m.to_string()).unwrap()),
        branch_name: branch.map(|b| BranchName::new(b.to_string()).unwrap()),
        push,
        create_pr: false,
        confirm: true,
    }
}

#[test]
fn plan_bump_fills_templates_and_commands() {
    let rc = release(Some("release/v{version}"), Some("Release v{version}"), true);
    let plan = plan_bump("/proj", &Some(rc), &VersionBump::Minor).unwrap();
    assert_eq!(plan.current_version, "1.2.3");
    assert_eq!(plan.new_version, Version::parse("1.3.0").unwrap());
    assert_eq!(plan.branch_name.as_deref(), Some("release/v1.3.0"));
    assert_eq!(plan.commit_message.as_deref(), Some("Release v1.3.0"));
    let cmds: Vec<Vec<String>> = plan.commands.iter().map(args_of).collect();
    assert_eq!(cmds, vec![
        vec!["git", "checkout", "-b", "release/v1.3.0"],
        vec!["git", "add", "-A"],
        vec!["git", "commit", "-m", "Release v1.3.0"],
        vec!["git", "push", "origin", "release/v1.3.0"],
    ]);
    assert_eq!(bump_announcement(&plan), "Bumping version from 1.2.3 to 1.3.0\n\n");
}

#[test]
fn plan_bump_without_branch_does_not_push() {
    let rc = release(None, Some("Release {version}"), true);
    let plan = plan_bump("/proj", &Some(rc), &VersionBump::Patch).unwrap();
    let cmds: Vec<Vec<String>> = plan.commands.iter().map(args_of).collect();
    assert_eq!(cmds, vec![vec!["git", "add", "-A"], vec!["git", "commit", "-m", "Release 1.2.4"]]);
}

#[test]
fn plan_bump_errors() {
    let err = plan_bump("/proj", &None, &VersionBump::Patch).unwrap_err();
    assert_eq!(err, BumpError::NoReleaseConfig { root: "/proj".to_string() });
    assert_eq!(
        err.to_string(),
        "No release configuration found in discovered workspace at `/proj`"
    );
    let rc = release(None, None, false);
    let err = plan_bump("/proj", &Some(rc), &VersionBump::Explicit("1.2.3".to_string())).unwrap_err();
    assert!(matches!(
        err,
        BumpError::Version(CalculateError::Bump(VersionBumpError::ExplicitVersionSame { .. }))
    ));
}

#[test]
fn plan_commands_without_anything_is_empty() {
    assert!(plan_commands(&None, &None, true).is_empty());
    assert_eq!(commands_listing(&[]), "");
}

#[test]
fn commands_listing_lists_each_command() {
    let cmds = vec![CommandWrapper::git_add_all(), CommandWrapper::git_commit("m")];
    assert_eq!(
        commands_listing(&cmds),
        "Commands to be executed:\n  `git add -A`\n  `git commit -m m`\n\n"
    );
}

#[test]
fn preview_lists_diffs_and_files() {
    let changes = FileChanges::new(vec![FileChange::new(
        "/proj/VERSION".to_string(),
        "1.0.0\n".to_string(),
        "1.1.0\n".to_string(),
    )]);
    let resolver = FileResolver::new("/proj".to_string());
    let rule12 = "─".repeat(12);
    let rule13 = "─".repeat(13);
    assert_eq!(
        changes_preview(&changes, &resolver, 10),
        format!(
            "Preview of changes:\n{rule13}\n--- VERSION\n+++ VERSION\n@@ -1 +1 @@\n-1.0.0\n+1.1.0\n{rule12}\n\nChanges to be made:\n  - Update `VERSION`\n\n"
        )
    );
}

#[test]
fn confirmation_answers() {
    assert!(is_confirmation("y"));
    assert!(is_confirmation("  YES \n"));
    assert!(is_confirmation("Yes"));
    assert!(!is_confirmation("n"));
    assert!(!is_confirmation(""));
    assert!(!is_confirmation("yess"));
}

#[test]
fn a_valid_pushing_release_ends_by_pushing_its_branch() {
    let rc = release(Some("rel-{version}"), None, true);
    assert_eq!(rc.validate(), Ok(()));
    let plan = plan_bump("/proj", &Some(rc), &VersionBump::Major).unwrap();
    let last = plan.commands.last().map(args_of).unwrap();
    assert_eq!(last, vec!["git", "push", "origin", "rel-2.0.0"]);
    assert!(plan.branch_name.unwrap().contains("2.0.0"));
}

#[test]
fn bump_steps_after_the_preview() {
    assert_eq!(bump_step(true, true, None), BumpStep::FinishDryRun);
    assert_eq!(bump_step(true, false, Some("y")), BumpStep::FinishDryRun);
    assert_eq!(bump_step(false, false, None), BumpStep::Apply);
    assert_eq!(bump_step(false, true, None), BumpStep::AskConfirmation);
    assert_eq!(bump_step(false, true, Some(" Yes\n")), BumpStep::Apply);
    assert_eq!(bump_step(false, true, Some("n\n")), BumpStep::Decline);
    assert_eq!(bump_step(false, true, Some("")), BumpStep::Decline);
}
