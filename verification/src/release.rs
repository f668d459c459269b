//! The plan of a release bump: the new version, the release branch and
//! commit, the git commands to run, and what is shown before they run.

use vstd::prelude::*;
use vstd::string::*;

use crate::bump::{calculate_new_version, calculate_spec, CalculateError, CalculateErrorView, VersionBump};
use crate::command::CommandWrapper;
use crate::config::ReleaseConfig;
use crate::file_change::{
    rule_chars, rule_line, strip_path_prefix, unified_diff, FileChange, FileChanges, FileResolver,
};
use crate::text::{
    chars_of, concat3, extend_chars, extend_str, join, lower_text, lowercase_str, replace_all,
    str_replace, string_of, trim, trim_chars, views,
};
use crate::version::{version_text, Version, VersionView};

verus! {

/// What a bump will do.
#[derive(Debug)]
pub struct BumpPlan {
    /// The version in `seal.toml` before the bump.
    pub current_version: String,
    /// The version after the bump.
    pub new_version: Version,
    /// The release branch, from the configured template.
    pub branch_name: Option<String>,
    /// The commit message, from the configured template.
    pub commit_message: Option<String>,
    /// The git commands to run after the files are updated, in order.
    pub commands: Vec<CommandWrapper>,
}

/// Why a bump cannot be planned.
#[derive(Debug, Clone, PartialEq, Eq)]
pub enum BumpError {
    /// The workspace at `root` has no `[release]` section.
    NoReleaseConfig { root: String },
    /// The new version cannot be calculated.
    Version(CalculateError),
}

impl BumpError {
    /// The error's message.
    pub fn to_string(&self) -> (r: String)
        ensures
            match self {
                BumpError::NoReleaseConfig { root } => r@
                    == "No release configuration found in discovered workspace at `"@ + root@
                    + "`"@,
                BumpError::Version(e) => r@ == crate::bump::calculate_error_text(e@),
            },
    {
        match self {
            BumpError::NoReleaseConfig { root } => concat3(
                "No release configuration found in discovered workspace at `",
                root.as_str(),
                "`",
            ),
            BumpError::Version(e) => e.to_string(),
        }
    }
}

/// A template with each `{version}` replaced by the version.
pub open spec fn with_version(template: Seq<char>, version: Seq<char>) -> Seq<char> {
    replace_all(template, "{version}"@, version)
}

/// The git commands of a release: create the branch (when there is one),
/// stage and commit (when there is a commit message), push the branch
/// (when pushing and there is a branch).
pub open spec fn release_commands(branch: Option<Seq<char>>, message: Option<Seq<char>>, push: bool) -> Seq<
    Seq<Seq<char>>,
> {
    (match branch {
        Some(b) => seq![seq!["git"@, "checkout"@, "-b"@, b]],
        None => seq![],
    }) + (match message {
        Some(m) => seq![seq!["git"@, "add"@, "-A"@], seq!["git"@, "commit"@, "-m"@, m]],
        None => seq![],
    }) + (match branch {
        Some(b) => if push {
            seq![seq!["git"@, "push"@, "origin"@, b]]
        } else {
            seq![]
        },
        None => seq![],
    })
}

/// The arguments of each command.
pub open spec fn commands_view(cs: Seq<CommandWrapper>) -> Seq<Seq<Seq<char>>> {
    cs.map_values(|c: CommandWrapper| c.args())
}

/// The text of an optional template filled with the version.
pub open spec fn filled(template: Option<Seq<char>>, version: Seq<char>) -> Option<Seq<char>> {
    match template {
        Some(t) => Some(with_version(t, version)),
        None => None,
    }
}

/// The git commands for the branch, commit message and push setting.
pub fn plan_commands(branch: &Option<String>, message: &Option<String>, push: bool) -> (r: Vec<
    CommandWrapper,
>)
    ensures
        commands_view(r@) == release_commands(
            crate::text::opt_view(*branch),
            crate::text::opt_view(*message),
            push,
        ),
{
    let mut commands: Vec<CommandWrapper> = Vec::new();
    match branch {
        Some(b) => {
            let c = CommandWrapper::create_branch(b.as_str());
            commands.push(c);
        },
        None => {},
    }
    let ghost after_branch = commands_view(commands@);
    match message {
        Some(m) => {
            let a = CommandWrapper::git_add_all();
            commands.push(a);
            let c = CommandWrapper::git_commit(m.as_str());
            commands.push(c);
        },
        None => {},
    }
    let ghost after_commit = commands_view(commands@);
    if push {
        match branch {
            Some(b) => {
                let c = CommandWrapper::git_push_branch(b.as_str());
                commands.push(c);
            },
            None => {},
        }
    }
    assert(commands_view(commands@) =~= release_commands(
        crate::text::opt_view(*branch),
        crate::text::opt_view(*message),
        push,
    ));
    commands
}

/// Plans a bump of the project at `root` with its `[release]` section:
/// the new version, the branch name and commit message from their
/// templates, and the git commands.
pub fn plan_bump(root: &str, release: &Option<ReleaseConfig>, bump: &VersionBump) -> (r: Result<
    BumpPlan,
    BumpError,
>)
    ensures
        match release {
            None => r is Err && r->Err_0 is NoReleaseConfig && r->Err_0->root@ == root@,
            Some(rc) => match calculate_spec(rc.current_version@, bump@) {
                Err(e) => r is Err && r->Err_0 is Version && r->Err_0->Version_0@ == e,
                Ok(v) => r is Ok && {
                    let p = r->Ok_0;
                    &&& p.current_version@ == rc.current_version@
                    &&& p.new_version@ == v
                    &&& crate::text::opt_view(p.branch_name) == filled(
                        match rc.branch_name {
                            Some(b) => Some(b@),
                            None => None,
                        },
                        version_text(v),
                    )
                    &&& crate::text::opt_view(p.commit_message) == filled(
                        match rc.commit_message {
                            Some(m) => Some(m@),
                            None => None,
                        },
                        version_text(v),
                    )
                    &&& commands_view(p.commands@) == release_commands(
                        crate::text::opt_view(p.branch_name),
                        crate::text::opt_view(p.commit_message),
                        rc.push,
                    )
                },
            },
        },
{
    let rc = match release {
        Some(rc) => rc,
        None => {
            return Err(BumpError::NoReleaseConfig { root: String::from_str(root) });
        },
    };
    let new_version = match calculate_new_version(rc.current_version.as_str(), bump) {
        Ok(v) => v,
        Err(e) => {
            return Err(BumpError::Version(e));
        },
    };
    let text = new_version.to_string();
    let branch_name = match &rc.branch_name {
        Some(b) => Some(str_replace(b.as_str(), "{version}", text.as_str())),
        None => None,
    };
    let commit_message = match &rc.commit_message {
        Some(m) => Some(str_replace(m.as_str(), "{version}", text.as_str())),
        None => None,
    };
    let commands = plan_commands(&branch_name, &commit_message, rc.push);
    Ok(
        BumpPlan {
            current_version: rc.current_version.clone(),
            new_version,
            branch_name,
            commit_message,
            commands,
        },
    )
}

/// The lines that announce a bump: the old and the new version, then a
/// blank line.
pub fn bump_announcement(plan: &BumpPlan) -> (r: String)
    ensures
        r@ == "Bumping version from "@ + plan.current_version@ + " to "@ + version_text(
            plan.new_version@,
        ) + "\n\n"@,
{
    let v = plan.new_version.to_string();
    let mut t = chars_of("Bumping version from ");
    extend_str(&mut t, plan.current_version.as_str());
    extend_str(&mut t, " to ");
    extend_str(&mut t, v.as_str());
    extend_str(&mut t, "\n\n");
    string_of(t.as_slice())
}

/// A path as shown relative to the root.
pub open spec fn shown_path(path: Seq<char>, root: Seq<char>) -> Seq<char> {
    match strip_path_prefix(path, root) {
        Some(rest) => rest,
        None => path,
    }
}

/// How a change is shown: its diff under its relative path, then a rule.
pub open spec fn change_display(c: FileChange, root: Seq<char>, width: usize) -> Seq<char> {
    unified_diff(c.old_view(), c.new_view(), shown_path(c.path_view(), root)) + rule_line(12, width)
}

/// The diffs of the changes, in order.
pub open spec fn change_displays(cs: Seq<FileChange>, root: Seq<char>, width: usize) -> Seq<char>
    decreases cs.len(),
{
    if cs.len() == 0 {
        seq![]
    } else {
        change_displays(cs.drop_last(), root, width) + change_display(cs.last(), root, width)
    }
}

/// The list of the files to update, one line each.
pub open spec fn update_lines(cs: Seq<FileChange>, root: Seq<char>) -> Seq<char>
    decreases cs.len(),
{
    if cs.len() == 0 {
        seq![]
    } else {
        update_lines(cs.drop_last(), root) + "  - Update `"@ + shown_path(cs.last().path_view(), root)
            + "`\n"@
    }
}

/// The preview of a bump's changes: a heading and a rule, the diff of each
/// change, a blank line, then the list of files to update and a blank line.
pub open spec fn preview_text(cs: Seq<FileChange>, root: Seq<char>, width: usize) -> Seq<char> {
    "Preview of changes:\n"@ + rule_line(13, width) + change_displays(cs, root, width) + "\n"@
        + "Changes to be made:\n"@ + update_lines(cs, root) + "\n"@
}

/// The preview of a bump's changes (see [`preview_text`]), with rules as
/// wide as the terminal's `width`.
pub fn changes_preview(changes: &FileChanges, file_resolver: &FileResolver, width: usize) -> (r:
    String)
    ensures
        r@ == preview_text(changes.changes(), file_resolver.root_view(), width),
{
    let cs = changes.iter();
    let ghost root = file_resolver.root_view();
    let n = cs.len();
    let mut t = chars_of("Preview of changes:\n");
    let rule = rule_chars(13, width);
    extend_chars(&mut t, rule.as_slice());
    let ghost head = t@;
    for i in 0..n
        invariant
            n == cs@.len(),
            cs@ == changes.changes(),
            root == file_resolver.root_view(),
            t@ == head + change_displays(cs@.take(i as int), root, width),
    {
        assert(cs@.take(i + 1).drop_last() == cs@.take(i as int));
        assert(cs@.take(i + 1).last() == cs@[i as int]);
        let d = cs[i].display_diff(file_resolver, width);
        extend_str(&mut t, d.as_str());
    }
    assert(cs@.take(n as int) == cs@);
    extend_str(&mut t, "\n");
    extend_str(&mut t, "Changes to be made:\n");
    let ghost mid = t@;
    for i in 0..n
        invariant
            n == cs@.len(),
            cs@ == changes.changes(),
            root == file_resolver.root_view(),
            t@ == mid + update_lines(cs@.take(i as int), root),
    {
        assert(cs@.take(i + 1).drop_last() == cs@.take(i as int));
        assert(cs@.take(i + 1).last() == cs@[i as int]);
        let rel = file_resolver.relative_path(cs[i].path().as_str());
        let ghost before = t@;
        extend_str(&mut t, "  - Update `");
        extend_str(&mut t, rel.as_str());
        extend_str(&mut t, "`\n");
        assert(t@ == before + "  - Update `"@ + rel@ + "`\n"@);
    }
    assert(cs@.take(n as int) == cs@);
    extend_str(&mut t, "\n");
    string_of(t.as_slice())
}

/// The lines listing the commands.
pub open spec fn command_lines(cs: Seq<CommandWrapper>) -> Seq<char>
    decreases cs.len(),
{
    if cs.len() == 0 {
        seq![]
    } else {
        command_lines(cs.drop_last()) + "  `"@ + join(cs.last().args(), " "@) + "`\n"@
    }
}

/// The commands that will run, under a heading and followed by a blank
/// line; nothing when there are none.
pub fn commands_listing(commands: &[CommandWrapper]) -> (r: String)
    ensures
        commands@.len() == 0 ==> r@.len() == 0,
        commands@.len() > 0 ==> r@ == "Commands to be executed:\n"@ + command_lines(commands@)
            + "\n"@,
{
    let n = commands.len();
    if n == 0 {
        return String::new();
    }
    let mut t = chars_of("Commands to be executed:\n");
    let ghost head = t@;
    for i in 0..n
        invariant
            n == commands@.len(),
            t@ == head + command_lines(commands@.take(i as int)),
    {
        assert(commands@.take(i + 1).drop_last() == commands@.take(i as int));
        assert(commands@.take(i + 1).last() == commands@[i as int]);
        let s = commands[i].as_string();
        let ghost before = t@;
        extend_str(&mut t, "  `");
        extend_str(&mut t, s.as_str());
        extend_str(&mut t, "`\n");
        assert(t@ == before + "  `"@ + s@ + "`\n"@);
    }
    assert(commands@.take(n as int) == commands@);
    extend_str(&mut t, "\n");
    string_of(t.as_slice())
}

/// An answer that confirms: `y` or `yes`, in any case, around whitespace.
pub open spec fn confirms(answer: Seq<char>) -> bool {
    let a = lower_text(trim(answer));
    a == "y"@ || a == "yes"@
}

/// Whether the answer to the confirmation prompt confirms.
pub fn is_confirmation(answer: &str) -> (r: bool)
    ensures
        r == confirms(answer@),
{
    let t = string_of(trim_chars(chars_of(answer).as_slice()).as_slice());
    let lower = lowercase_str(t.as_str());
    let lc = chars_of(lower.as_str());
    crate::text::str_eq_chars("y", lc.as_slice()) || crate::text::str_eq_chars("yes", lc.as_slice())
}

/// What a bump does once its changes have been previewed.
#[derive(Debug, Clone, Copy, PartialEq, Eq)]
pub enum BumpStep {
    /// A dry run: stop, having changed nothing.
    FinishDryRun,
    /// Ask whether to go on (after listing the commands).
    AskConfirmation,
    /// Write the files and run the commands.
    Apply,
    /// The answer declined: stop, having changed nothing.
    Decline,
}

/// The next step of a bump after the preview, from whether it is a dry
/// run, whether the configuration asks for confirmation, and the answer to
/// the question once it was asked: a dry run stops; else, without
/// confirmation the changes are applied; with it, the question is asked,
/// and an answer that confirms applies them while any other declines.
pub fn bump_step(dry_run: bool, confirm: bool, answer: Option<&str>) -> (r: BumpStep)
    ensures
        r == if dry_run {
            BumpStep::FinishDryRun
        } else if !confirm {
            BumpStep::Apply
        } else {
            match answer {
                None => BumpStep::AskConfirmation,
                Some(a) => if confirms(a@) {
                    BumpStep::Apply
                } else {
                    BumpStep::Decline
                },
            }
        },
{
    if dry_run {
        return BumpStep::FinishDryRun;
    }
    if !confirm {
        return BumpStep::Apply;
    }
    match answer {
        None => BumpStep::AskConfirmation,
        Some(a) => if is_confirmation(a) {
            BumpStep::Apply
        } else {
            BumpStep::Decline
        },
    }
}

/// The release branch and commit message of a bump name its new version:
/// a template that names `{version}` (as every configured branch name and
/// commit message does), filled with a version, holds that version.
pub proof fn law_release_names_carry_version(template: Seq<char>, version: Seq<char>)
    requires
        crate::config::is_version_template(template),
    ensures
        crate::text::contains(with_version(template, version), version),
{
    reveal_strlit("{version}");
    crate::text::lemma_replace_all_contains(template, "{version}"@, version);
}

/// A configuration that passes validation and pushes (or opens a pull
/// request) has a release branch, and the planned commands end by pushing
/// it.
pub proof fn law_valid_pushing_release_pushes_its_branch(
    branch: Option<Seq<char>>,
    message: Option<Seq<char>>,
    push: bool,
    create_pr: bool,
)
    requires
        crate::config::release_check(push, create_pr, branch is Some) is None,
        push || create_pr,
    ensures
        push,
        branch is Some,
        release_commands(branch, message, push).len() > 0,
        release_commands(branch, message, push).last() == seq![
            "git"@,
            "push"@,
            "origin"@,
            branch->Some_0,
        ],
{
}

/// A release that does not push plans no push: no planned command is a
/// `git push`. A release that pushes plans exactly one push, of its branch,
/// when it has a branch.
pub proof fn law_no_push_unless_asked(branch: Option<Seq<char>>, message: Option<Seq<char>>, push: bool)
    ensures
        !push ==> forall|i: int|
            0 <= i < release_commands(branch, message, push).len() ==> (#[trigger] release_commands(
                branch,
                message,
                push,
            )[i])[1] != "push"@,
        branch is None ==> forall|i: int|
            0 <= i < release_commands(branch, message, push).len() ==> (#[trigger] release_commands(
                branch,
                message,
                push,
            )[i])[1] != "push"@,
        push && branch is Some ==> release_commands(branch, message, push).len() > 0
            && release_commands(branch, message, push).last() == seq![
            "git"@,
            "push"@,
            "origin"@,
            branch->Some_0,
        ],
{
    reveal_strlit("push");
    reveal_strlit("checkout");
    reveal_strlit("add");
    reveal_strlit("commit");
    assert("checkout"@[0] != "push"@[0]);
    assert("add"@[0] != "push"@[0]);
    assert("commit"@[0] != "push"@[0]);
}

} // verus!
