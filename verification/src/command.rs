//! External commands (git and the like): their arguments, how they are
//! shown, and how their outcome is judged.

use vstd::prelude::*;
use vstd::string::*;

use crate::text::{
    chars_of, concat3, dec_i64, dec_int, extend_chars, extend_str, join, join_strings,
    split_words, string_of, trim, trim_chars, views, words,
};

verus! {

/// The outcome of running a command.
#[derive(Debug)]
pub struct CommandResult {
    pub success: bool,
    pub exit_code: Option<i32>,
    pub stderr: String,
}

/// A command with its arguments, like `["git", "add", "-A"]`.
#[derive(Debug)]
pub struct CommandWrapper {
    command_with_args: Vec<String>,
}

/// Why a command failed: its message.
#[derive(Debug, Clone, PartialEq, Eq)]
pub struct CommandFailed {
    pub message: String,
}

/// ` (exit code N)` for an exit code, nothing without one.
pub open spec fn exit_info(code: Option<i32>) -> Seq<char> {
    match code {
        Some(c) => " (exit code "@ + dec_int(c as int) + ")"@,
        None => seq![],
    }
}

/// The trimmed error output on a line of its own, nothing when there is
/// none.
pub open spec fn stderr_info(stderr: Seq<char>) -> Seq<char> {
    if stderr.len() == 0 {
        seq![]
    } else {
        "\n"@ + trim(stderr)
    }
}

impl CommandWrapper {
    /// The command and its arguments.
    pub closed spec fn args(&self) -> Seq<Seq<char>> {
        views(self.command_with_args@)
    }

    /// A command from its program and arguments.
    pub fn new(command_with_args: Vec<String>) -> (r: CommandWrapper)
        ensures
            r.args() == views(command_with_args@),
    {
        CommandWrapper { command_with_args }
    }

    /// The program and its arguments.
    pub fn command_with_args(&self) -> (r: &[String])
        ensures
            views(r@) == self.args(),
    {
        self.command_with_args.as_slice()
    }

    /// The command as shown to the user: its parts joined by spaces.
    pub fn as_string(&self) -> (r: String)
        ensures
            r@ == join(self.args(), " "@),
    {
        string_of(join_strings(&self.command_with_args, " ").as_slice())
    }

    /// The line written before the command runs.
    pub fn announcement(&self) -> (r: String)
        ensures
            r@ == "Executing command: `"@ + join(self.args(), " "@) + "`\n"@,
    {
        let s = self.as_string();
        concat3("Executing command: `", s.as_str(), "`\n")
    }

    /// Judges the outcome of running the command: an error naming the
    /// command, its exit code and its error output when it did not succeed.
    pub fn execute(&self, result: &CommandResult) -> (r: Result<(), CommandFailed>)
        ensures
            result.success ==> r is Ok,
            !result.success ==> r is Err && r->Err_0.message@ == "Command `"@ + join(
                self.args(),
                " "@,
            ) + "` failed"@ + exit_info(result.exit_code) + stderr_info(result.stderr@),
    {
        if result.success {
            return Ok(());
        }
        let s = self.as_string();
        let mut m = chars_of("Command `");
        extend_str(&mut m, s.as_str());
        extend_str(&mut m, "` failed");
        match result.exit_code {
            Some(c) => {
                extend_str(&mut m, " (exit code ");
                let d = dec_i64(c as i64);
                extend_chars(&mut m, d.as_slice());
                extend_str(&mut m, ")");
            },
            None => {},
        }
        if !result.stderr.as_str().is_empty() {
            extend_str(&mut m, "\n");
            let t = trim_chars(chars_of(result.stderr.as_str()).as_slice());
            extend_chars(&mut m, t.as_slice());
        }
        Err(CommandFailed { message: string_of(m.as_slice()) })
    }

    /// `git add -A`.
    pub fn git_add_all() -> (r: CommandWrapper)
        ensures
            r.args() == seq!["git"@, "add"@, "-A"@],
    {
        let mut v: Vec<String> = Vec::new();
        v.push(String::from_str("git"));
        v.push(String::from_str("add"));
        v.push(String::from_str("-A"));
        assert(views(v@) == seq!["git"@, "add"@, "-A"@]);
        CommandWrapper::new(v)
    }

    /// `git commit -m MESSAGE`.
    pub fn git_commit(message: &str) -> (r: CommandWrapper)
        ensures
            r.args() == seq!["git"@, "commit"@, "-m"@, message@],
    {
        let mut v: Vec<String> = Vec::new();
        v.push(String::from_str("git"));
        v.push(String::from_str("commit"));
        v.push(String::from_str("-m"));
        v.push(String::from_str(message));
        assert(views(v@) == seq!["git"@, "commit"@, "-m"@, message@]);
        CommandWrapper::new(v)
    }

    /// `git checkout -b NAME`.
    pub fn create_branch(name: &str) -> (r: CommandWrapper)
        ensures
            r.args() == seq!["git"@, "checkout"@, "-b"@, name@],
    {
        let mut v: Vec<String> = Vec::new();
        v.push(String::from_str("git"));
        v.push(String::from_str("checkout"));
        v.push(String::from_str("-b"));
        v.push(String::from_str(name));
        assert(views(v@) == seq!["git"@, "checkout"@, "-b"@, name@]);
        CommandWrapper::new(v)
    }

    /// `git push origin BRANCH`.
    pub fn git_push_branch(branch_name: &str) -> (r: CommandWrapper)
        ensures
            r.args() == seq!["git"@, "push"@, "origin"@, branch_name@],
    {
        let mut v: Vec<String> = Vec::new();
        v.push(String::from_str("git"));
        v.push(String::from_str("push"));
        v.push(String::from_str("origin"));
        v.push(String::from_str(branch_name));
        assert(views(v@) == seq!["git"@, "push"@, "origin"@, branch_name@]);
        CommandWrapper::new(v)
    }

    /// A command from a shell command line, split on whitespace (quotes are
    /// not understood).
    pub fn custom(command: &str) -> (r: CommandWrapper)
        ensures
            r.args() == words(command@),
    {
        let c = chars_of(command);
        CommandWrapper::new(split_words(c.as_slice()))
    }
}

} // verus!
