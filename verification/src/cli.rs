//! The command line: its arguments as plain values, the settings and
//! output modes they select, and the messages of the commands.

use vstd::prelude::*;
use vstd::string::*;

use crate::text::{chars_of, concat2, concat3, dec, dec_u64, extend_chars, extend_str, string_of, views};

verus! {

/// How `seal self version` writes the version.
#[derive(Debug, Clone, Copy, PartialEq, Eq)]
pub enum VersionFormat {
    /// Display the version as plain text.
    Text,
    /// Display the version as JSON.
    Json,
}

/// Whether output is colored.
#[derive(Debug, Clone, Copy, PartialEq, Eq)]
pub enum ColorChoice {
    /// Enables colored output only when the output is going to a terminal or TTY with support.
    Auto,
    /// Enables colored output regardless of the detected environment.
    Always,
    /// Disables colored output.
    Never,
}

/// The choice that the terminal stream makes for itself (the values of
/// `anstream::ColorChoice`).
#[derive(Debug, Clone, Copy, PartialEq, Eq)]
pub enum StreamColorChoice {
    Auto,
    AlwaysAnsi,
    Always,
    Never,
}

impl ColorChoice {
    /// The choice combined with the stream's: `auto` defers to the stream,
    /// an explicit choice stays.
    pub fn and_colorchoice(self, next: StreamColorChoice) -> (r: ColorChoice)
        ensures
            self == ColorChoice::Auto ==> r == match next {
                StreamColorChoice::Auto => ColorChoice::Auto,
                StreamColorChoice::AlwaysAnsi | StreamColorChoice::Always => ColorChoice::Always,
                StreamColorChoice::Never => ColorChoice::Never,
            },
            self != ColorChoice::Auto ==> r == self,
    {
        match self {
            ColorChoice::Auto => match next {
                StreamColorChoice::Auto => ColorChoice::Auto,
                StreamColorChoice::AlwaysAnsi | StreamColorChoice::Always => ColorChoice::Always,
                StreamColorChoice::Never => ColorChoice::Never,
            },
            ColorChoice::Always | ColorChoice::Never => self,
        }
    }
}

/// The options that every command takes.
#[derive(Debug, Clone)]
pub struct GlobalArgs {
    /// Use quiet output (repeated: silent).
    pub quiet: u8,
    /// Use verbose output.
    pub verbose: u8,
    /// Hide all progress outputs.
    pub no_progress: bool,
    /// Disable colors.
    pub no_color: bool,
    /// Control the use of color in output.
    pub color: Option<ColorChoice>,
}

/// The top-level options.
#[derive(Debug)]
pub struct TopLevelArgs {
    pub global_args: Box<GlobalArgs>,
    help: Option<bool>,
    version: Option<bool>,
}

impl TopLevelArgs {
    /// The global options.
    pub closed spec fn globals(&self) -> GlobalArgs {
        *self.global_args
    }

    /// The top-level options with the global ones.
    pub fn new(global_args: GlobalArgs) -> (r: TopLevelArgs)
        ensures
            r.globals() == global_args,
    {
        TopLevelArgs { global_args: Box::new(global_args), help: None, version: None }
    }
}

/// The whole command line.
#[derive(Debug)]
pub struct Cli {
    pub command: Box<Commands>,
    pub top_level: TopLevelArgs,
}

/// The commands.
#[derive(Debug)]
pub enum Commands {
    /// Manage the seal executable.
    Self_(SelfNamespace),
    /// Validate project configuration and structure.
    Validate(ValidateNamespace),
    /// Bump version and create release branch.
    Bump(BumpArgs),
    /// Generate project files.
    Generate(GenerateNamespace),
    /// Display documentation for a command.
    Help(HelpArgs),
}

/// The arguments of `seal bump`.
#[derive(Debug)]
pub struct BumpArgs {
    /// The version bump to perform (e.g., `major`, `minor`, `patch`, `alpha`, `major-beta`, or an
    /// explicit version).
    pub version: String,
    /// Show what would be done without making any changes.
    pub dry_run: bool,
    /// Skip the changelog update.
    pub no_changelog: bool,
}

/// The arguments of `seal help`.
#[derive(Debug)]
pub struct HelpArgs {
    /// Disable pager when printing help.
    pub no_pager: bool,
    pub command: Option<Vec<String>>,
}

/// `seal self`.
#[derive(Debug)]
pub struct SelfNamespace {
    pub command: SelfCommand,
}

/// The commands of `seal self`.
#[derive(Debug)]
pub enum SelfCommand {
    /// Display seal's version.
    Version { short: bool, output_format: VersionFormat },
}

/// `seal validate`.
#[derive(Debug)]
pub struct ValidateNamespace {
    pub command: ValidateCommand,
}

/// The commands of `seal validate`.
#[derive(Debug)]
pub enum ValidateCommand {
    /// Validate only the configuration file.
    Config { config_file: Option<String> },
    /// Validate full project workspace including members.
    Project { project: Option<String> },
}

/// `seal generate`.
#[derive(Debug)]
pub struct GenerateNamespace {
    pub command: GenerateCommand,
}

/// The commands of `seal generate`.
#[derive(Debug)]
pub enum GenerateCommand {
    /// Generate a changelog of every release.
    Changelog { dry_run: bool, max_prs: Option<usize>, overwrite: Option<bool> },
}

/// The settings that the global options select.
#[derive(Debug, Clone)]
pub struct GlobalSettings {
    pub quiet: u8,
    pub verbose: u8,
    pub no_progress: bool,
    pub color: ColorChoice,
}

impl GlobalSettings {
    /// The settings from the global options: `--no-color` means never,
    /// else the `--color` choice, else auto.
    pub fn resolve(args: &GlobalArgs) -> (r: GlobalSettings)
        ensures
            r.quiet == args.quiet,
            r.verbose == args.verbose,
            r.no_progress == args.no_progress,
            r.color == if args.no_color {
                ColorChoice::Never
            } else {
                match args.color {
                    Some(c) => c,
                    None => ColorChoice::Auto,
                }
            },
    {
        GlobalSettings {
            quiet: args.quiet,
            verbose: args.verbose,
            no_progress: args.no_progress,
            color: if args.no_color {
                ColorChoice::Never
            } else {
                match args.color {
                    Some(c) => c,
                    None => ColorChoice::Auto,
                }
            },
        }
    }
}

/// How much of the output is written.
#[derive(Debug, Clone, Copy, PartialEq, Eq)]
pub enum Printer {
    /// Suppresses all output.
    Silent,
    /// Suppresses most output, but keeps "important" stdout.
    Quiet,
    /// Writes to the standard streams.
    Default,
    /// Writes all output, including debug messages.
    Verbose,
    /// Writes to the standard streams, without progress output.
    NoProgress,
}

/// Whether standard output is written.
#[derive(Debug, Clone, Copy, PartialEq, Eq)]
pub enum Stdout {
    Enabled,
    Disabled,
}

/// Whether standard error is written.
#[derive(Debug, Clone, Copy, PartialEq, Eq)]
pub enum Stderr {
    Enabled,
    Disabled,
}

impl Printer {
    /// The output for important messages: off only when silent.
    pub fn stdout_important(self) -> (r: Stdout)
        ensures
            (r == Stdout::Disabled) <==> (self == Printer::Silent),
    {
        match self {
            Printer::Silent => Stdout::Disabled,
            Printer::Quiet => Stdout::Enabled,
            Printer::Default => Stdout::Enabled,
            Printer::Verbose => Stdout::Enabled,
            Printer::NoProgress => Stdout::Enabled,
        }
    }

    /// The standard output: off when silent or quiet.
    pub fn stdout(self) -> (r: Stdout)
        ensures
            (r == Stdout::Disabled) <==> (self == Printer::Silent || self == Printer::Quiet),
    {
        match self {
            Printer::Silent => Stdout::Disabled,
            Printer::Quiet => Stdout::Disabled,
            Printer::Default => Stdout::Enabled,
            Printer::Verbose => Stdout::Enabled,
            Printer::NoProgress => Stdout::Enabled,
        }
    }

    /// The standard error: off when silent or quiet.
    pub fn stderr(self) -> (r: Stderr)
        ensures
            (r == Stderr::Disabled) <==> (self == Printer::Silent || self == Printer::Quiet),
    {
        match self {
            Printer::Silent => Stderr::Disabled,
            Printer::Quiet => Stderr::Disabled,
            Printer::Default => Stderr::Enabled,
            Printer::Verbose => Stderr::Enabled,
            Printer::NoProgress => Stderr::Enabled,
        }
    }

    /// Whether debug messages are shown.
    pub fn is_verbose(self) -> (r: bool)
        ensures
            r <==> self == Printer::Verbose,
    {
        match self {
            Printer::Silent => false,
            Printer::Quiet => false,
            Printer::Default => false,
            Printer::Verbose => true,
            Printer::NoProgress => false,
        }
    }

    /// The printer that the settings select: one `-q` quiet, more silent;
    /// else verbose for any `-v`; else without progress output when asked;
    /// else the default.
    pub fn from_settings(settings: &GlobalSettings) -> (r: Printer)
        ensures
            r == if settings.quiet == 1 {
                Printer::Quiet
            } else if settings.quiet > 1 {
                Printer::Silent
            } else if settings.verbose > 0 {
                Printer::Verbose
            } else if settings.no_progress {
                Printer::NoProgress
            } else {
                Printer::Default
            },
    {
        if settings.quiet == 1 {
            Printer::Quiet
        } else if settings.quiet > 1 {
            Printer::Silent
        } else if settings.verbose > 0 {
            Printer::Verbose
        } else if settings.no_progress {
            Printer::NoProgress
        } else {
            Printer::Default
        }
    }
}

/// How much is logged.
#[derive(Debug, Clone, Copy, PartialEq, Eq)]
pub enum Level {
    Default,
    Verbose,
    Debug,
    Trace,
    TraceAll,
}

impl Level {
    /// The level for the number of `-v`.
    pub fn from_verbosity(verbose: u8) -> (r: Level)
        ensures
            r == if verbose == 0 {
                Level::Default
            } else if verbose == 1 {
                Level::Verbose
            } else if verbose == 2 {
                Level::Debug
            } else if verbose == 3 {
                Level::Trace
            } else {
                Level::TraceAll
            },
    {
        match verbose {
            0 => Level::Default,
            1 => Level::Verbose,
            2 => Level::Debug,
            3 => Level::Trace,
            _ => Level::TraceAll,
        }
    }

    /// The log filter directive of the level.
    pub fn filter(self) -> (r: &'static str)
        ensures
            r@ == match self {
                Level::Default => "warn"@,
                Level::Verbose => "info"@,
                Level::Debug => "debug"@,
                Level::Trace => "seal=trace"@,
                Level::TraceAll => "trace"@,
            },
    {
        match self {
            Level::Default => "warn",
            Level::Verbose => "info",
            Level::Debug => "debug",
            Level::Trace => "seal=trace",
            Level::TraceAll => "trace",
        }
    }
}

/// How a command ended.
#[derive(Debug, Clone, Copy, PartialEq, Eq)]
pub enum ExitStatus {
    /// The command succeeded.
    Success,
    /// The command failed due to an error in the user input.
    Failure,
    /// The command failed with an unexpected error.
    Error,
    /// The command's exit status is propagated from an external command.
    External(u8),
}

impl ExitStatus {
    /// The process exit code.
    pub fn code(self) -> (r: u8)
        ensures
            r == match self {
                ExitStatus::Success => 0u8,
                ExitStatus::Failure => 1u8,
                ExitStatus::Error => 2u8,
                ExitStatus::External(c) => c,
            },
    {
        match self {
            ExitStatus::Success => 0,
            ExitStatus::Failure => 1,
            ExitStatus::Error => 2,
            ExitStatus::External(c) => c,
        }
    }
}

/// seal's version.
pub const SEAL_VERSION: &'static str = "0.0.0";

/// A package name and version.
#[derive(Debug, Clone)]
pub struct VersionInfo {
    /// Name of the package (or "seal" if printing seal's own version).
    pub package_name: Option<String>,
    /// The version, such as "0.5.1".
    pub version: String,
}

impl VersionInfo {
    /// The version alone, as its `Display` writes it.
    pub fn to_string(&self) -> (r: String)
        ensures
            r@ == self.version@,
    {
        self.version.clone()
    }

    /// What `seal self version` writes as text, in two parts: the name and a
    /// space (unless short or nameless), and the version.
    pub fn text_parts(&self, short: bool) -> (r: (String, String))
        ensures
            r.0@ == match self.package_name {
                Some(name) => if short {
                    seq![]
                } else {
                    name@ + " "@
                },
                None => seq![],
            },
            r.1@ == self.version@,
    {
        let prefix = match &self.package_name {
            Some(name) => {
                if short {
                    String::new()
                } else {
                    concat2(name.as_str(), " ")
                }
            },
            None => String::new(),
        };
        (prefix, self.version.clone())
    }
}

/// seal's own version information.
pub fn seal_self_version() -> (r: VersionInfo)
    ensures
        r.package_name is Some && r.package_name->Some_0@ == "seal"@,
        r.version@ == SEAL_VERSION@,
{
    VersionInfo {
        package_name: Some(String::from_str("seal")),
        version: String::from_str(SEAL_VERSION),
    }
}

/// seal's version.
pub fn seal_version_string() -> (r: &'static str)
    ensures
        r@ == SEAL_VERSION@,
{
    SEAL_VERSION
}

} // verus!
