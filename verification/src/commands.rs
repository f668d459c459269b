//! The decisions and messages of the commands (`validate`, `generate`,
//! `migrate`).

use vstd::prelude::*;
use vstd::string::*;

use crate::changelog::DEFAULT_CHANGELOG_PATH;
use crate::config::ChangelogConfig;
use crate::file_change::{join, join_path};
use crate::text::{chars_of, concat2, concat3, dec, dec_u64, extend_chars, extend_str, string_of, views};

verus! {

/// The message of a valid configuration file, which names it by its full
/// path.
pub fn config_valid_message(config_file: &str) -> (r: String)
    ensures
        r@ == "Config file `"@ + config_file@ + "` is valid\n"@,
{
    concat3("Config file `", config_file, "` is valid\n")
}

/// The messages of a valid project: the success line, and the number of
/// members when there are any.
pub fn project_valid_messages(member_count: usize) -> (r: (String, Option<String>))
    ensures
        r.0@ == "Project validation successful\n"@,
        member_count == 0 ==> r.1 is None,
        member_count > 0 ==> r.1 is Some && r.1->Some_0@ == "Found "@ + dec(member_count as nat)
            + " workspace member(s)\n"@,
{
    let first = String::from_str("Project validation successful\n");
    if member_count == 0 {
        return (first, None);
    }
    let mut t = chars_of("Found ");
    let d = dec_u64(member_count as u64);
    extend_chars(&mut t, d.as_slice());
    extend_str(&mut t, " workspace member(s)\n");
    (first, Some(string_of(t.as_slice())))
}

/// The error of a workspace without a `[changelog]` section.
pub fn no_changelog_config_message(root: &str) -> (r: String)
    ensures
        r@ == "No changelog configuration found in discovered workspace at `"@ + root@ + "`"@,
{
    concat3("No changelog configuration found in discovered workspace at `", root, "`")
}

/// The number of pull requests read for a full changelog when none is
/// given.
pub const MAX_PRS: usize = 100;

/// The number of pull requests to read for a full changelog.
pub fn max_prs_or_default(max_prs: Option<usize>) -> (r: usize)
    ensures
        r == match max_prs {
            Some(m) => m,
            None => MAX_PRS,
        },
{
    match max_prs {
        Some(m) => m,
        None => MAX_PRS,
    }
}

/// The changelog that `seal generate changelog` writes: the configured
/// path as it is, else `CHANGELOG.md` under the root.
pub fn generate_changelog_path(root: &str, config: &ChangelogConfig) -> (r: String)
    ensures
        r@ == match config.changelog_path {
            Some(p) => p@,
            None => join_path(root@, DEFAULT_CHANGELOG_PATH@),
        },
{
    match &config.changelog_path {
        Some(p) => p.clone(),
        None => join(root, DEFAULT_CHANGELOG_PATH),
    }
}

/// What `seal generate changelog` does with the generated text.
#[derive(Debug, Clone, Copy, PartialEq, Eq)]
pub enum ChangelogWrite {
    /// Print it (a dry run).
    Print,
    /// Write the file.
    Write,
    /// Refuse: the file exists and overwriting was not asked for.
    Refuse,
}

/// Prints on a dry run; otherwise writes, unless the file exists and
/// overwriting was not asked for.
pub fn changelog_write_plan(dry_run: bool, exists: bool, overwrite: Option<bool>) -> (r: ChangelogWrite)
    ensures
        r == if dry_run {
            ChangelogWrite::Print
        } else if exists && !(overwrite == Some(true)) {
            ChangelogWrite::Refuse
        } else {
            ChangelogWrite::Write
        },
{
    if dry_run {
        return ChangelogWrite::Print;
    }
    let allowed = match overwrite {
        Some(o) => o,
        None => false,
    };
    if exists && !allowed {
        ChangelogWrite::Refuse
    } else {
        ChangelogWrite::Write
    }
}

/// The error of an existing changelog, which names it by its full path.
pub fn changelog_exists_message(path: &str) -> (r: String)
    ensures
        r@ == "CHANGELOG.md already exists at `"@ + path@
            + "`. Remove it first if you want to regenerate it."@,
{
    concat3(
        "CHANGELOG.md already exists at `",
        path,
        "`. Remove it first if you want to regenerate it.",
    )
}

/// The line after a changelog was written.
pub fn changelog_generated_message() -> (r: String)
    ensures
        r@ == "CHANGELOG.md generated successfully.\n"@,
{
    String::from_str("CHANGELOG.md generated successfully.\n")
}

/// The changelog that `seal generate release-body` reads: the configured
/// path as it is, else `CHANGELOG.md` under the root.
pub fn release_body_changelog_path(root: &str, changelog: &Option<ChangelogConfig>) -> (r: String)
    ensures
        r@ == match changelog {
            Some(c) => match c.changelog_path {
                Some(p) => p@,
                None => join_path(root@, DEFAULT_CHANGELOG_PATH@),
            },
            None => join_path(root@, DEFAULT_CHANGELOG_PATH@),
        },
{
    match changelog {
        Some(c) => match &c.changelog_path {
            Some(p) => p.clone(),
            None => join(root, DEFAULT_CHANGELOG_PATH),
        },
        None => join(root, DEFAULT_CHANGELOG_PATH),
    }
}

/// The error of a missing changelog.
pub fn changelog_not_found_message(path: &str) -> (r: String)
    ensures
        r@ == "Changelog not found at `"@ + path@ + "`"@,
{
    concat3("Changelog not found at `", path, "`")
}

/// The files and setting of a migration: the rooster file (by default
/// `pyproject.toml`), the seal file (by default `seal.toml`), and whether
/// an existing seal file may be overwritten (by default not).
pub fn migrate_options(input: Option<String>, output: Option<String>, overwrite: Option<bool>) -> (r: (
    String,
    String,
    bool,
))
    ensures
        r.0@ == match input {
            Some(i) => i@,
            None => "pyproject.toml"@,
        },
        r.1@ == match output {
            Some(o) => o@,
            None => "seal.toml"@,
        },
        r.2 == (overwrite == Some(true)),
{
    let i = match input {
        Some(i) => i,
        None => String::from_str("pyproject.toml"),
    };
    let o = match output {
        Some(o) => o,
        None => String::from_str("seal.toml"),
    };
    let w = match overwrite {
        Some(w) => w,
        None => false,
    };
    (i, o, w)
}

/// The error of an existing seal file that may not be overwritten.
pub fn output_exists_message(output: &str) -> (r: String)
    ensures
        r@ == "Output file '"@ + output@ + "' already exists. Use --overwrite to overwrite."@,
{
    concat3("Output file '", output, "' already exists. Use --overwrite to overwrite.")
}

/// The warning lines of a migration.
pub open spec fn warning_lines(ws: Seq<Seq<char>>) -> Seq<char>
    decreases ws.len(),
{
    if ws.len() == 0 {
        seq![]
    } else {
        warning_lines(ws.drop_last()) + "  - "@ + ws.last() + "\n"@
    }
}

/// What a migration reports: where the seal file was written, then its
/// warnings (if any) under a heading, with a pointer to the docs.
pub fn migration_report(output: &str, warnings: &Vec<String>) -> (r: String)
    ensures
        r@ == "Successfully migrated rooster config to '"@ + output@ + "'\n"@ + if warnings@.len()
            == 0 {
            seq![]
        } else {
            "\n"@ + "Migration warnings:\n"@ + warning_lines(views(warnings@)) + "\n"@
                + "See docs/migration.md for more information about unsupported features.\n"@
        },
{
    let mut t = chars_of("Successfully migrated rooster config to '");
    extend_str(&mut t, output);
    extend_str(&mut t, "'\n");
    let ghost head = t@;
    if warnings.len() > 0 {
        extend_str(&mut t, "\n");
        extend_str(&mut t, "Migration warnings:\n");
        let ghost start = t@;
        let n = warnings.len();
        for i in 0..n
            invariant
                n == warnings@.len(),
                t@ == start + warning_lines(views(warnings@).take(i as int)),
        {
            assert(views(warnings@).take(i + 1).drop_last() == views(warnings@).take(i as int));
            assert(views(warnings@).take(i + 1).last() == warnings@[i as int]@);
            let ghost before = t@;
            extend_str(&mut t, "  - ");
            extend_str(&mut t, warnings[i].as_str());
            extend_str(&mut t, "\n");
            assert(t@ == before + "  - "@ + warnings@[i as int]@ + "\n"@);
        }
        assert(views(warnings@).take(n as int) == views(warnings@));
        extend_str(&mut t, "\n");
        extend_str(&mut t, "See docs/migration.md for more information about unsupported features.\n");
        assert(t@ =~= head + ("\n"@ + "Migration warnings:\n"@ + warning_lines(views(warnings@))
            + "\n"@ + "See docs/migration.md for more information about unsupported features.\n"@));
    } else {
        assert(t@ =~= head + Seq::<char>::empty());
    }
    string_of(t.as_slice())
}

} // verus!
