//! The changes that a version bump makes to the configured version files
//! and to `seal.toml`.

use vstd::prelude::*;
use vstd::string::*;

use crate::config::{VersionFile, VersionFileTextFormat};
use crate::file_change::{is_absolute, join_path, make_absolute, FileChange, FileChanges};
use crate::text::{
    chars_of, concat2, concat3, contains, dec_i64, dec_int, replace_all, split_char, split_on,
    str_contains, str_replace, string_of, views,
};
use crate::version::{version_text, Version};

verus! {

/// A TOML value as the version-file logic reads it.
///
/// A table holds its entries (keys are unique) and, like arrays and dates
/// (`Other`), the text that `Debug` gives for it; a float holds the text
/// that `f64::to_string` gives for it.
#[derive(Debug)]
pub enum TomlValue {
    String(String),
    Integer(i64),
    Float(String),
    Boolean(bool),
    Table { entries: Vec<(String, TomlValue)>, debug: String },
    Other(String),
}

/// One file that a version file's glob matched: its path as the glob gave
/// it, and its content or why it could not be read.
#[derive(Debug)]
pub struct MatchedFile {
    pub path: String,
    pub content: Result<String, String>,
}

#[verifier::external_type_specification]
#[verifier::external_body]
pub struct ExTomlValue(toml::Value);

/// What `toml::from_str::<toml::Value>` gives for a text, held as a
/// [`TomlValue`]: the document, or the message of the parse error.
pub uninterp spec fn toml_document(text: Seq<char>) -> Result<TomlValue, Seq<char>>;

/// `toml::from_str::<toml::Value>`: parses a TOML document. The contract
/// names the result: the document as a [`TomlValue`], or the `Display`
/// text of the error.
#[verifier::external_body]
fn parse_toml_document(text: &str) -> (r: Result<TomlValue, String>)
    ensures
        match toml_document(text@) {
            Ok(v) => r is Ok && r->Ok_0 == v,
            Err(m) => r is Err && r->Err_0@ == m,
        },
{
    match toml::from_str::<toml::Value>(text) {
        Ok(v) => Ok(toml_value_of(&v)),
        Err(e) => Err(e.to_string()),
    }
}

/// A `toml::Value` as a [`TomlValue`], variant for variant: a string,
/// integer or boolean as it is, a float as its `to_string` text, a table
/// as its entries (in the table's order) and its `Debug` text, anything
/// else as its `Debug` text. Nothing is stated of it: it is the conversion
/// that [`parse_toml_document`] names.
#[verifier::external_body]
fn toml_value_of(v: &toml::Value) -> TomlValue {
    match v {
        toml::Value::String(s) => TomlValue::String(s.clone()),
        toml::Value::Integer(i) => TomlValue::Integer(*i),
        toml::Value::Float(f) => TomlValue::Float(f.to_string()),
        toml::Value::Boolean(b) => TomlValue::Boolean(*b),
        toml::Value::Table(t) => TomlValue::Table {
            entries: t.iter().map(|(k, x)| (k.clone(), toml_value_of(x))).collect(),
            debug: format!("{v:?}"),
        },
        other => TomlValue::Other(format!("{other:?}")),
    }
}

/// Why the version files could not be updated.
#[derive(Debug, Clone, PartialEq, Eq)]
pub enum VersionFileError {
    /// The glob pattern is invalid (the message says why).
    Glob(String),
    /// A matched file could not be read (the message says why).
    Read(String),
    /// A TOML file could not be parsed (the message says why).
    TomlParse(String),
    /// A part of the field's dotted key is missing.
    KeyNotFound { part: String },
    /// A part of the field's dotted key names something that is no table.
    NotATable { part: String },
    /// The field holds no string, integer, float or boolean.
    NotStringLike { value: String },
    /// The field does not hold the current version.
    MismatchedVersion { path: String, expected: String, found: String },
    /// A text file does not hold the current version.
    VersionNotFound { version: String, path: String },
    /// A file does not hold the search pattern for the current version.
    SearchPatternNotFound { expected: String },
    /// No file was matched so far.
    NoFilesFound { path: String },
    /// `seal.toml` could not be read (the message says why).
    SealTomlUnreadable(String),
    /// `seal.toml` holds no `current-version = "..."` line for the version.
    CurrentVersionLineMissing { version: String },
}

/// The mathematical value of a [`VersionFileError`].
pub enum VersionFileErrorView {
    Glob(Seq<char>),
    Read(Seq<char>),
    TomlParse(Seq<char>),
    KeyNotFound(Seq<char>),
    NotATable(Seq<char>),
    NotStringLike(Seq<char>),
    MismatchedVersion(Seq<char>, Seq<char>, Seq<char>),
    VersionNotFound(Seq<char>, Seq<char>),
    SearchPatternNotFound(Seq<char>),
    NoFilesFound(Seq<char>),
    SealTomlUnreadable(Seq<char>),
    CurrentVersionLineMissing(Seq<char>),
}

impl View for VersionFileError {
    type V = VersionFileErrorView;

    open spec fn view(&self) -> VersionFileErrorView {
        match self {
            VersionFileError::Glob(m) => VersionFileErrorView::Glob(m@),
            VersionFileError::Read(m) => VersionFileErrorView::Read(m@),
            VersionFileError::TomlParse(m) => VersionFileErrorView::TomlParse(m@),
            VersionFileError::KeyNotFound { part } => VersionFileErrorView::KeyNotFound(part@),
            VersionFileError::NotATable { part } => VersionFileErrorView::NotATable(part@),
            VersionFileError::NotStringLike { value } => VersionFileErrorView::NotStringLike(
                value@,
            ),
            VersionFileError::MismatchedVersion { path, expected, found } =>
                VersionFileErrorView::MismatchedVersion(path@, expected@, found@),
            VersionFileError::VersionNotFound { version, path } =>
                VersionFileErrorView::VersionNotFound(version@, path@),
            VersionFileError::SearchPatternNotFound { expected } =>
                VersionFileErrorView::SearchPatternNotFound(expected@),
            VersionFileError::NoFilesFound { path } => VersionFileErrorView::NoFilesFound(path@),
            VersionFileError::SealTomlUnreadable(m) => VersionFileErrorView::SealTomlUnreadable(
                m@,
            ),
            VersionFileError::CurrentVersionLineMissing { version } =>
                VersionFileErrorView::CurrentVersionLineMissing(version@),
        }
    }
}

/// The message of a version-file error.
pub open spec fn version_file_error_text(e: VersionFileErrorView) -> Seq<char> {
    match e {
        VersionFileErrorView::Glob(m) => m,
        VersionFileErrorView::Read(m) => m,
        VersionFileErrorView::TomlParse(m) => m,
        VersionFileErrorView::KeyNotFound(p) => "Key `"@ + p + "` not found"@,
        VersionFileErrorView::NotATable(p) => "Expected `"@ + p + "` to refer to a TOML table"@,
        VersionFileErrorView::NotStringLike(v) => "Expected final TOML value to be string-like, got "@
            + v,
        VersionFileErrorView::MismatchedVersion(p, e, f) => "Mismatched version in `"@ + p
            + "`, expected `"@ + e + "`, found `"@ + f + "`"@,
        VersionFileErrorView::VersionNotFound(v, p) => "Version `"@ + v + "` not found in file `"@
            + p + "`"@,
        VersionFileErrorView::SearchPatternNotFound(x) =>
            "Search pattern not found in file. Expected: "@ + x,
        VersionFileErrorView::NoFilesFound(p) => "No files found for path or glob `"@ + p + "`"@,
        VersionFileErrorView::SealTomlUnreadable(m) => "Failed to read seal.toml: "@ + m,
        VersionFileErrorView::CurrentVersionLineMissing(v) =>
            "Could not find current-version = \""@ + v + "\" in seal.toml"@,
    }
}

impl VersionFileError {
    /// The error's message.
    pub fn to_string(&self) -> (r: String)
        ensures
            r@ == version_file_error_text(self@),
    {
        match self {
            VersionFileError::Glob(m) => m.clone(),
            VersionFileError::Read(m) => m.clone(),
            VersionFileError::TomlParse(m) => m.clone(),
            VersionFileError::KeyNotFound { part } => concat3("Key `", part.as_str(), "` not found"),
            VersionFileError::NotATable { part } => concat3(
                "Expected `",
                part.as_str(),
                "` to refer to a TOML table",
            ),
            VersionFileError::NotStringLike { value } => concat2(
                "Expected final TOML value to be string-like, got ",
                value.as_str(),
            ),
            VersionFileError::MismatchedVersion { path, expected, found } => {
                let a = concat3("Mismatched version in `", path.as_str(), "`, expected `");
                let b = concat3(a.as_str(), expected.as_str(), "`, found `");
                concat3(b.as_str(), found.as_str(), "`")
            },
            VersionFileError::VersionNotFound { version, path } => {
                let a = concat3("Version `", version.as_str(), "` not found in file `");
                concat3(a.as_str(), path.as_str(), "`")
            },
            VersionFileError::SearchPatternNotFound { expected } => concat2(
                "Search pattern not found in file. Expected: ",
                expected.as_str(),
            ),
            VersionFileError::NoFilesFound { path } => concat3(
                "No files found for path or glob `",
                path.as_str(),
                "`",
            ),
            VersionFileError::SealTomlUnreadable(m) => concat2(
                "Failed to read seal.toml: ",
                m.as_str(),
            ),
            VersionFileError::CurrentVersionLineMissing { version } => concat3(
                "Could not find current-version = \"",
                version.as_str(),
                "\" in seal.toml",
            ),
        }
    }
}

// ---------------------------------------------------------------------------
// Reading a dotted key from a TOML document
// ---------------------------------------------------------------------------

/// The value of the first entry named `key`.
pub open spec fn table_get(entries: Seq<(String, TomlValue)>, key: Seq<char>) -> Option<TomlValue>
    decreases entries.len(),
{
    if entries.len() == 0 {
        None
    } else if entries[0].0@ == key {
        Some(entries[0].1)
    } else {
        table_get(entries.drop_first(), key)
    }
}

/// The value that the key parts lead to from `v`, through nested tables.
pub open spec fn toml_lookup(v: TomlValue, parts: Seq<Seq<char>>) -> Result<
    TomlValue,
    VersionFileErrorView,
>
    decreases parts.len(),
{
    if parts.len() == 0 {
        Ok(v)
    } else {
        match v {
            TomlValue::Table { entries, .. } => match table_get(entries@, parts[0]) {
                Some(x) => toml_lookup(x, parts.drop_first()),
                None => Err(VersionFileErrorView::KeyNotFound(parts[0])),
            },
            _ => Err(VersionFileErrorView::NotATable(parts[0])),
        }
    }
}

/// The text of a string-like value: a string itself, an integer or float
/// as `to_string` writes it, `true` or `false`.
pub open spec fn scalar_text(v: TomlValue) -> Result<Seq<char>, VersionFileErrorView> {
    match v {
        TomlValue::String(s) => Ok(s@),
        TomlValue::Integer(i) => Ok(dec_int(i as int)),
        TomlValue::Float(t) => Ok(t@),
        TomlValue::Boolean(b) => Ok(
            if b {
                "true"@
            } else {
                "false"@
            },
        ),
        TomlValue::Table { debug, .. } => Err(VersionFileErrorView::NotStringLike(debug@)),
        TomlValue::Other(d) => Err(VersionFileErrorView::NotStringLike(d@)),
    }
}

/// The text at a dotted key of a TOML document.
pub open spec fn toml_key_text(doc: TomlValue, key: Seq<char>) -> Result<Seq<char>, VersionFileErrorView> {
    match toml_lookup(doc, split_char(key, '.')) {
        Ok(v) => scalar_text(v),
        Err(e) => Err(e),
    }
}

/// The value of the first entry named `key`.
fn table_entry<'a>(entries: &'a Vec<(String, TomlValue)>, key: &str) -> (r: Option<&'a TomlValue>)
    ensures
        match table_get(entries@, key@) {
            Some(x) => r is Some && *r->Some_0 == x,
            None => r is None,
        },
{
    let n = entries.len();
    let mut i: usize = 0;
    assert(entries@.skip(0) == entries@);
    while i < n
        invariant
            n == entries@.len(),
            i <= n,
            table_get(entries@, key@) == table_get(entries@.skip(i as int), key@),
        decreases n - i,
    {
        assert(entries@.skip(i as int).drop_first() == entries@.skip(i + 1));
        if crate::text::str_eq_chars(entries[i].0.as_str(), chars_of(key).as_slice()) {
            return Some(&entries[i].1);
        }
        i = i + 1;
    }
    None
}

/// The text at a dotted key of a TOML document (`package.version`, say).
pub fn nested_toml_key(source: &TomlValue, key: &str) -> (r: Result<String, VersionFileError>)
    ensures
        match toml_key_text(*source, key@) {
            Ok(t) => r is Ok && r->Ok_0@ == t,
            Err(e) => r is Err && r->Err_0@ == e,
        },
{
    let kc = chars_of(key);
    let parts = split_on(kc.as_slice(), '.');
    let ghost ps = views(parts@);
    let n = parts.len();
    let mut current = source;
    let mut i: usize = 0;
    assert(ps.skip(0) == ps);
    while i < n
        invariant
            n == parts@.len(),
            ps == views(parts@),
            ps == split_char(key@, '.'),
            i <= n,
            toml_lookup(*source, ps) == toml_lookup(*current, ps.skip(i as int)),
        decreases n - i,
    {
        assert(ps.skip(i as int)[0] == parts@[i as int]@);
        assert(ps.skip(i as int).drop_first() == ps.skip(i + 1));
        match current {
            TomlValue::Table { entries, .. } => match table_entry(entries, parts[i].as_str()) {
                Some(x) => {
                    current = x;
                },
                None => {
                    return Err(VersionFileError::KeyNotFound { part: parts[i].clone() });
                },
            },
            _ => {
                return Err(VersionFileError::NotATable { part: parts[i].clone() });
            },
        }
        i = i + 1;
    }
    assert(ps.skip(n as int).len() == 0);
    match current {
        TomlValue::String(s) => Ok(s.clone()),
        TomlValue::Integer(v) => Ok(string_of(dec_i64(*v).as_slice())),
        TomlValue::Float(t) => Ok(t.clone()),
        TomlValue::Boolean(b) => {
            if *b {
                Ok(String::from_str("true"))
            } else {
                Ok(String::from_str("false"))
            }
        },
        TomlValue::Table { debug, .. } => Err(VersionFileError::NotStringLike { value: debug.clone() }),
        TomlValue::Other(d) => Err(VersionFileError::NotStringLike { value: d.clone() }),
    }
}

// ---------------------------------------------------------------------------
// The new content of each file
// ---------------------------------------------------------------------------

/// A change as its path, old content and new content.
pub open spec fn change_of(c: FileChange) -> (Seq<char>, Seq<char>, Seq<char>) {
    (c.path_view(), c.old_view(), c.new_view())
}

/// The changes as paths and contents.
pub open spec fn changes_view(s: Seq<FileChange>) -> Seq<(Seq<char>, Seq<char>, Seq<char>)> {
    s.map_values(|c: FileChange| change_of(c))
}

/// `p` itself when absolute, else `p` under `root`.
pub open spec fn abs_path(root: Seq<char>, p: Seq<char>) -> Seq<char> {
    if is_absolute(p) {
        p
    } else {
        join_path(root, p)
    }
}

/// Every occurrence of the current version replaced by the new one; an
/// error naming `shown` when there is none.
pub open spec fn exact_replacement(shown: Seq<char>, content: Seq<char>, cur: Seq<char>, new: Seq<char>) -> Result<
    Seq<char>,
    VersionFileErrorView,
> {
    if contains(content, cur) {
        Ok(replace_all(content, cur, new))
    } else {
        Err(VersionFileErrorView::VersionNotFound(cur, shown))
    }
}

/// The field of a TOML file (`package.version` when none is configured)
/// must hold the current version; the line `LAST = "CURRENT"`, with `LAST`
/// the field's last key part, becomes `LAST = "NEW"` wherever it occurs.
pub open spec fn toml_replacement(
    shown: Seq<char>,
    content: Seq<char>,
    doc: TomlValue,
    field: Option<Seq<char>>,
    cur: Seq<char>,
    new: Seq<char>,
) -> Result<Seq<char>, VersionFileErrorView> {
    let f = match field {
        Some(f) => f,
        None => "package.version"@,
    };
    match toml_key_text(doc, f) {
        Err(e) => Err(e),
        Ok(found) => if found != cur {
            Err(VersionFileErrorView::MismatchedVersion(shown, cur, found))
        } else {
            let last = split_char(f, '.').last();
            Ok(
                replace_all(
                    content,
                    last + " = \""@ + found + "\""@,
                    last + " = \""@ + new + "\""@,
                ),
            )
        },
    }
}

/// The search pattern with `{version}` as the current version must occur;
/// each occurrence becomes the pattern with the new version.
pub open spec fn search_replacement(content: Seq<char>, search: Seq<char>, cur: Seq<char>, new: Seq<char>) -> Result<
    Seq<char>,
    VersionFileErrorView,
> {
    let with_cur = replace_all(search, "{version}"@, cur);
    let with_new = replace_all(search, "{version}"@, new);
    if contains(content, with_cur) {
        Ok(replace_all(content, with_cur, with_new))
    } else {
        Err(VersionFileErrorView::SearchPatternNotFound(with_cur))
    }
}

/// The text of an optional string.
pub open spec fn opt_text(o: Option<String>) -> Option<Seq<char>> {
    match o {
        Some(s) => Some(s@),
        None => None,
    }
}

/// The change to one matched file of a version file; a TOML file is read
/// through its parsed document.
pub open spec fn matched_change(
    vf: VersionFile,
    m: MatchedFile,
    root: Seq<char>,
    cur: Seq<char>,
    new: Seq<char>,
) -> Result<(Seq<char>, Seq<char>, Seq<char>), VersionFileErrorView> {
    let abs = abs_path(root, m.path@);
    match m.content {
        Err(e) => Err(VersionFileErrorView::Read(e@)),
        Ok(old) => {
            let text = match vf {
                VersionFile::Text { format, field, .. } => match format {
                    VersionFileTextFormat::Toml => match toml_document(old@) {
                        Ok(doc) => toml_replacement(m.path@, old@, doc, opt_text(field), cur, new),
                        Err(e) => Err(VersionFileErrorView::TomlParse(e)),
                    },
                    VersionFileTextFormat::Text => exact_replacement(abs, old@, cur, new),
                },
                VersionFile::Search { search, .. } => search_replacement(old@, search@, cur, new),
                VersionFile::JustPath { .. } => exact_replacement(abs, old@, cur, new),
                VersionFile::Simple(_) => exact_replacement(abs, old@, cur, new),
            };
            match text {
                Ok(t) => Ok((abs, old@, t)),
                Err(e) => Err(e),
            }
        },
    }
}

/// The changes so far (`acc`) followed by those of the matched files, in
/// order; the first error stops.
pub open spec fn entry_changes(
    vf: VersionFile,
    ms: Seq<MatchedFile>,
    root: Seq<char>,
    cur: Seq<char>,
    new: Seq<char>,
    acc: Seq<(Seq<char>, Seq<char>, Seq<char>)>,
) -> Result<Seq<(Seq<char>, Seq<char>, Seq<char>)>, VersionFileErrorView>
    decreases ms.len(),
{
    if ms.len() == 0 {
        Ok(acc)
    } else {
        match matched_change(vf, ms[0], root, cur, new) {
            Err(e) => Err(e),
            Ok(c) => entry_changes(vf, ms.drop_first(), root, cur, new, acc.push(c)),
        }
    }
}

/// The glob pattern of a version file.
pub open spec fn pattern_of(vf: VersionFile) -> Seq<char> {
    match vf {
        VersionFile::Text { path, .. } => path@,
        VersionFile::Search { path, .. } => path@,
        VersionFile::JustPath { path } => path@,
        VersionFile::Simple(path) => path@,
    }
}

/// The changes of the version files, each with the files its glob matched
/// (or the glob's error), in order, after `acc`; no change at all after a
/// version file is an error.
pub open spec fn entries_changes(
    vfs: Seq<VersionFile>,
    matches: Seq<Result<Vec<MatchedFile>, String>>,
    root: Seq<char>,
    cur: Seq<char>,
    new: Seq<char>,
    acc: Seq<(Seq<char>, Seq<char>, Seq<char>)>,
) -> Result<Seq<(Seq<char>, Seq<char>, Seq<char>)>, VersionFileErrorView>
    decreases vfs.len(),
{
    if vfs.len() == 0 || matches.len() == 0 {
        Ok(acc)
    } else {
        match matches[0] {
            Err(g) => Err(VersionFileErrorView::Glob(g@)),
            Ok(ms) => match entry_changes(vfs[0], ms@, root, cur, new, acc) {
                Err(e) => Err(e),
                Ok(a) => if a.len() == 0 {
                    Err(VersionFileErrorView::NoFilesFound(pattern_of(vfs[0])))
                } else {
                    entries_changes(vfs.drop_first(), matches.drop_first(), root, cur, new, a)
                },
            },
        }
    }
}

/// The change to `seal.toml`: its `current-version = "CURRENT"` line
/// becomes `current-version = "NEW"`.
pub open spec fn seal_toml_change(
    root: Seq<char>,
    content: Result<String, String>,
    cur: Seq<char>,
    new: Seq<char>,
) -> Result<(Seq<char>, Seq<char>, Seq<char>), VersionFileErrorView> {
    match content {
        Err(e) => Err(VersionFileErrorView::SealTomlUnreadable(e@)),
        Ok(c) => {
            let old_line = "current-version = \""@ + cur + "\""@;
            let new_line = "current-version = \""@ + new + "\""@;
            if contains(c@, old_line) {
                Ok((join_path(root, "seal.toml"@), c@, replace_all(c@, old_line, new_line)))
            } else {
                Err(VersionFileErrorView::CurrentVersionLineMissing(cur))
            }
        },
    }
}

/// All the changes of a bump from `cur` to `new`: those of the version
/// files, then the one to `seal.toml`.
pub open spec fn version_file_changes(
    root: Seq<char>,
    vfs: Seq<VersionFile>,
    matches: Seq<Result<Vec<MatchedFile>, String>>,
    cur: Seq<char>,
    new: Seq<char>,
    seal_toml: Result<String, String>,
) -> Result<Seq<(Seq<char>, Seq<char>, Seq<char>)>, VersionFileErrorView> {
    match entries_changes(vfs, matches, root, cur, new, seq![]) {
        Err(e) => Err(e),
        Ok(a) => match seal_toml_change(root, seal_toml, cur, new) {
            Err(e) => Err(e),
            Ok(c) => Ok(a.push(c)),
        },
    }
}

/// Replaces every occurrence of the current version in a text file; the
/// error names the file by `path`.
pub fn exact_version_replacement(path: &str, content: &str, current_version: &str, version_str: &str) -> (r:
    Result<String, VersionFileError>)
    ensures
        match exact_replacement(path@, content@, current_version@, version_str@) {
            Ok(t) => r is Ok && r->Ok_0@ == t,
            Err(e) => r is Err && r->Err_0@ == e,
        },
{
    if str_contains(content, current_version) {
        Ok(str_replace(content, current_version, version_str))
    } else {
        Err(
            VersionFileError::VersionNotFound {
                version: String::from_str(current_version),
                path: String::from_str(path),
            },
        )
    }
}

/// The new content of a TOML version file (see [`toml_replacement`]).
fn toml_version_replacement(
    shown: &str,
    content: &str,
    doc: &TomlValue,
    field: &Option<String>,
    current_version: &str,
    new_version: &str,
) -> (r: Result<String, VersionFileError>)
    ensures
        match toml_replacement(shown@, content@, *doc, opt_text(*field), current_version@, new_version@) {
            Ok(t) => r is Ok && r->Ok_0@ == t,
            Err(e) => r is Err && r->Err_0@ == e,
        },
{
    let f: &str = match field {
        Some(f) => f.as_str(),
        None => "package.version",
    };
    let found = match nested_toml_key(doc, f) {
        Ok(t) => t,
        Err(e) => {
            return Err(e);
        },
    };
    let fc = chars_of(found.as_str());
    if !crate::text::str_eq_chars(current_version, fc.as_slice()) {
        return Err(
            VersionFileError::MismatchedVersion {
                path: String::from_str(shown),
                expected: String::from_str(current_version),
                found,
            },
        );
    }
    let parts = split_on(chars_of(f).as_slice(), '.');
    proof {
        crate::text::lemma_split_from_len(f@, '.', seq![]);
    }
    let last = &parts[parts.len() - 1];
    assert(views(parts@).last() == last@);
    let a = concat3(last.as_str(), " = \"", found.as_str());
    let old_line = concat2(a.as_str(), "\"");
    let b = concat3(last.as_str(), " = \"", new_version);
    let new_line = concat2(b.as_str(), "\"");
    Ok(str_replace(content, old_line.as_str(), new_line.as_str()))
}

/// The new content of a searched version file (see [`search_replacement`]).
fn search_version_replacement(content: &str, search: &str, current_version: &str, new_version: &str) -> (r:
    Result<String, VersionFileError>)
    ensures
        match search_replacement(content@, search@, current_version@, new_version@) {
            Ok(t) => r is Ok && r->Ok_0@ == t,
            Err(e) => r is Err && r->Err_0@ == e,
        },
{
    let with_cur = str_replace(search, "{version}", current_version);
    let with_new = str_replace(search, "{version}", new_version);
    if str_contains(content, with_cur.as_str()) {
        Ok(str_replace(content, with_cur.as_str(), with_new.as_str()))
    } else {
        Err(VersionFileError::SearchPatternNotFound { expected: with_cur })
    }
}

/// The change to one matched file (see [`matched_change`]).
fn matched_file_change(
    vf: &VersionFile,
    m: &MatchedFile,
    root: &str,
    current_version: &str,
    new_version: &str,
) -> (r: Result<FileChange, VersionFileError>)
    ensures
        match matched_change(*vf, *m, root@, current_version@, new_version@) {
            Ok(c) => r is Ok && change_of(r->Ok_0) == c,
            Err(e) => r is Err && r->Err_0@ == e,
        },
{
    let abs = make_absolute(root, m.path.as_str());
    let old = match &m.content {
        Err(e) => {
            return Err(VersionFileError::Read(e.clone()));
        },
        Ok(c) => c,
    };
    let text = match vf {
        VersionFile::Text { format, field, .. } => match format {
            VersionFileTextFormat::Toml => match parse_toml_document(old.as_str()) {
                Ok(doc) => toml_version_replacement(
                    m.path.as_str(),
                    old.as_str(),
                    &doc,
                    field,
                    current_version,
                    new_version,
                ),
                Err(e) => Err(VersionFileError::TomlParse(e)),
            },
            VersionFileTextFormat::Text => exact_version_replacement(
                abs.as_str(),
                old.as_str(),
                current_version,
                new_version,
            ),
        },
        VersionFile::Search { search, .. } => search_version_replacement(
            old.as_str(),
            search.as_str(),
            current_version,
            new_version,
        ),
        VersionFile::JustPath { .. } => exact_version_replacement(
            abs.as_str(),
            old.as_str(),
            current_version,
            new_version,
        ),
        VersionFile::Simple(_) => exact_version_replacement(
            abs.as_str(),
            old.as_str(),
            current_version,
            new_version,
        ),
    };
    match text {
        Ok(t) => Ok(FileChange::new(abs, old.clone(), t)),
        Err(e) => Err(e),
    }
}

/// Appends the changes of one version file's matched files.
fn entry_file_changes(
    vf: &VersionFile,
    ms: &Vec<MatchedFile>,
    root: &str,
    current_version: &str,
    new_version: &str,
    acc: Vec<FileChange>,
) -> (r: Result<Vec<FileChange>, VersionFileError>)
    ensures
        match entry_changes(*vf, ms@, root@, current_version@, new_version@, changes_view(acc@)) {
            Ok(a) => r is Ok && changes_view(r->Ok_0@) == a,
            Err(e) => r is Err && r->Err_0@ == e,
        },
{
    let ghost spec_all = entry_changes(
        *vf,
        ms@,
        root@,
        current_version@,
        new_version@,
        changes_view(acc@),
    );
    let mut out = acc;
    let n = ms.len();
    let mut i: usize = 0;
    assert(ms@.skip(0) == ms@);
    while i < n
        invariant
            n == ms@.len(),
            i <= n,
            spec_all == entry_changes(
                *vf,
                ms@,
                root@,
                current_version@,
                new_version@,
                changes_view(acc@),
            ),
            spec_all == entry_changes(
                *vf,
                ms@.skip(i as int),
                root@,
                current_version@,
                new_version@,
                changes_view(out@),
            ),
        decreases n - i,
    {
        assert(ms@.skip(i as int)[0] == ms@[i as int]);
        assert(ms@.skip(i as int).drop_first() == ms@.skip(i + 1));
        match matched_file_change(vf, &ms[i], root, current_version, new_version) {
            Ok(c) => {
                let ghost before = out@;
                out.push(c);
                assert(changes_view(out@) == changes_view(before).push(change_of(c)));
            },
            Err(e) => {
                return Err(e);
            },
        }
        i = i + 1;
    }
    assert(ms@.skip(n as int).len() == 0);
    Ok(out)
}

/// The change to `seal.toml` (see [`seal_toml_change`]).
fn seal_toml_file_change(
    root: &str,
    seal_toml: Result<String, String>,
    current_version: &str,
    new_version: &str,
) -> (r: Result<FileChange, VersionFileError>)
    ensures
        match seal_toml_change(root@, seal_toml, current_version@, new_version@) {
            Ok(c) => r is Ok && change_of(r->Ok_0) == c,
            Err(e) => r is Err && r->Err_0@ == e,
        },
{
    let content = match seal_toml {
        Err(e) => {
            return Err(VersionFileError::SealTomlUnreadable(e));
        },
        Ok(c) => c,
    };
    let old_line = concat3("current-version = \"", current_version, "\"");
    let new_line = concat3("current-version = \"", new_version, "\"");
    if !str_contains(content.as_str(), old_line.as_str()) {
        return Err(
            VersionFileError::CurrentVersionLineMissing {
                version: String::from_str(current_version),
            },
        );
    }
    let updated = str_replace(content.as_str(), old_line.as_str(), new_line.as_str());
    let path = crate::file_change::join(root, "seal.toml");
    Ok(FileChange::new(path, content, updated))
}

/// The changes of a bump from `current_version` to `new_version` under
/// `root`: for each version file, in order, the files its glob matched
/// (`matches[i]` for `version_files[i]`, one entry for each: the files in
/// the glob's order, or the glob's error) get the new version, then `seal.toml` (whose content,
/// or why it could not be read, is `seal_toml`) gets its new
/// `current-version` line.
pub fn calculate_version_file_changes(
    root: &str,
    version_files: &[VersionFile],
    matches: &[Result<Vec<MatchedFile>, String>],
    current_version: &str,
    new_version: &Version,
    seal_toml: Result<String, String>,
) -> (r: Result<FileChanges, VersionFileError>)
    requires
        matches@.len() == version_files@.len(),
    ensures
        match version_file_changes(
            root@,
            version_files@,
            matches@,
            current_version@,
            version_text(new_version@),
            seal_toml,
        ) {
            Ok(a) => r is Ok && changes_view(r->Ok_0.changes()) == a,
            Err(e) => r is Err && r->Err_0@ == e,
        },
{
    let new_text = new_version.to_string();
    let ghost new_v = version_text(new_version@);
    let ghost spec_all = entries_changes(
        version_files@,
        matches@,
        root@,
        current_version@,
        new_v,
        seq![],
    );
    let mut acc: Vec<FileChange> = Vec::new();
    assert(changes_view(acc@) == Seq::<(Seq<char>, Seq<char>, Seq<char>)>::empty());
    let n = if version_files.len() < matches.len() {
        version_files.len()
    } else {
        matches.len()
    };
    let mut i: usize = 0;
    assert(version_files@.skip(0) == version_files@);
    assert(matches@.skip(0) == matches@);
    while i < n
        invariant
            n <= version_files@.len(),
            n <= matches@.len(),
            n == version_files@.len() || n == matches@.len(),
            i <= n,
            new_text@ == new_v,
            new_v == version_text(new_version@),
            spec_all == entries_changes(
                version_files@,
                matches@,
                root@,
                current_version@,
                new_v,
                seq![],
            ),
            spec_all == entries_changes(
                version_files@.skip(i as int),
                matches@.skip(i as int),
                root@,
                current_version@,
                new_v,
                changes_view(acc@),
            ),
        decreases n - i,
    {
        assert(version_files@.skip(i as int)[0] == version_files@[i as int]);
        assert(matches@.skip(i as int)[0] == matches@[i as int]);
        assert(version_files@.skip(i as int).drop_first() == version_files@.skip(i + 1));
        assert(matches@.skip(i as int).drop_first() == matches@.skip(i + 1));
        match &matches[i] {
            Err(g) => {
                return Err(VersionFileError::Glob(g.clone()));
            },
            Ok(ms) => {
                match entry_file_changes(
                    &version_files[i],
                    ms,
                    root,
                    current_version,
                    new_text.as_str(),
                    acc,
                ) {
                    Err(e) => {
                        return Err(e);
                    },
                    Ok(a) => {
                        acc = a;
                    },
                }
                if acc.len() == 0 {
                    let p = version_files[i].path();
                    return Err(VersionFileError::NoFilesFound { path: String::from_str(p) });
                }
            },
        }
        i = i + 1;
    }
    assert(version_files@.skip(n as int).len() == 0 || matches@.skip(n as int).len() == 0);
    let c = match seal_toml_file_change(root, seal_toml, current_version, new_text.as_str()) {
        Ok(c) => c,
        Err(e) => {
            return Err(e);
        },
    };
    let ghost before = acc@;
    acc.push(c);
    assert(changes_view(acc@) == changes_view(before).push(change_of(c)));
    Ok(FileChanges::new(acc))
}

/// After a bump, `seal.toml` holds the new version: the change to it has
/// the line `current-version = "NEW"`.
pub proof fn law_seal_toml_gets_new_version(
    root: Seq<char>,
    content: Result<String, String>,
    cur: Seq<char>,
    new: Seq<char>,
)
    requires
        seal_toml_change(root, content, cur, new) is Ok,
    ensures
        contains(
            seal_toml_change(root, content, cur, new)->Ok_0.2,
            "current-version = \""@ + new + "\""@,
        ),
{
    reveal_strlit("current-version = \"");
    let c = content->Ok_0@;
    let old_line = "current-version = \""@ + cur + "\""@;
    crate::text::lemma_replace_all_contains(c, old_line, "current-version = \""@ + new + "\""@);
}

/// After a bump, a text version file holds the new version wherever it held
/// the current one, so it holds the new version.
pub proof fn law_text_file_gets_new_version(shown: Seq<char>, content: Seq<char>, cur: Seq<char>, new: Seq<char>)
    requires
        cur.len() > 0,
        exact_replacement(shown, content, cur, new) is Ok,
    ensures
        contains(exact_replacement(shown, content, cur, new)->Ok_0, new),
{
    crate::text::lemma_replace_all_contains(content, cur, new);
}

/// After a bump, a TOML version file whose field holds the current version
/// on a `LAST = "CURRENT"` line (`LAST` the field's last key part) holds
/// `LAST = "NEW"`. A field written in another layout (`version="1.0.0"`)
/// is read, but its text is left as it was.
pub proof fn law_toml_field_gets_new_version(
    shown: Seq<char>,
    content: Seq<char>,
    doc: TomlValue,
    field: Option<Seq<char>>,
    cur: Seq<char>,
    new: Seq<char>,
)
    requires
        toml_replacement(shown, content, doc, field, cur, new) is Ok,
        contains(
            content,
            split_char(
                match field {
                    Some(f) => f,
                    None => "package.version"@,
                },
                '.',
            ).last() + " = \""@ + cur + "\""@,
        ),
    ensures
        contains(
            toml_replacement(shown, content, doc, field, cur, new)->Ok_0,
            split_char(
                match field {
                    Some(f) => f,
                    None => "package.version"@,
                },
                '.',
            ).last() + " = \""@ + new + "\""@,
        ),
{
    let f = match field {
        Some(f) => f,
        None => "package.version"@,
    };
    let last = split_char(f, '.').last();
    reveal_strlit(" = \"");
    reveal_strlit("\"");
    crate::text::lemma_replace_all_contains(
        content,
        last + " = \""@ + cur + "\""@,
        last + " = \""@ + new + "\""@,
    );
}

/// Every file that a version file's glob matched gets its change, in
/// order, after the changes before it: on success there is one change for
/// each matched file, the `i`-th being that file's; on failure some matched
/// file's change failed with that error.
pub proof fn law_every_matched_file_changes(
    vf: VersionFile,
    ms: Seq<MatchedFile>,
    root: Seq<char>,
    cur: Seq<char>,
    new: Seq<char>,
    acc: Seq<(Seq<char>, Seq<char>, Seq<char>)>,
)
    ensures
        entry_changes(vf, ms, root, cur, new, acc) matches Ok(a) ==> {
            &&& a.len() == acc.len() + ms.len()
            &&& a.take(acc.len() as int) == acc
            &&& forall|i: int|
                0 <= i < ms.len() ==> matched_change(vf, #[trigger] ms[i], root, cur, new) == Ok::<
                    (Seq<char>, Seq<char>, Seq<char>),
                    VersionFileErrorView,
                >(a[acc.len() + i])
        },
        entry_changes(vf, ms, root, cur, new, acc) matches Err(e) ==> exists|i: int|
            0 <= i < ms.len() && matched_change(vf, #[trigger] ms[i], root, cur, new)
                == Err::<(Seq<char>, Seq<char>, Seq<char>), VersionFileErrorView>(e),
    decreases ms.len(),
{
    if ms.len() > 0 {
        match matched_change(vf, ms[0], root, cur, new) {
            Err(e) => {
                assert(matched_change(vf, ms[0], root, cur, new) == Err::<
                    (Seq<char>, Seq<char>, Seq<char>),
                    VersionFileErrorView,
                >(e));
            },
            Ok(c) => {
                let rest = ms.drop_first();
                law_every_matched_file_changes(vf, rest, root, cur, new, acc.push(c));
                match entry_changes(vf, ms, root, cur, new, acc) {
                    Ok(a) => {
                        assert(a.take(acc.len() as int) =~= acc.push(c).take(acc.len() as int)) by {
                            assert(a.take((acc.len() + 1) as int) == acc.push(c));
                        }
                        assert(acc.push(c).take(acc.len() as int) =~= acc);
                        assert forall|i: int| 0 <= i < ms.len() implies matched_change(
                            vf,
                            #[trigger] ms[i],
                            root,
                            cur,
                            new,
                        ) == Ok::<(Seq<char>, Seq<char>, Seq<char>), VersionFileErrorView>(
                            a[acc.len() + i],
                        ) by {
                            if i == 0 {
                                assert(a.take((acc.len() + 1) as int)[acc.len() as int] == c);
                            } else {
                                assert(ms[i] == rest[i - 1]);
                            }
                        }
                    },
                    Err(e) => {
                        let i = choose|i: int|
                            0 <= i < rest.len() && matched_change(vf, #[trigger] rest[i], root, cur, new)
                                == Err::<(Seq<char>, Seq<char>, Seq<char>), VersionFileErrorView>(e);
                        assert(ms[i + 1] == rest[i]);
                    },
                }
            },
        }
    }
}

} // verus!
