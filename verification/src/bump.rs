//! Version bumps: what a bump argument means and which version it leads to.

use vstd::prelude::*;
use vstd::string::*;

use crate::text::{
    ascii_lower, chars_eq, chars_of, concat2, concat3, concat5, dec, dec_u64, digit_char,
    extend_chars, extend_str, is_ascii_text, lower_text, lowercase, parse_u64, parse_u64_spec,
    split_char, split_on, string_of, to_lowercase, views,
};
use crate::version::{
    accepted_version_text, semver_parse, version_order, version_text, SemverError, Version, VersionOrder, VersionView,
};

verus! {

/// Pre-release identifier type.
#[derive(Debug, Clone, Copy, PartialEq, Eq)]
pub enum PreReleaseType {
    /// Alpha pre-release (e.g., 1.0.0-alpha.1)
    Alpha,
    /// Beta pre-release (e.g., 1.0.0-beta.1)
    Beta,
    /// Release Candidate (e.g., 1.0.0-rc.1)
    Rc,
}

impl PreReleaseType {
    /// The identifier that names the type.
    pub open spec fn text(self) -> Seq<char> {
        match self {
            PreReleaseType::Alpha => "alpha"@,
            PreReleaseType::Beta => "beta"@,
            PreReleaseType::Rc => "rc"@,
        }
    }

    /// The identifier that names the type.
    pub fn as_str(&self) -> (r: &'static str)
        ensures
            r@ == self.text(),
    {
        match self {
            PreReleaseType::Alpha => "alpha",
            PreReleaseType::Beta => "beta",
            PreReleaseType::Rc => "rc",
        }
    }

    /// The identifier that names the type, as its `Display` writes it.
    pub fn to_string(&self) -> (r: String)
        ensures
            r@ == self.text(),
    {
        String::from_str(self.as_str())
    }
}

/// A version bump: either a kind of bump or an explicit version.
#[derive(Debug, Clone, PartialEq, Eq)]
pub enum VersionBump {
    /// Bump the major version (X.0.0)
    Major,
    /// Bump the minor version (x.Y.0)
    Minor,
    /// Bump the patch version (x.y.Z)
    Patch,
    /// Bump major and create pre-release (e.g., 1.2.3 -> 2.0.0-alpha.1)
    MajorPreRelease(PreReleaseType),
    /// Bump minor and create pre-release (e.g., 1.2.3 -> 1.3.0-beta.1)
    MinorPreRelease(PreReleaseType),
    /// Bump patch and create pre-release (e.g., 1.2.3 -> 1.2.4-rc.1)
    PatchPreRelease(PreReleaseType),
    /// Bump pre-release number (e.g., 1.0.0-alpha.1 -> 1.0.0-alpha.2)
    PreRelease(PreReleaseType),
    /// Set an explicit version (e.g., "1.2.3" or "1.2.3-alpha.1")
    Explicit(String),
}

/// The mathematical value of a [`VersionBump`].
pub enum VersionBumpView {
    Major,
    Minor,
    Patch,
    MajorPreRelease(PreReleaseType),
    MinorPreRelease(PreReleaseType),
    PatchPreRelease(PreReleaseType),
    PreRelease(PreReleaseType),
    Explicit(Seq<char>),
}

impl View for VersionBump {
    type V = VersionBumpView;

    open spec fn view(&self) -> VersionBumpView {
        match self {
            VersionBump::Major => VersionBumpView::Major,
            VersionBump::Minor => VersionBumpView::Minor,
            VersionBump::Patch => VersionBumpView::Patch,
            VersionBump::MajorPreRelease(t) => VersionBumpView::MajorPreRelease(*t),
            VersionBump::MinorPreRelease(t) => VersionBumpView::MinorPreRelease(*t),
            VersionBump::PatchPreRelease(t) => VersionBumpView::PatchPreRelease(*t),
            VersionBump::PreRelease(t) => VersionBumpView::PreRelease(*t),
            VersionBump::Explicit(s) => VersionBumpView::Explicit(s@),
        }
    }
}

/// Errors that can occur when parsing or applying a version bump argument.
#[derive(Debug, Clone, PartialEq, Eq)]
pub enum VersionBumpError {
    /// The provided version bump argument is invalid
    InvalidBump(String),
    /// The provided explicit version is malformed
    MalformedVersion(String),
    /// The provided explicit version is a version prior to the current version
    ExplicitVersionPrior { current: String, new: String },
    /// The provided explicit version is the same as the current version
    ExplicitVersionSame { current: String, new: String },
}

/// The mathematical value of a [`VersionBumpError`].
pub enum VersionBumpErrorView {
    InvalidBump(Seq<char>),
    MalformedVersion(Seq<char>),
    ExplicitVersionPrior { current: Seq<char>, new: Seq<char> },
    ExplicitVersionSame { current: Seq<char>, new: Seq<char> },
}

impl View for VersionBumpError {
    type V = VersionBumpErrorView;

    open spec fn view(&self) -> VersionBumpErrorView {
        match self {
            VersionBumpError::InvalidBump(s) => VersionBumpErrorView::InvalidBump(s@),
            VersionBumpError::MalformedVersion(s) => VersionBumpErrorView::MalformedVersion(s@),
            VersionBumpError::ExplicitVersionPrior { current, new } =>
                VersionBumpErrorView::ExplicitVersionPrior { current: current@, new: new@ },
            VersionBumpError::ExplicitVersionSame { current, new } =>
                VersionBumpErrorView::ExplicitVersionSame { current: current@, new: new@ },
        }
    }
}

/// The message of a [`VersionBumpError`].
pub open spec fn bump_error_text(e: VersionBumpErrorView) -> Seq<char> {
    match e {
        VersionBumpErrorView::InvalidBump(s) => "invalid version bump: '"@ + s
            + "'. Expected 'major', 'minor', 'patch', 'alpha', 'beta', 'rc', combinations like 'major-alpha', or a semantic version like '1.2.3'"@,
        VersionBumpErrorView::MalformedVersion(s) => "malformed version: '"@ + s
            + "'. Expected format 'X.Y.Z' where X, Y, and Z are non-negative integers"@,
        VersionBumpErrorView::ExplicitVersionPrior { current, new } => "explicit version '"@
            + new + "' is prior to the current version '"@ + current + "'"@,
        VersionBumpErrorView::ExplicitVersionSame { current, new } => "explicit version '"@ + new
            + "' is the same as the current version '"@ + current + "'"@,
    }
}

impl VersionBumpError {
    /// The error's message, as its `Display` writes it.
    pub fn to_string(&self) -> (r: String)
        ensures
            r@ == bump_error_text(self@),
    {
        match self {
            VersionBumpError::InvalidBump(s) => concat3(
                "invalid version bump: '",
                s.as_str(),
                "'. Expected 'major', 'minor', 'patch', 'alpha', 'beta', 'rc', combinations like 'major-alpha', or a semantic version like '1.2.3'",
            ),
            VersionBumpError::MalformedVersion(s) => concat3(
                "malformed version: '",
                s.as_str(),
                "'. Expected format 'X.Y.Z' where X, Y, and Z are non-negative integers",
            ),
            VersionBumpError::ExplicitVersionPrior { current, new } => concat5(
                "explicit version '",
                new.as_str(),
                "' is prior to the current version '",
                current.as_str(),
                "'",
            ),
            VersionBumpError::ExplicitVersionSame { current, new } => concat5(
                "explicit version '",
                new.as_str(),
                "' is the same as the current version '",
                current.as_str(),
                "'",
            ),
        }
    }
}

/// `_` and `.` become `-`.
pub open spec fn dash_char(c: char) -> char {
    if c == '_' || c == '.' {
        '-'
    } else {
        c
    }
}

/// The bump argument lowercased (`str::to_lowercase`, which on ASCII text
/// maps `A`..`Z` to `a`..`z`), with `_` and `.` read as `-`.
pub open spec fn normalize_bump(s: Seq<char>) -> Seq<char> {
    lower_text(s).map_values(|c: char| dash_char(c))
}

/// The bump that a normalized keyword names.
pub open spec fn keyword_bump(n: Seq<char>) -> Option<VersionBumpView> {
    if n == "major"@ {
        Some(VersionBumpView::Major)
    } else if n == "minor"@ {
        Some(VersionBumpView::Minor)
    } else if n == "patch"@ {
        Some(VersionBumpView::Patch)
    } else if n == "alpha"@ {
        Some(VersionBumpView::PreRelease(PreReleaseType::Alpha))
    } else if n == "beta"@ {
        Some(VersionBumpView::PreRelease(PreReleaseType::Beta))
    } else if n == "rc"@ {
        Some(VersionBumpView::PreRelease(PreReleaseType::Rc))
    } else if n == "major-alpha"@ {
        Some(VersionBumpView::MajorPreRelease(PreReleaseType::Alpha))
    } else if n == "major-beta"@ {
        Some(VersionBumpView::MajorPreRelease(PreReleaseType::Beta))
    } else if n == "major-rc"@ {
        Some(VersionBumpView::MajorPreRelease(PreReleaseType::Rc))
    } else if n == "minor-alpha"@ {
        Some(VersionBumpView::MinorPreRelease(PreReleaseType::Alpha))
    } else if n == "minor-beta"@ {
        Some(VersionBumpView::MinorPreRelease(PreReleaseType::Beta))
    } else if n == "minor-rc"@ {
        Some(VersionBumpView::MinorPreRelease(PreReleaseType::Rc))
    } else if n == "patch-alpha"@ {
        Some(VersionBumpView::PatchPreRelease(PreReleaseType::Alpha))
    } else if n == "patch-beta"@ {
        Some(VersionBumpView::PatchPreRelease(PreReleaseType::Beta))
    } else if n == "patch-rc"@ {
        Some(VersionBumpView::PatchPreRelease(PreReleaseType::Rc))
    } else {
        None
    }
}

/// What a bump argument means: a keyword (any case, `_`/`.`/`-` alike),
/// else a semantic version, else an error.
pub open spec fn parse_bump_spec(s: Seq<char>) -> Result<VersionBumpView, VersionBumpErrorView> {
    match keyword_bump(normalize_bump(s)) {
        Some(b) => Ok(b),
        None => if semver_parse(s) is Some {
            Ok(VersionBumpView::Explicit(s))
        } else {
            Err(VersionBumpErrorView::InvalidBump(s))
        },
    }
}

/// The text of a bump, as its `Display` writes it.
pub open spec fn bump_text(b: VersionBumpView) -> Seq<char> {
    match b {
        VersionBumpView::Major => "major"@,
        VersionBumpView::Minor => "minor"@,
        VersionBumpView::Patch => "patch"@,
        VersionBumpView::MajorPreRelease(t) => "major-"@ + t.text(),
        VersionBumpView::MinorPreRelease(t) => "minor-"@ + t.text(),
        VersionBumpView::PatchPreRelease(t) => "patch-"@ + t.text(),
        VersionBumpView::PreRelease(t) => t.text(),
        VersionBumpView::Explicit(v) => v,
    }
}

fn normalize_chars(s: &str) -> (r: Vec<char>)
    ensures
        r@ == normalize_bump(s@),
{
    let lower = to_lowercase(s);
    let c = chars_of(lower.as_str());
    let mut r: Vec<char> = Vec::new();
    let n = c.len();
    for i in 0..n
        invariant
            n == c@.len(),
            c@ == lowercase(s@),
            r@ == c@.take(i as int).map_values(|x: char| dash_char(x)),
    {
        let x = c[i];
        let y = if x == '_' || x == '.' {
            '-'
        } else {
            x
        };
        r.push(y);
        assert(c@.take(i + 1).map_values(|x: char| dash_char(x)) == c@.take(i as int).map_values(
            |x: char| dash_char(x),
        ).push(dash_char(x)));
    }
    assert(c@.take(n as int) == c@);
    r
}

fn is_keyword(n: &[char], k: &str) -> (r: bool)
    ensures
        r == (n@ == k@),
{
    let kc = chars_of(k);
    chars_eq(n, kc.as_slice())
}

impl VersionBump {
    /// Reads a bump argument (`FromStr`).
    pub fn parse(s: &str) -> (r: Result<VersionBump, VersionBumpError>)
        ensures
            match parse_bump_spec(s@) {
                Ok(b) => r is Ok && r->Ok_0@ == b,
                Err(e) => r is Err && r->Err_0@ == e,
            },
    {
        let n = normalize_chars(s);
        let n = n.as_slice();
        if is_keyword(n, "major") {
            Ok(VersionBump::Major)
        } else if is_keyword(n, "minor") {
            Ok(VersionBump::Minor)
        } else if is_keyword(n, "patch") {
            Ok(VersionBump::Patch)
        } else if is_keyword(n, "alpha") {
            Ok(VersionBump::PreRelease(PreReleaseType::Alpha))
        } else if is_keyword(n, "beta") {
            Ok(VersionBump::PreRelease(PreReleaseType::Beta))
        } else if is_keyword(n, "rc") {
            Ok(VersionBump::PreRelease(PreReleaseType::Rc))
        } else if is_keyword(n, "major-alpha") {
            Ok(VersionBump::MajorPreRelease(PreReleaseType::Alpha))
        } else if is_keyword(n, "major-beta") {
            Ok(VersionBump::MajorPreRelease(PreReleaseType::Beta))
        } else if is_keyword(n, "major-rc") {
            Ok(VersionBump::MajorPreRelease(PreReleaseType::Rc))
        } else if is_keyword(n, "minor-alpha") {
            Ok(VersionBump::MinorPreRelease(PreReleaseType::Alpha))
        } else if is_keyword(n, "minor-beta") {
            Ok(VersionBump::MinorPreRelease(PreReleaseType::Beta))
        } else if is_keyword(n, "minor-rc") {
            Ok(VersionBump::MinorPreRelease(PreReleaseType::Rc))
        } else if is_keyword(n, "patch-alpha") {
            Ok(VersionBump::PatchPreRelease(PreReleaseType::Alpha))
        } else if is_keyword(n, "patch-beta") {
            Ok(VersionBump::PatchPreRelease(PreReleaseType::Beta))
        } else if is_keyword(n, "patch-rc") {
            Ok(VersionBump::PatchPreRelease(PreReleaseType::Rc))
        } else {
            match Version::parse(s) {
                Ok(_) => Ok(VersionBump::Explicit(String::from_str(s))),
                Err(_) => Err(VersionBumpError::InvalidBump(String::from_str(s))),
            }
        }
    }

    /// The bump's text, as its `Display` writes it.
    pub fn to_string(&self) -> (r: String)
        ensures
            r@ == bump_text(self@),
    {
        match self {
            VersionBump::Major => String::from_str("major"),
            VersionBump::Minor => String::from_str("minor"),
            VersionBump::Patch => String::from_str("patch"),
            VersionBump::MajorPreRelease(t) => concat2("major-", t.as_str()),
            VersionBump::MinorPreRelease(t) => concat2("minor-", t.as_str()),
            VersionBump::PatchPreRelease(t) => concat2("patch-", t.as_str()),
            VersionBump::PreRelease(t) => t.to_string(),
            VersionBump::Explicit(v) => v.clone(),
        }
    }
}

impl std::str::FromStr for VersionBump {
    type Err = VersionBumpError;

    fn from_str(s: &str) -> (r: Result<VersionBump, VersionBumpError>)
        ensures
            match parse_bump_spec(s@) {
                Ok(b) => r is Ok && r->Ok_0@ == b,
                Err(e) => r is Err && r->Err_0@ == e,
            },
    {
        VersionBump::parse(s)
    }
}

/// The pre-release identifiers `TYPE.N`.
pub open spec fn prerelease_text(t: PreReleaseType, n: nat) -> Seq<char> {
    t.text() + seq!['.'] + dec(n)
}

/// The number that the next `t` pre-release gets after the pre-release
/// identifiers `pre`: 0 after a release, else one more than the number
/// after `t.` (1 when there is none).
pub open spec fn next_prerelease_number(pre: Seq<char>, t: PreReleaseType) -> Result<
    nat,
    VersionBumpErrorView,
> {
    if pre.len() == 0 {
        Ok(0)
    } else {
        let parts = split_char(pre, '.');
        if parts[0] != t.text() {
            Err(
                VersionBumpErrorView::InvalidBump(
                    "Cannot bump "@ + t.text() + " prerelease on a "@ + parts[0] + " version"@,
                ),
            )
        } else if parts.len() > 1 {
            match parse_u64_spec(parts[1]) {
                Some(n) => Ok((n + 1) as nat),
                None => Err(
                    VersionBumpErrorView::MalformedVersion("Invalid prerelease number in: "@ + pre),
                ),
            }
        } else {
            Ok(1)
        }
    }
}

/// Why a new version could not be calculated.
#[derive(Debug, Clone, PartialEq, Eq)]
pub enum CalculateError {
    /// The current version is not a semantic version.
    InvalidCurrentVersion(SemverError),
    /// The bump does not apply to the current version.
    Bump(VersionBumpError),
    /// A version number would pass `u64::MAX`.
    Overflow,
}

/// The mathematical value of a [`CalculateError`].
pub enum CalculateErrorView {
    InvalidCurrentVersion,
    Bump(VersionBumpErrorView),
    Overflow,
}

impl View for CalculateError {
    type V = CalculateErrorView;

    open spec fn view(&self) -> CalculateErrorView {
        match self {
            CalculateError::InvalidCurrentVersion(_) => CalculateErrorView::InvalidCurrentVersion,
            CalculateError::Bump(e) => CalculateErrorView::Bump(e@),
            CalculateError::Overflow => CalculateErrorView::Overflow,
        }
    }
}

/// No version number passes `u64::MAX` when `b` is applied to `v`.
pub open spec fn bump_fits(v: VersionView, b: VersionBumpView) -> bool {
    match b {
        VersionBumpView::Major | VersionBumpView::MajorPreRelease(_) => v.major < u64::MAX,
        VersionBumpView::Minor | VersionBumpView::MinorPreRelease(_) => v.minor < u64::MAX,
        VersionBumpView::Patch | VersionBumpView::PatchPreRelease(_) => v.patch < u64::MAX,
        VersionBumpView::PreRelease(t) => next_prerelease_number(v.pre, t) matches Ok(n) ==> n
            <= u64::MAX,
        VersionBumpView::Explicit(_) => true,
    }
}

/// The version that bump `b` gives from `v`. The numbers below the bumped
/// one restart at 0, and the build metadata is kept.
pub open spec fn bumped_version(v: VersionView, b: VersionBumpView) -> Result<
    VersionView,
    CalculateErrorView,
> {
    match b {
        VersionBumpView::Major => Ok(
            VersionView {
                major: (v.major + 1) as u64,
                minor: 0,
                patch: 0,
                pre: seq![],
                build: v.build,
            },
        ),
        VersionBumpView::Minor => Ok(
            VersionView { minor: (v.minor + 1) as u64, patch: 0, pre: seq![], ..v },
        ),
        VersionBumpView::Patch => Ok(VersionView { patch: (v.patch + 1) as u64, pre: seq![], ..v }),
        VersionBumpView::MajorPreRelease(t) => Ok(
            VersionView {
                major: (v.major + 1) as u64,
                minor: 0,
                patch: 0,
                pre: prerelease_text(t, 1),
                build: v.build,
            },
        ),
        VersionBumpView::MinorPreRelease(t) => Ok(
            VersionView { minor: (v.minor + 1) as u64, patch: 0, pre: prerelease_text(t, 1), ..v },
        ),
        VersionBumpView::PatchPreRelease(t) => Ok(
            VersionView { patch: (v.patch + 1) as u64, pre: prerelease_text(t, 1), ..v },
        ),
        VersionBumpView::PreRelease(t) => match next_prerelease_number(v.pre, t) {
            Ok(n) => Ok(VersionView { pre: prerelease_text(t, n), ..v }),
            Err(e) => Err(CalculateErrorView::Bump(e)),
        },
        VersionBumpView::Explicit(s) => match semver_parse(s) {
            None => Err(CalculateErrorView::Bump(VersionBumpErrorView::MalformedVersion(s))),
            Some(nv) => match explicit_version_spec(v, nv, version_order(nv, v)) {
                Ok(r) => Ok(r),
                Err(e) => Err(CalculateErrorView::Bump(e)),
            },
        },
    }
}

/// An explicit version `new` is taken only when it comes after `current`;
/// `order` is how `new` compares with `current`.
pub open spec fn explicit_version_spec(
    current: VersionView,
    new: VersionView,
    order: VersionOrder,
) -> Result<VersionView, VersionBumpErrorView> {
    match order {
        VersionOrder::Less => Err(
            VersionBumpErrorView::ExplicitVersionPrior {
                current: version_text(current),
                new: version_text(new),
            },
        ),
        VersionOrder::Equal => Err(
            VersionBumpErrorView::ExplicitVersionSame {
                current: version_text(current),
                new: version_text(new),
            },
        ),
        VersionOrder::Greater => Ok(new),
    }
}

/// What `calculate_new_version` gives for the current version text and a bump.
pub open spec fn calculate_spec(current: Seq<char>, b: VersionBumpView) -> Result<
    VersionView,
    CalculateErrorView,
> {
    match semver_parse(current) {
        None => Err(CalculateErrorView::InvalidCurrentVersion),
        Some(v) => if bump_fits(v, b) {
            bumped_version(v, b)
        } else {
            Err(CalculateErrorView::Overflow)
        },
    }
}

/// The pre-release identifiers `TYPE.N`.
fn make_prerelease(t: PreReleaseType, n: u64) -> (r: String)
    ensures
        r@ == prerelease_text(t, n as nat),
{
    let mut c = chars_of(t.as_str());
    c.push('.');
    let d = dec_u64(n);
    extend_chars(&mut c, d.as_slice());
    string_of(c.as_slice())
}

/// The number that the next `t` pre-release gets after `pre`.
fn prerelease_number(pre: &str, t: PreReleaseType) -> (r: Result<u64, VersionBumpError>)
    requires
        next_prerelease_number(pre@, t) matches Ok(n) ==> n <= u64::MAX,
    ensures
        match next_prerelease_number(pre@, t) {
            Ok(n) => r == Ok::<u64, VersionBumpError>(n as u64),
            Err(e) => r is Err && r->Err_0@ == e,
        },
{
    if pre.is_empty() {
        return Ok(0);
    }
    let pc = chars_of(pre);
    let parts = split_on(pc.as_slice(), '.');
    proof {
        crate::text::lemma_split_from_len(pre@, '.', seq![]);
        assert(views(parts@)[0] == parts@[0]@);
    }
    let tc = chars_of(t.as_str());
    let first = chars_of(parts[0].as_str());
    if !chars_eq(first.as_slice(), tc.as_slice()) {
        return Err(
            VersionBumpError::InvalidBump(
                concat5("Cannot bump ", t.as_str(), " prerelease on a ", parts[0].as_str(), " version"),
            ),
        );
    }
    if parts.len() > 1 {
        assert(views(parts@)[1] == parts@[1]@);
        let second = chars_of(parts[1].as_str());
        match parse_u64(second.as_slice()) {
            Some(n) => Ok(n + 1),
            None => Err(VersionBumpError::MalformedVersion(concat2("Invalid prerelease number in: ", pre))),
        }
    } else {
        Ok(1)
    }
}

/// Applies an explicit version: taken only when it comes after `current`.
/// `order` is how `new` compares with `current` (see [`Version::precedence`]).
pub fn resolve_explicit_version(current: &Version, new: Version, order: VersionOrder) -> (r: Result<
    Version,
    VersionBumpError,
>)
    ensures
        match explicit_version_spec(current@, new@, order) {
            Ok(v) => r is Ok && r->Ok_0@ == v,
            Err(e) => r is Err && r->Err_0@ == e,
        },
{
    match order {
        VersionOrder::Less => Err(
            VersionBumpError::ExplicitVersionPrior {
                current: current.to_string(),
                new: new.to_string(),
            },
        ),
        VersionOrder::Equal => Err(
            VersionBumpError::ExplicitVersionSame {
                current: current.to_string(),
                new: new.to_string(),
            },
        ),
        VersionOrder::Greater => Ok(new),
    }
}

/// Applies a bump to a parsed version.
pub fn bump_version(current: &Version, bump: &VersionBump) -> (r: Result<Version, CalculateError>)
    requires
        bump_fits(current@, bump@),
    ensures
        match bumped_version(current@, bump@) {
            Ok(v) => r is Ok && r->Ok_0@ == v,
            Err(e) => r is Err && r->Err_0@ == e,
        },
{
    match bump {
        VersionBump::Major => Ok(
            Version {
                major: current.major + 1,
                minor: 0,
                patch: 0,
                pre: String::new(),
                build: current.build.clone(),
            },
        ),
        VersionBump::Minor => Ok(
            Version {
                major: current.major,
                minor: current.minor + 1,
                patch: 0,
                pre: String::new(),
                build: current.build.clone(),
            },
        ),
        VersionBump::Patch => Ok(
            Version {
                major: current.major,
                minor: current.minor,
                patch: current.patch + 1,
                pre: String::new(),
                build: current.build.clone(),
            },
        ),
        VersionBump::MajorPreRelease(t) => Ok(
            Version {
                major: current.major + 1,
                minor: 0,
                patch: 0,
                pre: make_prerelease(*t, 1),
                build: current.build.clone(),
            },
        ),
        VersionBump::MinorPreRelease(t) => Ok(
            Version {
                major: current.major,
                minor: current.minor + 1,
                patch: 0,
                pre: make_prerelease(*t, 1),
                build: current.build.clone(),
            },
        ),
        VersionBump::PatchPreRelease(t) => Ok(
            Version {
                major: current.major,
                minor: current.minor,
                patch: current.patch + 1,
                pre: make_prerelease(*t, 1),
                build: current.build.clone(),
            },
        ),
        VersionBump::PreRelease(t) => match prerelease_number(current.pre.as_str(), *t) {
            Ok(n) => Ok(
                Version {
                    major: current.major,
                    minor: current.minor,
                    patch: current.patch,
                    pre: make_prerelease(*t, n),
                    build: current.build.clone(),
                },
            ),
            Err(e) => Err(CalculateError::Bump(e)),
        },
        VersionBump::Explicit(s) => match Version::parse(s.as_str()) {
            Err(_) => Err(CalculateError::Bump(VersionBumpError::MalformedVersion(s.clone()))),
            Ok(nv) => {
                let order = nv.precedence(current);
                match resolve_explicit_version(current, nv, order) {
                    Ok(v) => Ok(v),
                    Err(e) => Err(CalculateError::Bump(e)),
                }
            },
        },
    }
}

/// Whether applying `bump` to `current` keeps every number within `u64`.
pub fn bump_stays_in_range(current: &Version, bump: &VersionBump) -> (r: bool)
    ensures
        r == bump_fits(current@, bump@),
{
    match bump {
        VersionBump::Major | VersionBump::MajorPreRelease(_) => current.major < u64::MAX,
        VersionBump::Minor | VersionBump::MinorPreRelease(_) => current.minor < u64::MAX,
        VersionBump::Patch | VersionBump::PatchPreRelease(_) => current.patch < u64::MAX,
        VersionBump::PreRelease(t) => {
            let pre = current.pre.as_str();
            if pre.is_empty() {
                return true;
            }
            let pc = chars_of(pre);
            let parts = split_on(pc.as_slice(), '.');
            proof {
                crate::text::lemma_split_from_len(pre@, '.', seq![]);
                assert(views(parts@)[0] == parts@[0]@);
            }
            let tc = chars_of(t.as_str());
            let first = chars_of(parts[0].as_str());
            if !chars_eq(first.as_slice(), tc.as_slice()) || parts.len() <= 1 {
                return true;
            }
            assert(views(parts@)[1] == parts@[1]@);
            let second = chars_of(parts[1].as_str());
            match parse_u64(second.as_slice()) {
                Some(n) => n < u64::MAX,
                None => true,
            }
        },
        VersionBump::Explicit(_) => true,
    }
}

/// Calculates the version that `bump` gives from the version text `current`.
pub fn calculate_new_version(current: &str, bump: &VersionBump) -> (r: Result<Version, CalculateError>)
    ensures
        match calculate_spec(current@, bump@) {
            Ok(v) => r is Ok && r->Ok_0@ == v,
            Err(e) => r is Err && r->Err_0@ == e,
        },
        r matches Err(CalculateError::InvalidCurrentVersion(e)) ==> e.message@
            == crate::version::semver_error_message(current@),
{
    let current_version = match Version::parse(current) {
        Ok(v) => v,
        Err(e) => return Err(CalculateError::InvalidCurrentVersion(e)),
    };
    if !bump_stays_in_range(&current_version, bump) {
        return Err(CalculateError::Overflow);
    }
    bump_version(&current_version, bump)
}

/// The message of a [`CalculateError`] (the outermost one of its chain).
pub open spec fn calculate_error_text(e: CalculateErrorView) -> Seq<char> {
    match e {
        CalculateErrorView::InvalidCurrentVersion => "Invalid current version"@,
        CalculateErrorView::Bump(b) => match b {
            VersionBumpErrorView::ExplicitVersionPrior { .. }
            | VersionBumpErrorView::ExplicitVersionSame { .. } => "Invalid version bump"@,
            _ => bump_error_text(b),
        },
        CalculateErrorView::Overflow => "Version number overflow"@,
    }
}

impl CalculateError {
    /// The outermost message.
    pub fn to_string(&self) -> (r: String)
        ensures
            r@ == calculate_error_text(self@),
    {
        match self {
            CalculateError::InvalidCurrentVersion(_) => String::from_str("Invalid current version"),
            CalculateError::Bump(b) => match b {
                VersionBumpError::ExplicitVersionPrior { .. }
                | VersionBumpError::ExplicitVersionSame { .. } => String::from_str(
                    "Invalid version bump",
                ),
                _ => b.to_string(),
            },
            CalculateError::Overflow => String::from_str("Version number overflow"),
        }
    }

    /// The messages of the causes, outermost first: semver's explanation of
    /// an invalid current version, or the rejected explicit version.
    pub fn causes(&self) -> (r: Vec<String>)
        ensures
            match self {
                CalculateError::InvalidCurrentVersion(e) => r@.len() == 1 && r@[0] == e.message,
                CalculateError::Bump(b) => match b {
                    VersionBumpError::ExplicitVersionPrior { .. }
                    | VersionBumpError::ExplicitVersionSame { .. } => r@.len() == 1 && r@[0]@
                        == bump_error_text(b@),
                    _ => r@.len() == 0,
                },
                CalculateError::Overflow => r@.len() == 0,
            },
    {
        let mut r: Vec<String> = Vec::new();
        match self {
            CalculateError::InvalidCurrentVersion(e) => r.push(e.message.clone()),
            CalculateError::Bump(b) => match b {
                VersionBumpError::ExplicitVersionPrior { .. }
                | VersionBumpError::ExplicitVersionSame { .. } => r.push(b.to_string()),
                _ => {},
            },
            CalculateError::Overflow => {},
        }
        r
    }
}

/// The bump keywords of equal length differ.
proof fn lemma_keywords_distinct()
    ensures
        "major"@ != "minor"@,
        "major"@ != "patch"@,
        "major"@ != "alpha"@,
        "minor"@ != "patch"@,
        "minor"@ != "alpha"@,
        "patch"@ != "alpha"@,
        "major-alpha"@ != "minor-alpha"@,
        "major-alpha"@ != "patch-alpha"@,
        "minor-alpha"@ != "patch-alpha"@,
        "major-beta"@ != "minor-beta"@,
        "major-beta"@ != "patch-beta"@,
        "minor-beta"@ != "patch-beta"@,
        "major-rc"@ != "minor-rc"@,
        "major-rc"@ != "patch-rc"@,
        "minor-rc"@ != "patch-rc"@,
{
    reveal_strlit("major");
    reveal_strlit("minor");
    reveal_strlit("patch");
    reveal_strlit("alpha");
    reveal_strlit("beta");
    reveal_strlit("rc");
    reveal_strlit("major-alpha");
    reveal_strlit("major-beta");
    reveal_strlit("major-rc");
    reveal_strlit("minor-alpha");
    reveal_strlit("minor-beta");
    reveal_strlit("minor-rc");
    reveal_strlit("patch-alpha");
    reveal_strlit("patch-beta");
    reveal_strlit("patch-rc");
    assert("major"@[1] != "minor"@[1]);
    assert("major"@[0] != "patch"@[0]);
    assert("major"@[0] != "alpha"@[0]);
    assert("minor"@[0] != "patch"@[0]);
    assert("minor"@[0] != "alpha"@[0]);
    assert("patch"@[0] != "alpha"@[0]);
    assert("major-alpha"@[1] != "minor-alpha"@[1]);
    assert("major-alpha"@[0] != "patch-alpha"@[0]);
    assert("minor-alpha"@[0] != "patch-alpha"@[0]);
    assert("major-beta"@[1] != "minor-beta"@[1]);
    assert("major-beta"@[0] != "patch-beta"@[0]);
    assert("minor-beta"@[0] != "patch-beta"@[0]);
    assert("major-rc"@[1] != "minor-rc"@[1]);
    assert("major-rc"@[0] != "patch-rc"@[0]);
    assert("minor-rc"@[0] != "patch-rc"@[0]);
}

/// Reading back the text of a bump gives the same bump:
/// `VersionBump::parse(b.to_string())` is `b`, for an explicit version
/// whenever `Version::parse` accepts its text (which `Version::parse`'s
/// contract states is then ASCII and starts with a digit).
pub proof fn law_bump_text_round_trip(b: VersionBumpView)
    requires
        b matches VersionBumpView::Explicit(v) ==> semver_parse(v) is Some
            && accepted_version_text(v),
    ensures
        parse_bump_spec(bump_text(b)) == Ok::<VersionBumpView, VersionBumpErrorView>(b),
{
    match b {
        VersionBumpView::Explicit(v) => lemma_version_text_is_no_keyword(v),
        _ => lemma_keyword_bump_round_trip(b),
    }
}

/// A text that semver accepts (ASCII, starting with a digit) names no bump
/// keyword, whose first letters are letters.
proof fn lemma_version_text_is_no_keyword(v: Seq<char>)
    requires
        accepted_version_text(v),
    ensures
        keyword_bump(normalize_bump(v)) is None,
{
    reveal_strlit("major");
    reveal_strlit("minor");
    reveal_strlit("patch");
    reveal_strlit("alpha");
    reveal_strlit("beta");
    reveal_strlit("rc");
    reveal_strlit("major-alpha");
    reveal_strlit("major-beta");
    reveal_strlit("major-rc");
    reveal_strlit("minor-alpha");
    reveal_strlit("minor-beta");
    reveal_strlit("minor-rc");
    reveal_strlit("patch-alpha");
    reveal_strlit("patch-beta");
    reveal_strlit("patch-rc");
    let n = normalize_bump(v);
    assert(lower_text(v) == ascii_lower(v));
    assert(n.len() == v.len());
    assert(n[0] == v[0]);
    assert(n != "major"@ && n != "minor"@ && n != "patch"@ && n != "alpha"@ && n != "beta"@
        && n != "rc"@) by {
        assert("major"@[0] == 'm' && "minor"@[0] == 'm' && "patch"@[0] == 'p');
        assert("alpha"@[0] == 'a' && "beta"@[0] == 'b' && "rc"@[0] == 'r');
    }
    assert(n != "major-alpha"@ && n != "major-beta"@ && n != "major-rc"@ && n != "minor-alpha"@
        && n != "minor-beta"@ && n != "minor-rc"@ && n != "patch-alpha"@ && n != "patch-beta"@
        && n != "patch-rc"@) by {
        assert("major-alpha"@[0] == 'm' && "major-beta"@[0] == 'm' && "major-rc"@[0] == 'm');
        assert("minor-alpha"@[0] == 'm' && "minor-beta"@[0] == 'm' && "minor-rc"@[0] == 'm');
        assert("patch-alpha"@[0] == 'p' && "patch-beta"@[0] == 'p' && "patch-rc"@[0] == 'p');
    }
}

/// The text of a keyword bump reads back as that bump.
proof fn lemma_keyword_bump_round_trip(b: VersionBumpView)
    requires
        !(b is Explicit),
    ensures
        parse_bump_spec(bump_text(b)) == Ok::<VersionBumpView, VersionBumpErrorView>(b),
{
    reveal_strlit("major");
    reveal_strlit("minor");
    reveal_strlit("patch");
    reveal_strlit("alpha");
    reveal_strlit("beta");
    reveal_strlit("rc");
    reveal_strlit("major-");
    reveal_strlit("minor-");
    reveal_strlit("patch-");
    reveal_strlit("major-alpha");
    reveal_strlit("major-beta");
    reveal_strlit("major-rc");
    reveal_strlit("minor-alpha");
    reveal_strlit("minor-beta");
    reveal_strlit("minor-rc");
    reveal_strlit("patch-alpha");
    reveal_strlit("patch-beta");
    reveal_strlit("patch-rc");
    lemma_keywords_distinct();
    let t = bump_text(b);
    assert(is_ascii_text(t));
    assert(ascii_lower(t).map_values(|c: char| dash_char(c)) =~= t);
    assert(normalize_bump(t) == t);
    assert(keyword_bump(t) == Some(b)) by {
        match b {
            VersionBumpView::MajorPreRelease(p) => {
                assert("major-"@ + p.text() =~= match p {
                    PreReleaseType::Alpha => "major-alpha"@,
                    PreReleaseType::Beta => "major-beta"@,
                    PreReleaseType::Rc => "major-rc"@,
                });
            },
            VersionBumpView::MinorPreRelease(p) => {
                assert("minor-"@ + p.text() =~= match p {
                    PreReleaseType::Alpha => "minor-alpha"@,
                    PreReleaseType::Beta => "minor-beta"@,
                    PreReleaseType::Rc => "minor-rc"@,
                });
            },
            VersionBumpView::PatchPreRelease(p) => {
                assert("patch-"@ + p.text() =~= match p {
                    PreReleaseType::Alpha => "patch-alpha"@,
                    PreReleaseType::Beta => "patch-beta"@,
                    PreReleaseType::Rc => "patch-rc"@,
                });
            },
            _ => {},
        }
    }
}

/// Every bump but a bare pre-release bump gives a later version: the new
/// version comes after the current one in semver precedence.
pub proof fn law_bump_moves_forward(v: VersionView, b: VersionBumpView)
    requires
        !(b is PreRelease),
        bump_fits(v, b),
        bumped_version(v, b) is Ok,
    ensures
        version_order(bumped_version(v, b)->Ok_0, v) == VersionOrder::Greater,
{
}

/// Every digit of a decimal text is an ASCII digit.
pub proof fn lemma_dec_digits(n: nat)
    ensures
        forall|i: int| 0 <= i < dec(n).len() ==> '0' <= #[trigger] dec(n)[i] <= '9',
    decreases n,
{
    let d = n % 10;
    assert(('0' as u32) == 48 && ('9' as u32) == 57);
    assert((digit_char(d) as u32) == d + 48);
    if n >= 10 {
        lemma_dec_digits(n / 10);
        assert forall|i: int| 0 <= i < dec(n).len() implies '0' <= #[trigger] dec(n)[i] <= '9' by {
            if i < dec(n / 10).len() {
                assert(dec(n)[i] == dec(n / 10)[i]);
            }
        }
    } else {
        assert((digit_char(n) as u32) == n + 48);
    }
}

/// An explicit bump never goes to lower version numbers: a new version
/// whose numbers are below the current one's is rejected as prior to it,
/// and a bump that succeeds gives numbers that are not below the current
/// ones.
pub proof fn law_explicit_bump_never_lowers_numbers(v: VersionView, t: Seq<char>)
    ensures
        semver_parse(t) is Some && crate::version::numbers_below(semver_parse(t)->Some_0, v)
            ==> bumped_version(
            v,
            VersionBumpView::Explicit(t),
        ) == Err::<VersionView, CalculateErrorView>(
            CalculateErrorView::Bump(
                VersionBumpErrorView::ExplicitVersionPrior {
                    current: version_text(v),
                    new: version_text(semver_parse(t)->Some_0),
                },
            ),
        ),
        bumped_version(v, VersionBumpView::Explicit(t)) matches Ok(w)
            ==> !crate::version::numbers_below(w, v),
{
    match semver_parse(t) {
        Some(w) => crate::version::law_precedence_orders_numbers(w, v),
        None => {},
    }
}

} // verus!
