//! Semantic versions: the parts that `semver::Version` holds, as plain values.

use vstd::prelude::*;
use vstd::string::*;

use crate::text::{
    dec, dec_u64, extend_chars, extend_str, is_ascii_alnum, is_ascii_text, string_of,
};

verus! {

/// A semantic version `MAJOR.MINOR.PATCH[-PRE][+BUILD]`.
///
/// `pre` and `build` hold the dot-separated identifiers without their
/// leading `-` / `+`; they are empty when absent.
#[derive(Debug, Clone, PartialEq, Eq)]
pub struct Version {
    pub major: u64,
    pub minor: u64,
    pub patch: u64,
    pub pre: String,
    pub build: String,
}

/// The mathematical value of a [`Version`].
pub struct VersionView {
    pub major: u64,
    pub minor: u64,
    pub patch: u64,
    pub pre: Seq<char>,
    pub build: Seq<char>,
}

impl View for Version {
    type V = VersionView;

    open spec fn view(&self) -> VersionView {
        VersionView {
            major: self.major,
            minor: self.minor,
            patch: self.patch,
            pre: self.pre@,
            build: self.build@,
        }
    }
}

/// The result of comparing two versions by semver precedence.
#[derive(Debug, Clone, Copy, PartialEq, Eq)]
pub enum VersionOrder {
    Less,
    Equal,
    Greater,
}

/// The text of a version, as `semver::Version`'s `Display` writes it.
pub open spec fn version_text(v: VersionView) -> Seq<char> {
    let core = dec(v.major as nat) + seq!['.'] + dec(v.minor as nat) + seq!['.'] + dec(
        v.patch as nat,
    );
    let with_pre = if v.pre.len() > 0 {
        core + seq!['-'] + v.pre
    } else {
        core
    };
    if v.build.len() > 0 {
        with_pre + seq!['+'] + v.build
    } else {
        with_pre
    }
}

/// The characters semver allows in pre-release and build identifiers.
pub open spec fn identifier_text(s: Seq<char>) -> bool {
    forall|i: int| 0 <= i < s.len() ==> is_ascii_alnum(#[trigger] s[i]) || s[i] == '-' || s[i] == '.'
}

/// What `semver::Version::parse` gives for `text`: `None` where it rejects
/// the text.
pub uninterp spec fn semver_parse(text: Seq<char>) -> Option<VersionView>;

/// What `semver::Prerelease`'s `Ord` says of two pre-release identifier lists.
pub uninterp spec fn semver_pre_order(a: Seq<char>, b: Seq<char>) -> VersionOrder;

/// What `semver::BuildMetadata`'s `Ord` says of two build identifier lists.
pub uninterp spec fn semver_build_order(a: Seq<char>, b: Seq<char>) -> VersionOrder;

/// Text that semver can accept at all: it is ASCII and starts with a digit.
pub open spec fn accepted_version_text(t: Seq<char>) -> bool {
    &&& t.len() > 0
    &&& '0' <= t[0] <= '9'
    &&& is_ascii_text(t)
}

/// What `semver::Error`'s `Display` writes for the error that
/// `semver::Version::parse` gives for `text`.
pub uninterp spec fn semver_error_message(text: Seq<char>) -> Seq<char>;

/// `semver::Version::parse`, with a rejection given as the error's
/// `Display` text. The contract names both results; the crate's
/// documentation states that pre-release and build identifiers only hold
/// `0-9`, `A-Z`, `a-z`, `-` and `.`, and this is stated too, as is what its
/// parser shows of an accepted text: it starts with the digits of the
/// major number and holds only ASCII characters (nothing is trimmed).
#[verifier::external_body]
fn semver_version_parse(text: &str) -> (r: Result<Version, String>)
    ensures
        r is Ok <==> semver_parse(text@) is Some,
        r is Ok ==> accepted_version_text(text@),
        r matches Ok(v) ==> v@ == semver_parse(text@).unwrap() && identifier_text(v.pre@)
            && identifier_text(v.build@),
        r matches Err(m) ==> m@ == semver_error_message(text@),
{
    match semver::Version::parse(text) {
        Ok(v) => Ok(
            Version {
                major: v.major,
                minor: v.minor,
                patch: v.patch,
                pre: v.pre.as_str().to_string(),
                build: v.build.as_str().to_string(),
            },
        ),
        Err(e) => Err(e.to_string()),
    }
}

/// `Ord::cmp` of `semver::Prerelease` on the identifiers `a` and `b` (an
/// identifier list that semver rejects counts as empty). The contract
/// names the result.
#[verifier::external_body]
fn prerelease_precedence(a: &str, b: &str) -> (r: VersionOrder)
    ensures
        r == semver_pre_order(a@, b@),
{
    let x = semver::Prerelease::new(a).unwrap_or(semver::Prerelease::EMPTY);
    let y = semver::Prerelease::new(b).unwrap_or(semver::Prerelease::EMPTY);
    match x.cmp(&y) {
        std::cmp::Ordering::Less => VersionOrder::Less,
        std::cmp::Ordering::Equal => VersionOrder::Equal,
        std::cmp::Ordering::Greater => VersionOrder::Greater,
    }
}

/// `Ord::cmp` of `semver::BuildMetadata` on the identifiers `a` and `b`
/// (an identifier list that semver rejects counts as empty). The contract
/// names the result.
#[verifier::external_body]
fn build_precedence(a: &str, b: &str) -> (r: VersionOrder)
    ensures
        r == semver_build_order(a@, b@),
{
    let x = semver::BuildMetadata::new(a).unwrap_or(semver::BuildMetadata::EMPTY);
    let y = semver::BuildMetadata::new(b).unwrap_or(semver::BuildMetadata::EMPTY);
    match x.cmp(&y) {
        std::cmp::Ordering::Less => VersionOrder::Less,
        std::cmp::Ordering::Equal => VersionOrder::Equal,
        std::cmp::Ordering::Greater => VersionOrder::Greater,
    }
}

/// Two numbers in order.
pub open spec fn number_order(a: u64, b: u64) -> VersionOrder {
    if a < b {
        VersionOrder::Less
    } else if a > b {
        VersionOrder::Greater
    } else {
        VersionOrder::Equal
    }
}

/// The precedence of versions, as `semver::Version`'s derived `Ord` gives
/// it: by major, then minor, then patch, then pre-release, then build
/// metadata.
pub open spec fn version_order(a: VersionView, b: VersionView) -> VersionOrder {
    if a.major != b.major {
        number_order(a.major, b.major)
    } else if a.minor != b.minor {
        number_order(a.minor, b.minor)
    } else if a.patch != b.patch {
        number_order(a.patch, b.patch)
    } else if semver_pre_order(a.pre, b.pre) != VersionOrder::Equal {
        semver_pre_order(a.pre, b.pre)
    } else {
        semver_build_order(a.build, b.build)
    }
}

/// Why a version text was rejected; `message` is semver's own explanation.
#[derive(Debug, Clone, PartialEq, Eq)]
pub struct SemverError {
    pub message: String,
}

impl Version {
    /// `MAJOR.MINOR.PATCH` with no pre-release and no build metadata.
    pub fn new(major: u64, minor: u64, patch: u64) -> (r: Version)
        ensures
            r@ == (VersionView { major, minor, patch, pre: seq![], build: seq![] }),
    {
        Version { major, minor, patch, pre: String::new(), build: String::new() }
    }

    /// Parses a semantic version.
    pub fn parse(text: &str) -> (r: Result<Version, SemverError>)
        ensures
            r is Ok <==> semver_parse(text@) is Some,
            r matches Ok(v) ==> v@ == semver_parse(text@).unwrap(),
            r matches Ok(v) ==> identifier_text(v.pre@) && identifier_text(v.build@),
            r is Ok ==> accepted_version_text(text@),
            r matches Err(e) ==> e.message@ == semver_error_message(text@),
    {
        match semver_version_parse(text) {
            Ok(v) => Ok(v),
            Err(message) => Err(SemverError { message }),
        }
    }

    /// Compares two versions by semver precedence.
    pub fn precedence(&self, other: &Version) -> (r: VersionOrder)
        ensures
            r == version_order(self@, other@),
    {
        if self.major != other.major {
            return if self.major < other.major {
                VersionOrder::Less
            } else {
                VersionOrder::Greater
            };
        }
        if self.minor != other.minor {
            return if self.minor < other.minor {
                VersionOrder::Less
            } else {
                VersionOrder::Greater
            };
        }
        if self.patch != other.patch {
            return if self.patch < other.patch {
                VersionOrder::Less
            } else {
                VersionOrder::Greater
            };
        }
        let pre = prerelease_precedence(self.pre.as_str(), other.pre.as_str());
        match pre {
            VersionOrder::Equal => build_precedence(self.build.as_str(), other.build.as_str()),
            _ => pre,
        }
    }

    /// The version's text (`MAJOR.MINOR.PATCH[-PRE][+BUILD]`).
    pub fn to_string(&self) -> (r: String)
        ensures
            r@ == version_text(self@),
    {
        let mut t: Vec<char> = dec_u64(self.major);
        t.push('.');
        let m = dec_u64(self.minor);
        extend_chars(&mut t, m.as_slice());
        t.push('.');
        let p = dec_u64(self.patch);
        extend_chars(&mut t, p.as_slice());
        let ghost core = t@;
        if !self.pre.as_str().is_empty() {
            t.push('-');
            extend_str(&mut t, self.pre.as_str());
        }
        let ghost with_pre = t@;
        if !self.build.as_str().is_empty() {
            t.push('+');
            extend_str(&mut t, self.build.as_str());
        }
        string_of(t.as_slice())
    }
}

/// Version numbers `a` below `b`: a lower major number, or the same major
/// and a lower minor number, or the same major and minor and a lower patch
/// number.
pub open spec fn numbers_below(a: VersionView, b: VersionView) -> bool {
    a.major < b.major || (a.major == b.major && a.minor < b.minor) || (a.major == b.major
        && a.minor == b.minor && a.patch < b.patch)
}

/// Precedence compares the version numbers first, as numbers: a version
/// with lower numbers comes before one with higher numbers, whatever their
/// pre-release and build parts, and the comparison the other way round
/// gives the opposite.
pub proof fn law_precedence_orders_numbers(a: VersionView, b: VersionView)
    ensures
        numbers_below(a, b) ==> version_order(a, b) == VersionOrder::Less && version_order(b, a)
            == VersionOrder::Greater,
        numbers_below(a, b) || numbers_below(b, a) ==> (version_order(a, b) == VersionOrder::Less
            <==> version_order(b, a) == VersionOrder::Greater),
{
}

} // verus!
