//! Changelogs: grouping merged pull requests into sections, writing the
//! Markdown, and reading the latest section back.

use vstd::prelude::*;
use vstd::string::*;

use crate::bump::{bumped_version, lemma_dec_digits, prerelease_text, PreReleaseType, VersionBumpView};
use crate::config::ChangelogConfig;
use crate::version::{identifier_text, version_text, VersionView};
use crate::file_change::{join_path, FileChange, FileChanges};
use crate::github::{
    filter_prs_by_date_range, prs_in_range, prs_view, utc_ymd, GitHubPullRequest, GitHubRelease,
    PullRequestView, Timestamp,
};
use crate::text::{
    chars_of, dec, dec_u64, extend_chars, extend_str, find_char, find_char_index, holds_string,
    opt_view, replace_all, slice_chars, sort_strings, sort_texts, str_replace, string_of,
    strip_prefix_rep, trim_start_matches, views, contains, join, join_strings, lines, lines_of,
    lower_text, lowercase_str, starts_with, str_contains, str_starts_with, trim, trim_chars,
    ascii_lower, is_ascii_alnum, is_ascii_text, occurs_at,
};

verus! {

/// Some label is in `set`.
pub open spec fn has_any_label(labels: Seq<Seq<char>>, set: Seq<Seq<char>>) -> bool {
    exists|i: int| 0 <= i < labels.len() && set.contains(#[trigger] labels[i])
}

/// A pull request that the changelog leaves out: it has an ignored label,
/// or its author is an ignored contributor.
pub open spec fn pr_skipped(p: PullRequestView, cfg: ChangelogConfig) -> bool {
    has_any_label(p.labels, cfg.ignore_labels_view()) || (p.author matches Some(a)
        && cfg.ignore_contributors_view().contains(a))
}

/// The pull request has one of a section's labels.
pub open spec fn in_section(p: PullRequestView, labels: Seq<Seq<char>>) -> bool {
    exists|j: int| 0 <= j < labels.len() && p.labels.contains(#[trigger] labels[j])
}

/// The first section, from the `k`-th on, that the pull request belongs to.
pub open spec fn first_section_from(
    p: PullRequestView,
    secs: Seq<(Seq<char>, Seq<Seq<char>>)>,
    k: int,
) -> Option<int>
    decreases secs.len() - k,
{
    if k < 0 || k >= secs.len() {
        None
    } else if in_section(p, secs[k].1) {
        Some(k)
    } else {
        first_section_from(p, secs, k + 1)
    }
}

/// The first section that the pull request belongs to.
pub open spec fn first_section(p: PullRequestView, secs: Seq<(Seq<char>, Seq<Seq<char>>)>) -> Option<
    int,
> {
    first_section_from(p, secs, 0)
}

/// The pull requests listed under the `i`-th section, in their order.
pub open spec fn section_group(
    prs: Seq<PullRequestView>,
    cfg: ChangelogConfig,
    i: int,
) -> Seq<PullRequestView> {
    prs.filter(|p: PullRequestView| !pr_skipped(p, cfg) && first_section(p, cfg.sections()) == Some(i))
}

/// The non-empty sections among the first `n`, with their pull requests.
pub open spec fn sections_upto(prs: Seq<PullRequestView>, cfg: ChangelogConfig, n: int) -> Seq<
    (Seq<char>, Seq<PullRequestView>),
>
    decreases n,
{
    if n <= 0 {
        seq![]
    } else {
        let prev = sections_upto(prs, cfg, n - 1);
        let g = section_group(prs, cfg, n - 1);
        if g.len() > 0 {
            prev.push((cfg.sections()[n - 1].0, g))
        } else {
            prev
        }
    }
}

/// The sections of the changelog: each section (in the order of the
/// configuration) that receives a pull request, with its pull requests.
pub open spec fn categorized_sections(prs: Seq<PullRequestView>, cfg: ChangelogConfig) -> Seq<
    (Seq<char>, Seq<PullRequestView>),
> {
    sections_upto(prs, cfg, cfg.sections().len() as int)
}

/// The authors of the first `n` pull requests that are not left out, each
/// once, in order of first appearance.
pub open spec fn authors_upto(prs: Seq<PullRequestView>, cfg: ChangelogConfig, n: int) -> Seq<
    Seq<char>,
>
    decreases n,
{
    if n <= 0 {
        seq![]
    } else {
        let prev = authors_upto(prs, cfg, n - 1);
        let p = prs[n - 1];
        if !pr_skipped(p, cfg) && p.author is Some && !prev.contains(p.author->Some_0) {
            prev.push(p.author->Some_0)
        } else {
            prev
        }
    }
}

/// The contributors of the changelog.
pub open spec fn contributors_of(prs: Seq<PullRequestView>, cfg: ChangelogConfig) -> Seq<Seq<char>> {
    authors_upto(prs, cfg, prs.len() as int)
}

/// Pull requests grouped into changelog sections, and their contributors.
pub struct CategorizedPRs {
    /// The non-empty sections, in the order of the configuration.
    pub sections: Vec<(String, Vec<GitHubPullRequest>)>,
    /// The contributors, each once.
    pub contributors: Vec<String>,
}

/// An optional index as an optional integer.
pub open spec fn opt_int(o: Option<usize>) -> Option<int> {
    match o {
        Some(i) => Some(i as int),
        None => None,
    }
}

/// The sections as names and pull request values.
pub open spec fn groups_view(v: Seq<(String, Vec<GitHubPullRequest>)>) -> Seq<
    (Seq<char>, Seq<PullRequestView>),
> {
    v.map_values(|e: (String, Vec<GitHubPullRequest>)| (e.0@, prs_view(e.1@)))
}

/// The ignored contributors as a slice.
fn ignored_contributors(cfg: &ChangelogConfig) -> (r: &[String])
    ensures
        views(r@) == cfg.ignore_contributors_view(),
{
    match &cfg.ignore_contributors {
        Some(v) => v.as_slice(),
        None => &[],
    }
}

/// Whether the changelog leaves the pull request out.
fn pr_is_skipped(pr: &GitHubPullRequest, cfg: &ChangelogConfig) -> (r: bool)
    ensures
        r == pr_skipped(pr@, *cfg),
{
    let ignore = cfg.ignore_labels();
    let n = pr.labels.len();
    for i in 0..n
        invariant
            n == pr.labels@.len(),
            views(ignore@) == cfg.ignore_labels_view(),
            forall|k: int| 0 <= k < i ==> !cfg.ignore_labels_view().contains(#[trigger] views(pr.labels@)[k]),
    {
        if holds_string(ignore, pr.labels[i].as_str()) {
            assert(cfg.ignore_labels_view().contains(views(pr.labels@)[i as int]));
            return true;
        }
    }
    match &pr.author {
        Some(a) => holds_string(ignored_contributors(cfg), a.as_str()),
        None => false,
    }
}

/// Whether the pull request has one of the labels.
fn pr_in_section(pr: &GitHubPullRequest, labels: &Vec<String>) -> (r: bool)
    ensures
        r == in_section(pr@, views(labels@)),
{
    let n = labels.len();
    for j in 0..n
        invariant
            n == labels@.len(),
            forall|k: int| 0 <= k < j ==> !pr@.labels.contains(#[trigger] views(labels@)[k]),
    {
        if holds_string(pr.labels.as_slice(), labels[j].as_str()) {
            assert(pr@.labels.contains(views(labels@)[j as int]));
            return true;
        }
    }
    false
}

/// The first section that the pull request belongs to.
fn pr_first_section(pr: &GitHubPullRequest, cfg: &ChangelogConfig) -> (r: Option<usize>)
    ensures
        opt_int(r) == first_section(pr@, cfg.sections()),
{
    let secs = cfg.section_labels();
    let n = secs.len();
    for k in 0..n
        invariant
            n == secs@.len(),
            crate::config::sections_view(secs@) == cfg.sections(),
            first_section(pr@, cfg.sections()) == first_section_from(pr@, cfg.sections(), k as int),
    {
        assert(cfg.sections()[k as int].1 == views(secs@[k as int].1@));
        if pr_in_section(pr, &secs[k].1) {
            return Some(k);
        }
    }
    None
}

/// Groups pull requests into the configured sections (a pull request goes
/// to the first section that has one of its labels) and collects their
/// authors; pull requests with an ignored label or an ignored author are
/// left out.
pub fn categorize_prs(prs: Vec<GitHubPullRequest>, config: &ChangelogConfig) -> (r: CategorizedPRs)
    ensures
        groups_view(r.sections@) == categorized_sections(prs_view(prs@), *config),
        views(r.contributors@) == contributors_of(prs_view(prs@), *config),
{
    let ghost pv = prs_view(prs@);
    let np = prs.len();
    let mut keep: Vec<bool> = Vec::new();
    let mut firsts: Vec<Option<usize>> = Vec::new();
    for i in 0..np
        invariant
            np == prs@.len(),
            pv == prs_view(prs@),
            keep@.len() == i,
            firsts@.len() == i,
            forall|k: int| 0 <= k < i ==> #[trigger] keep@[k] == !pr_skipped(pv[k], *config),
            forall|k: int| 0 <= k < i ==> opt_int(#[trigger] firsts@[k]) == first_section(pv[k], config.sections()),
    {
        keep.push(!pr_is_skipped(&prs[i], config));
        firsts.push(pr_first_section(&prs[i], config));
    }
    let secs = config.section_labels();
    let ns = secs.len();
    let mut sections: Vec<(String, Vec<GitHubPullRequest>)> = Vec::new();
    for s in 0..ns
        invariant
            np == prs@.len(),
            pv == prs_view(prs@),
            ns == secs@.len(),
            crate::config::sections_view(secs@) == config.sections(),
            keep@.len() == np,
            firsts@.len() == np,
            forall|k: int| 0 <= k < np ==> #[trigger] keep@[k] == !pr_skipped(pv[k], *config),
            forall|k: int| 0 <= k < np ==> opt_int(#[trigger] firsts@[k]) == first_section(pv[k], config.sections()),
            groups_view(sections@) == sections_upto(pv, *config, s as int),
    {
        let ghost pred = |p: PullRequestView|
            !pr_skipped(p, *config) && first_section(p, config.sections()) == Some(s as int);
        let mut group: Vec<GitHubPullRequest> = Vec::new();
        for j in 0..np
            invariant
                np == prs@.len(),
                pv == prs_view(prs@),
                keep@.len() == np,
                firsts@.len() == np,
                forall|k: int| 0 <= k < np ==> #[trigger] keep@[k] == !pr_skipped(pv[k], *config),
                forall|k: int| 0 <= k < np ==> opt_int(#[trigger] firsts@[k]) == first_section(pv[k], config.sections()),
                pred == (|p: PullRequestView|
                    !pr_skipped(p, *config) && first_section(p, config.sections()) == Some(
                        s as int,
                    )),
                prs_view(group@) == pv.take(j as int).filter(pred),
        {
            reveal_with_fuel(Seq::<_>::filter, 1);
            assert(pv.take(j + 1).drop_last() == pv.take(j as int));
            assert(pv.take(j + 1).last() == pv[j as int]);
            assert(keep@[j as int] == !pr_skipped(pv[j as int], *config));
            let hit = match firsts[j] {
                Some(f) => f == s,
                None => false,
            };
            assert(opt_int(firsts@[j as int]) == first_section(pv[j as int], config.sections()));
            assert(pred(pv[j as int]) == (keep@[j as int] && hit));
            if keep[j] && hit {
                let c = prs[j].clone();
                let ghost before = group@;
                group.push(c);
                assert(prs_view(group@) == prs_view(before).push(c@));
            }
        }
        assert(pv.take(np as int) == pv);
        assert(prs_view(group@) == section_group(pv, *config, s as int));
        if group.len() > 0 {
            let name = secs[s].0.clone();
            let ghost before = sections@;
            assert(config.sections()[s as int].0 == secs@[s as int].0@);
            sections.push((name, group));
            assert(groups_view(sections@) == groups_view(before).push(
                (name@, prs_view(group@)),
            ));
        }
    }
    let mut contributors: Vec<String> = Vec::new();
    for i in 0..np
        invariant
            np == prs@.len(),
            pv == prs_view(prs@),
            keep@.len() == np,
            forall|k: int| 0 <= k < np ==> #[trigger] keep@[k] == !pr_skipped(pv[k], *config),
            views(contributors@) == authors_upto(pv, *config, i as int),
    {
        if keep[i] {
            match &prs[i].author {
                Some(a) => {
                    if !holds_string(contributors.as_slice(), a.as_str()) {
                        let c = a.clone();
                        let ghost before = contributors@;
                        contributors.push(c);
                        assert(views(contributors@) == views(before).push(c@));
                    }
                },
                None => {},
            }
        }
    }
    CategorizedPRs { sections, contributors }
}

/// The line of a pull request: `- TITLE ([#NUMBER](URL))`.
pub open spec fn pr_line(p: PullRequestView) -> Seq<char> {
    "- "@ + p.title + " ([#"@ + dec(p.number as nat) + "]("@ + p.url + "))\n"@
}

/// The lines of the pull requests, in their order.
pub open spec fn pr_lines(prs: Seq<PullRequestView>) -> Seq<char>
    decreases prs.len(),
{
    if prs.len() == 0 {
        seq![]
    } else {
        pr_lines(prs.drop_last()) + pr_line(prs.last())
    }
}

/// A section: `### NAME`, a blank line, its pull request lines, a blank line.
pub open spec fn section_block(name: Seq<char>, prs: Seq<PullRequestView>) -> Seq<char> {
    "### "@ + name + "\n\n"@ + pr_lines(prs) + "\n"@
}

/// The sections, in their order.
pub open spec fn section_blocks(secs: Seq<(Seq<char>, Seq<PullRequestView>)>) -> Seq<char>
    decreases secs.len(),
{
    if secs.len() == 0 {
        seq![]
    } else {
        section_blocks(secs.drop_last()) + section_block(secs.last().0, secs.last().1)
    }
}

/// The line of a contributor: `- [@NAME](https://github.com/NAME)`.
pub open spec fn contributor_line(c: Seq<char>) -> Seq<char> {
    "- [@"@ + c + "](https://github.com/"@ + c + ")\n"@
}

/// The lines of the contributors, in their order.
pub open spec fn contributor_lines(cs: Seq<Seq<char>>) -> Seq<char>
    decreases cs.len(),
{
    if cs.len() == 0 {
        seq![]
    } else {
        contributor_lines(cs.drop_last()) + contributor_line(cs.last())
    }
}

/// The contributors section, with the names in ascending order; nothing
/// when contributors are not listed or there are none.
pub open spec fn contributors_block(cs: Seq<Seq<char>>, listed: bool) -> Seq<char> {
    if listed && cs.len() > 0 {
        "### Contributors\n\n"@ + contributor_lines(sort_texts(cs)) + "\n"@
    } else {
        seq![]
    }
}

/// The notes of a release: its sections, then its contributors.
pub open spec fn release_notes(prs: Seq<PullRequestView>, cfg: ChangelogConfig) -> Seq<char> {
    section_blocks(categorized_sections(prs, cfg)) + contributors_block(
        contributors_of(prs, cfg),
        cfg.lists_contributors(),
    )
}

/// The changelog entry of a new version: `## HEADING` (the heading template
/// with `{version}` replaced), a blank line, and the release notes.
pub open spec fn changelog_entry(version: Seq<char>, prs: Seq<PullRequestView>, cfg: ChangelogConfig) -> Seq<
    char,
> {
    "## "@ + replace_all(cfg.heading(), "{version}"@, version) + "\n\n"@ + release_notes(prs, cfg)
}

/// Appends the lines of the pull requests.
fn write_pr_lines(out: &mut Vec<char>, prs: &Vec<GitHubPullRequest>)
    ensures
        final(out)@ == old(out)@ + pr_lines(prs_view(prs@)),
{
    let ghost pv = prs_view(prs@);
    let n = prs.len();
    for i in 0..n
        invariant
            n == prs@.len(),
            pv == prs_view(prs@),
            out@ == old(out)@ + pr_lines(pv.take(i as int)),
    {
        assert(pv.take(i + 1).drop_last() == pv.take(i as int));
        assert(pv.take(i + 1).last() == prs@[i as int]@);
        let ghost before = out@;
        let pr = &prs[i];
        extend_str(out, "- ");
        extend_str(out, pr.title.as_str());
        extend_str(out, " ([#");
        let d = dec_u64(pr.number);
        extend_chars(out, d.as_slice());
        extend_str(out, "](");
        extend_str(out, pr.url.as_str());
        extend_str(out, "))\n");
        assert(out@ == before + pr_line(pv[i as int]));
    }
    assert(pv.take(n as int) == pv);
}

/// Appends the sections.
fn write_sections(out: &mut Vec<char>, secs: &Vec<(String, Vec<GitHubPullRequest>)>)
    ensures
        final(out)@ == old(out)@ + section_blocks(groups_view(secs@)),
{
    let ghost gv = groups_view(secs@);
    let n = secs.len();
    for i in 0..n
        invariant
            n == secs@.len(),
            gv == groups_view(secs@),
            out@ == old(out)@ + section_blocks(gv.take(i as int)),
    {
        assert(gv.take(i + 1).drop_last() == gv.take(i as int));
        assert(gv.take(i + 1).last() == gv[i as int]);
        let ghost before = out@;
        extend_str(out, "### ");
        extend_str(out, secs[i].0.as_str());
        extend_str(out, "\n\n");
        write_pr_lines(out, &secs[i].1);
        extend_str(out, "\n");
        assert(out@ == before + section_block(gv[i as int].0, gv[i as int].1));
    }
    assert(gv.take(n as int) == gv);
}

/// Appends the contributor lines.
fn write_contributor_lines(out: &mut Vec<char>, cs: &Vec<String>)
    ensures
        final(out)@ == old(out)@ + contributor_lines(views(cs@)),
{
    let ghost cv = views(cs@);
    let n = cs.len();
    for i in 0..n
        invariant
            n == cs@.len(),
            cv == views(cs@),
            out@ == old(out)@ + contributor_lines(cv.take(i as int)),
    {
        assert(cv.take(i + 1).drop_last() == cv.take(i as int));
        assert(cv.take(i + 1).last() == cs@[i as int]@);
        let ghost before = out@;
        extend_str(out, "- [@");
        extend_str(out, cs[i].as_str());
        extend_str(out, "](https://github.com/");
        extend_str(out, cs[i].as_str());
        extend_str(out, ")\n");
        assert(out@ == before + contributor_line(cv[i as int]));
    }
    assert(cv.take(n as int) == cv);
}

/// Appends the notes of a release: the sections, then the contributors
/// (sorted) when they are listed.
fn write_release_notes(out: &mut Vec<char>, categorized: &CategorizedPRs, listed: bool)
    ensures
        final(out)@ == old(out)@ + section_blocks(groups_view(categorized.sections@))
            + contributors_block(views(categorized.contributors@), listed),
{
    write_sections(out, &categorized.sections);
    let ghost mid = out@;
    if listed && categorized.contributors.len() > 0 {
        extend_str(out, "### Contributors\n\n");
        let sorted = sort_strings(&categorized.contributors);
        write_contributor_lines(out, &sorted);
        extend_str(out, "\n");
    }
    assert(out@ == mid + contributors_block(views(categorized.contributors@), listed));
}

/// The changelog entry of a new version: the heading from the template,
/// then the pull requests grouped into sections, then the contributors.
pub fn format_changelog_content(version: &str, prs: Vec<GitHubPullRequest>, config: &ChangelogConfig) -> (r:
    String)
    ensures
        r@ == changelog_entry(version@, prs_view(prs@), *config),
{
    let ghost pv = prs_view(prs@);
    let categorized = categorize_prs(prs, config);
    let heading = str_replace(config.changelog_heading(), "{version}", version);
    let mut out: Vec<char> = Vec::new();
    extend_str(&mut out, "## ");
    extend_str(&mut out, heading.as_str());
    extend_str(&mut out, "\n\n");
    write_release_notes(&mut out, &categorized, config.include_contributors());
    string_of(out.as_slice())
}

/// The file that holds the changelog when the configuration names none.
pub const DEFAULT_CHANGELOG_PATH: &'static str = "CHANGELOG.md";

/// The changelog with a new entry: after the first line when that line is a
/// heading (`#` first), with exactly one blank line between them and the
/// blank lines that followed the heading dropped; at the very top under a
/// `# Changelog` title otherwise.
pub open spec fn updated_changelog(existing: Seq<char>, entry: Seq<char>) -> Seq<char> {
    if existing.len() > 0 && existing[0] == '#' {
        match find_char(existing, '\n') {
            Some(pos) => existing.take(pos) + "\n\n"@ + entry + strip_prefix_rep(
                existing.skip(pos + 1),
                "\n"@,
            ),
            None => existing + "\n\n"@ + entry,
        }
    } else {
        "# Changelog\n\n"@ + entry + existing
    }
}

/// The changelog text with a new entry inserted (see [`updated_changelog`]).
pub fn updated_changelog_content(existing: &str, new_content: &str) -> (r: String)
    ensures
        r@ == updated_changelog(existing@, new_content@),
{
    let e = chars_of(existing);
    if e.len() > 0 && e[0] == '#' {
        match find_char_index(e.as_slice(), '\n') {
            Some(pos) => {
                let mut out = slice_chars(e.as_slice(), 0, pos);
                extend_str(&mut out, "\n\n");
                extend_str(&mut out, new_content);
                let after = slice_chars(e.as_slice(), pos + 1, e.len());
                let nl = chars_of("\n");
                let rest = trim_start_matches(after.as_slice(), nl.as_slice());
                extend_chars(&mut out, rest.as_slice());
                assert(find_char(e@, '\n') == Some(pos as int));
                assert(e@.subrange(0, pos as int) == e@.take(pos as int));
                assert(e@.subrange(pos + 1, e@.len() as int) == e@.skip(pos + 1));
                string_of(out.as_slice())
            },
            None => {
                assert(find_char(e@, '\n') is None);
                let mut out = e;
                extend_str(&mut out, "\n\n");
                extend_str(&mut out, new_content);
                string_of(out.as_slice())
            },
        }
    } else {
        let mut out = chars_of("# Changelog\n\n");
        extend_str(&mut out, new_content);
        extend_chars(&mut out, e.as_slice());
        string_of(out.as_slice())
    }
}

/// The change to the changelog file at `changelog_path`, whose content is
/// `existing_content` (empty for a file that does not exist yet), that
/// inserts `new_content` as its newest entry.
pub fn prepare_changelog_file_change(
    changelog_path: String,
    existing_content: String,
    new_content: &str,
) -> (r: FileChange)
    ensures
        r.path_view() == changelog_path@,
        r.old_view() == existing_content@,
        r.new_view() == updated_changelog(existing_content@, new_content@),
{
    let updated = updated_changelog_content(existing_content.as_str(), new_content);
    FileChange::new(changelog_path, existing_content, updated)
}

/// The changelog file's path relative to the project: the configured one,
/// else `CHANGELOG.md`.
pub open spec fn changelog_rel_path(config: ChangelogConfig) -> Seq<char> {
    match config.changelog_path {
        Some(p) => p@,
        None => DEFAULT_CHANGELOG_PATH@,
    }
}

/// The changelog file under the project root `root`.
pub fn changelog_file_path(root: &str, config: &ChangelogConfig) -> (r: String)
    ensures
        r@ == join_path(root@, changelog_rel_path(*config)),
{
    match &config.changelog_path {
        Some(p) => crate::file_change::join(root, p.as_str()),
        None => crate::file_change::join(root, DEFAULT_CHANGELOG_PATH),
    }
}

/// The changes for a release of `version`: the changelog file under `root`,
/// whose content is `existing_content`, gets the entry for the pull
/// requests merged since the last release.
pub fn prepare_changelog_changes(
    root: &str,
    version: &str,
    config: &ChangelogConfig,
    prs: Vec<GitHubPullRequest>,
    existing_content: String,
) -> (r: FileChanges)
    ensures
        r.changes().len() == 1,
        r.changes()[0].path_view() == join_path(root@, changelog_rel_path(*config)),
        r.changes()[0].old_view() == existing_content@,
        r.changes()[0].new_view() == updated_changelog(
            existing_content@,
            changelog_entry(version@, prs_view(prs@), *config),
        ),
{
    let entry = format_changelog_content(version, prs, config);
    let path = changelog_file_path(root, config);
    let change = prepare_changelog_file_change(path, existing_content, entry.as_str());
    let mut v: Vec<FileChange> = Vec::new();
    v.push(change);
    FileChanges::new(v)
}

/// The version that a release name gives: the name without one leading `v`.
pub open spec fn version_from_name(name: Seq<char>) -> Seq<char> {
    if name.len() > 0 && name[0] == 'v' {
        name.drop_first()
    } else {
        name
    }
}

/// The version that a release's name gives, if it has a name.
pub fn extract_version_from_release_name(name: Option<&String>) -> (r: Option<String>)
    ensures
        match name {
            Some(n) => r is Some && r->Some_0@ == version_from_name(n@),
            None => r is None,
        },
{
    match name {
        Some(n) => {
            let c = chars_of(n.as_str());
            if c.len() > 0 && c[0] == 'v' {
                let rest = slice_chars(c.as_slice(), 1, c.len());
                assert(c@.subrange(1, c@.len() as int) == c@.drop_first());
                Some(string_of(rest.as_slice()))
            } else {
                Some(n.clone())
            }
        },
        None => None,
    }
}

/// The UTC calendar date of an instant, `YYYY-MM-DD`.
pub open spec fn date_of(t: Timestamp) -> Seq<char> {
    match utc_ymd(t.secs(), t.subsec()) {
        Some(d) => d,
        None => seq![],
    }
}

/// The title of a release's section: the version from its name, else
/// `Release` and its date.
pub open spec fn release_title(rel: GitHubRelease) -> Seq<char> {
    match rel.name {
        Some(n) => version_from_name(n@),
        None => "Release "@ + date_of(rel.created_at),
    }
}

/// The release before the `i`-th one, by which its pull requests start.
pub open spec fn release_since(releases: Seq<GitHubRelease>, i: int) -> Option<Timestamp> {
    if i == 0 {
        None
    } else {
        Some(releases[i - 1].created_at)
    }
}

/// The pull requests of the `i`-th release: merged after the release before
/// it and no later than it.
pub open spec fn release_prs(prs: Seq<PullRequestView>, releases: Seq<GitHubRelease>, i: int) -> Seq<
    PullRequestView,
> {
    prs_in_range(prs, release_since(releases, i), Some(releases[i].created_at))
}

/// The section of the `i`-th release; nothing when no pull request falls
/// in it.
pub open spec fn release_entry(
    prs: Seq<PullRequestView>,
    releases: Seq<GitHubRelease>,
    i: int,
    cfg: ChangelogConfig,
) -> Seq<char> {
    let rp = release_prs(prs, releases, i);
    if rp.len() == 0 {
        seq![]
    } else {
        "## "@ + release_title(releases[i]) + "\n\n"@ + release_notes(rp, cfg)
    }
}

/// The sections of the releases from the newest down to the `k`-th.
pub open spec fn full_changelog_from(
    prs: Seq<PullRequestView>,
    releases: Seq<GitHubRelease>,
    k: int,
    cfg: ChangelogConfig,
) -> Seq<char>
    decreases releases.len() - k,
{
    if k < 0 || k >= releases.len() {
        seq![]
    } else {
        full_changelog_from(prs, releases, k + 1, cfg) + release_entry(prs, releases, k, cfg)
    }
}

/// Appends the section of the `k`-th release.
fn write_release_entry(
    out: &mut Vec<char>,
    config: &ChangelogConfig,
    releases: &[GitHubRelease],
    all_prs: &[GitHubPullRequest],
    k: usize,
)
    requires
        k < releases@.len(),
    ensures
        final(out)@ == old(out)@ + release_entry(prs_view(all_prs@), releases@, k as int, *config),
{
    let until = &releases[k];
    let since = if k == 0 {
        None
    } else {
        Some(&releases[k - 1].created_at)
    };
    let prs = filter_prs_by_date_range(all_prs, since, Some(&until.created_at));
    assert(prs_view(prs@) == release_prs(prs_view(all_prs@), releases@, k as int));
    if prs.len() > 0 {
        let categorized = categorize_prs(prs, config);
        extend_str(out, "## ");
        match extract_version_from_release_name(until.name.as_ref()) {
            Some(v) => extend_str(out, v.as_str()),
            None => {
                extend_str(out, "Release ");
                let d = until.created_at.date_text();
                extend_str(out, d.as_str());
            },
        }
        extend_str(out, "\n\n");
        write_release_notes(out, &categorized, config.include_contributors());
    }
}

/// A changelog of every release, newest first, from the releases (oldest
/// first) and the merged pull requests.
pub fn generate_full_changelog(
    config: &ChangelogConfig,
    releases: &[GitHubRelease],
    all_prs: &[GitHubPullRequest],
) -> (r: String)
    ensures
        r@ == full_changelog_from(prs_view(all_prs@), releases@, 0, *config),
{
    let n = releases.len();
    let mut out: Vec<char> = Vec::new();
    let mut k = n;
    while k > 0
        invariant
            n == releases@.len(),
            k <= n,
            out@ == full_changelog_from(prs_view(all_prs@), releases@, k as int, *config),
        decreases k,
    {
        k = k - 1;
        write_release_entry(&mut out, config, releases, all_prs, k);
    }
    string_of(out.as_slice())
}

/// The latest section of a changelog.
#[derive(Debug, Clone)]
pub struct ChangelogSection {
    /// The text of the section's `## ` heading, trimmed.
    pub version: String,
    /// The lines up to the next `## ` heading, trimmed.
    pub body: String,
}

/// The title, text and kind of a GitHub release.
#[derive(Debug, Clone)]
pub struct ReleaseBody {
    pub title: String,
    pub body: String,
    pub prerelease: bool,
}

/// Why a changelog could not be read.
#[derive(Debug, Clone, PartialEq, Eq)]
pub enum ChangelogError {
    /// No line starts with `## `.
    NoVersionSections,
}

impl ChangelogError {
    /// The error's message.
    pub fn to_string(&self) -> (r: String)
        ensures
            r@ == "No version sections found in changelog"@,
    {
        String::from_str("No version sections found in changelog")
    }
}

/// A line that opens a version section.
pub open spec fn is_section_heading(l: Seq<char>) -> bool {
    starts_with(l, "## "@)
}

/// The index of the first section heading at or after `k`, else the number
/// of lines.
pub open spec fn next_heading(ls: Seq<Seq<char>>, k: int) -> int
    decreases ls.len() - k,
{
    if 0 <= k < ls.len() {
        if is_section_heading(ls[k]) {
            k
        } else {
            next_heading(ls, k + 1)
        }
    } else {
        ls.len() as int
    }
}

proof fn lemma_next_heading_bounds(ls: Seq<Seq<char>>, k: int)
    requires
        0 <= k <= ls.len(),
    ensures
        k <= next_heading(ls, k) <= ls.len(),
        next_heading(ls, k) < ls.len() ==> is_section_heading(ls[next_heading(ls, k)]),
        forall|j: int| k <= j < next_heading(ls, k) ==> !is_section_heading(#[trigger] ls[j]),
    decreases ls.len() - k,
{
    if k < ls.len() && !is_section_heading(ls[k]) {
        lemma_next_heading_bounds(ls, k + 1);
    }
}

/// The latest section of a changelog, as version and body: the first line
/// that starts with `## ` gives the version (the rest of the line,
/// trimmed), and the lines after it up to the next such line, joined and
/// trimmed, give the body; `None` when no line starts with `## `.
pub open spec fn latest_section(content: Seq<char>) -> Option<(Seq<char>, Seq<char>)> {
    let ls = lines(content);
    let start = next_heading(ls, 0);
    if start >= ls.len() {
        None
    } else {
        let end = next_heading(ls, start + 1);
        Some((trim(ls[start].skip(3)), trim(join(ls.subrange(start + 1, end), "\n"@))))
    }
}

/// The index of the first section heading at or after `from`.
fn find_heading(ls: &Vec<String>, from: usize) -> (r: usize)
    requires
        from <= ls@.len(),
    ensures
        r == next_heading(views(ls@), from as int),
{
    let n = ls.len();
    let mut k = from;
    while k < n
        invariant
            n == ls@.len(),
            from <= k <= n,
            next_heading(views(ls@), from as int) == next_heading(views(ls@), k as int),
        decreases n - k,
    {
        if str_starts_with(ls[k].as_str(), "## ") {
            return k;
        }
        k = k + 1;
    }
    k
}

/// Reads the latest version section of a changelog: its heading text as the
/// version and its lines as the body, both trimmed.
pub fn parse_latest_changelog_section(changelog_content: &str) -> (r: Result<
    ChangelogSection,
    ChangelogError,
>)
    ensures
        match latest_section(changelog_content@) {
            Some((v, b)) => r is Ok && r->Ok_0.version@ == v && r->Ok_0.body@ == b,
            None => r is Err && r->Err_0 is NoVersionSections,
        },
{
    let c = chars_of(changelog_content);
    let ls = lines_of(c.as_slice());
    let ghost lv = views(ls@);
    let n = ls.len();
    let start = find_heading(&ls, 0);
    proof {
        lemma_next_heading_bounds(lv, 0);
    }
    if start >= n {
        return Err(ChangelogError::NoVersionSections);
    }
    let end = find_heading(&ls, start + 1);
    proof {
        lemma_next_heading_bounds(lv, start + 1);
    }
    let head = chars_of(ls[start].as_str());
    proof {
        reveal_strlit("## ");
        assert(is_section_heading(lv[start as int]));
    }
    let after = slice_chars(head.as_slice(), 3, head.len());
    assert(head@.subrange(3, head@.len() as int) == head@.skip(3));
    let version = string_of(trim_chars(after.as_slice()).as_slice());
    let mut body_lines: Vec<String> = Vec::new();
    let mut k = start + 1;
    while k < end
        invariant
            n == ls@.len(),
            lv == views(ls@),
            start + 1 <= k <= end <= n,
            views(body_lines@) == lv.subrange(start + 1, k as int),
        decreases end - k,
    {
        let l = ls[k].clone();
        let ghost before = body_lines@;
        body_lines.push(l);
        assert(views(body_lines@) == views(before).push(l@));
        k = k + 1;
    }
    let joined = join_strings(&body_lines, "\n");
    let body = string_of(trim_chars(joined.as_slice()).as_slice());
    Ok(ChangelogSection { version, body })
}

/// A pre-release version: its lowercase text holds `-alpha`, `-beta`, `-rc`
/// or `-pre`.
pub open spec fn prerelease_version(version: Seq<char>) -> bool {
    let l = lower_text(version);
    contains(l, "-alpha"@) || contains(l, "-beta"@) || contains(l, "-rc"@) || contains(l, "-pre"@)
}

/// Whether the version is a pre-release (see [`prerelease_version`]).
pub fn is_prerelease(version: &str) -> (r: bool)
    ensures
        r == prerelease_version(version@),
{
    let lower = lowercase_str(version);
    str_contains(lower.as_str(), "-alpha") || str_contains(lower.as_str(), "-beta")
        || str_contains(lower.as_str(), "-rc") || str_contains(lower.as_str(), "-pre")
}

/// The GitHub release for the latest changelog section: its version as the
/// title, its body, and whether it is a pre-release.
pub fn create_release_body(changelog_content: &str) -> (r: Result<ReleaseBody, ChangelogError>)
    ensures
        match latest_section(changelog_content@) {
            Some((v, b)) => r is Ok && r->Ok_0.title@ == v && r->Ok_0.body@ == b
                && r->Ok_0.prerelease == prerelease_version(v),
            None => r is Err && r->Err_0 is NoVersionSections,
        },
{
    match parse_latest_changelog_section(changelog_content) {
        Ok(section) => {
            let prerelease = is_prerelease(section.version.as_str());
            Ok(ReleaseBody { title: section.version, body: section.body, prerelease })
        },
        Err(e) => Err(e),
    }
}

/// Text that holds only letters, digits, `-`, `.` and `+` is ASCII.
proof fn lemma_version_chars_ascii(s: Seq<char>)
    requires
        forall|i: int|
            0 <= i < s.len() ==> is_ascii_alnum(#[trigger] s[i]) || s[i] == '-' || s[i] == '.'
                || s[i] == '+',
    ensures
        is_ascii_text(s),
{
    assert forall|i: int| 0 <= i < s.len() implies (#[trigger] s[i] as u32) < 128 by {
        assert(('z' as u32) == 122 && ('Z' as u32) == 90 && ('9' as u32) == 57);
        assert(('-' as u32) == 45 && ('.' as u32) == 46 && ('+' as u32) == 43);
    }
}

/// The text of a version whose pre-release and build identifiers are valid
/// holds only letters, digits, `-`, `.` and `+`.
proof fn lemma_version_text_chars(v: VersionView)
    requires
        identifier_text(v.pre),
        identifier_text(v.build),
    ensures
        forall|i: int|
            0 <= i < version_text(v).len() ==> is_ascii_alnum(#[trigger] version_text(v)[i])
                || version_text(v)[i] == '-' || version_text(v)[i] == '.' || version_text(v)[i]
                == '+',
{
    lemma_dec_digits(v.major as nat);
    lemma_dec_digits(v.minor as nat);
    lemma_dec_digits(v.patch as nat);
    let t = version_text(v);
    let a = dec(v.major as nat);
    let b = dec(v.minor as nat);
    let c = dec(v.patch as nat);
    let core = a + seq!['.'] + b + seq!['.'] + c;
    assert forall|i: int| 0 <= i < core.len() implies is_ascii_alnum(#[trigger] core[i]) || core[i]
        == '.' by {
        if i < a.len() {
            assert(core[i] == a[i]);
        } else if i == a.len() {
        } else if i < a.len() + 1 + b.len() {
            assert(core[i] == b[i - a.len() - 1]);
        } else if i == a.len() + 1 + b.len() {
        } else {
            assert(core[i] == c[i - a.len() - 2 - b.len()]);
        }
    }
    let wp = if v.pre.len() > 0 {
        core + seq!['-'] + v.pre
    } else {
        core
    };
    assert forall|i: int| 0 <= i < wp.len() implies is_ascii_alnum(#[trigger] wp[i]) || wp[i] == '-'
        || wp[i] == '.' by {
        if i < core.len() {
            assert(wp[i] == core[i]);
        } else if i > core.len() {
            assert(wp[i] == v.pre[i - core.len() - 1]);
        }
    }
    assert forall|i: int| 0 <= i < t.len() implies is_ascii_alnum(#[trigger] t[i]) || t[i] == '-'
        || t[i] == '.' || t[i] == '+' by {
        if i < wp.len() {
            assert(t[i] == wp[i]);
        } else if i > wp.len() {
            assert(t[i] == v.build[i - wp.len() - 1]);
        }
    }
}

/// A version that a pre-release bump gives is a pre-release for the
/// release body: its text holds `-alpha`, `-beta` or `-rc`.
pub proof fn law_prerelease_bump_is_prerelease(v: VersionView, b: VersionBumpView)
    requires
        identifier_text(v.build),
        b is MajorPreRelease || b is MinorPreRelease || b is PatchPreRelease || b is PreRelease,
        bumped_version(v, b) is Ok,
    ensures
        prerelease_version(version_text(bumped_version(v, b)->Ok_0)),
{
    reveal_strlit("alpha");
    reveal_strlit("beta");
    reveal_strlit("rc");
    reveal_strlit("-alpha");
    reveal_strlit("-beta");
    reveal_strlit("-rc");
    let nv = bumped_version(v, b)->Ok_0;
    let t = match b {
        VersionBumpView::MajorPreRelease(t) => t,
        VersionBumpView::MinorPreRelease(t) => t,
        VersionBumpView::PatchPreRelease(t) => t,
        VersionBumpView::PreRelease(t) => t,
        _ => PreReleaseType::Alpha,
    };
    let n = choose|n: nat| nv.pre == prerelease_text(t, n);
    assert(nv.pre == prerelease_text(t, n));
    lemma_dec_digits(n);
    let tt = t.text();
    let d = dec(n);
    assert forall|i: int| 0 <= i < nv.pre.len() implies is_ascii_alnum(#[trigger] nv.pre[i])
        || nv.pre[i] == '-' || nv.pre[i] == '.' by {
        if i < tt.len() {
            assert(nv.pre[i] == tt[i]);
        } else if i > tt.len() {
            assert(nv.pre[i] == d[i - tt.len() - 1]);
        }
    }
    assert(nv.build == v.build);
    lemma_version_text_chars(nv);
    let text = version_text(nv);
    lemma_version_chars_ascii(text);
    let core = dec(nv.major as nat) + seq!['.'] + dec(nv.minor as nat) + seq!['.'] + dec(
        nv.patch as nat,
    );
    let k = core.len() as int;
    let l = ascii_lower(text);
    let pat = seq!['-'] + tt;
    assert(text.subrange(k, k + pat.len()) =~= pat);
    assert(l.subrange(k, k + pat.len()) =~= pat);
    assert(occurs_at(l, pat, k));
    match t {
        PreReleaseType::Alpha => {
            assert(pat =~= "-alpha"@);
        },
        PreReleaseType::Beta => {
            assert(pat =~= "-beta"@);
        },
        PreReleaseType::Rc => {
            assert(pat =~= "-rc"@);
        },
    }
}

/// The heading text of a new entry: the template with `{version}`
/// replaced.
pub open spec fn entry_title(version: Seq<char>, cfg: ChangelogConfig) -> Seq<char> {
    replace_all(cfg.heading(), "{version}"@, version)
}

/// Text on one line: no line feed and no carriage return.
pub open spec fn single_line(s: Seq<char>) -> bool {
    forall|i: int| 0 <= i < s.len() ==> s[i] != '\n' && s[i] != '\r'
}

/// A first line that is no section heading, a blank line, then a section
/// heading: that heading is the latest section.
proof fn lemma_latest_after_first_line(a0: Seq<char>, h: Seq<char>, rest: Seq<char>)
    requires
        forall|i: int| 0 <= i < a0.len() ==> a0[i] != '\n',
        !is_section_heading(crate::text::strip_cr(a0)),
        single_line(h),
    ensures
        latest_section(a0 + seq!['\n', '\n'] + "## "@ + h + seq!['\n'] + rest) is Some,
        latest_section(a0 + seq!['\n', '\n'] + "## "@ + h + seq!['\n'] + rest)->Some_0.0 == trim(h),
{
    reveal_strlit("## ");
    let l = "## "@ + h;
    let t3 = l + seq!['\n'] + rest;
    let e = Seq::<char>::empty();
    let t2 = e + seq!['\n'] + t3;
    let text = a0 + seq!['\n'] + t2;
    assert(a0 + seq!['\n', '\n'] + "## "@ + h + seq!['\n'] + rest =~= text);
    assert forall|i: int| 0 <= i < l.len() implies l[i] != '\n' by {
        if i >= 3 {
            assert(l[i] == h[i - 3]);
        }
    }
    crate::text::lemma_lines_prefix(a0, t2);
    crate::text::lemma_lines_prefix(e, t3);
    crate::text::lemma_lines_prefix(l, rest);
    let ls = lines(text);
    assert(ls == seq![crate::text::strip_cr(a0)] + (seq![crate::text::strip_cr(e)] + (seq![
        crate::text::strip_cr(l),
    ] + lines(rest))));
    assert(l.len() > 0 && l.last() != '\r') by {
        if h.len() > 0 {
            assert(l.last() == h[h.len() - 1]);
        }
    }
    assert(crate::text::strip_cr(l) == l);
    assert(ls[0] == crate::text::strip_cr(a0));
    assert(ls[1] == crate::text::strip_cr(e));
    assert(ls[2] == l);
    assert(!is_section_heading(ls[1]));
    assert(l.subrange(0, 3) =~= "## "@);
    assert(is_section_heading(ls[2]));
    assert(next_heading(ls, 2) == 2);
    assert(next_heading(ls, 1) == 2);
    assert(next_heading(ls, 0) == 2);
    assert(l.skip(3) =~= h);
}

/// After a new entry is written to a changelog, the latest section read
/// back is that entry: its version is the entry's heading text (trimmed),
/// for any changelog whose first line is no version section and a heading
/// on one line.
pub proof fn law_new_entry_is_latest_section(
    existing: Seq<char>,
    version: Seq<char>,
    prs: Seq<PullRequestView>,
    cfg: ChangelogConfig,
)
    requires
        !is_section_heading(existing),
        single_line(entry_title(version, cfg)),
    ensures
        latest_section(updated_changelog(existing, changelog_entry(version, prs, cfg))) is Some,
        latest_section(updated_changelog(existing, changelog_entry(version, prs, cfg)))->Some_0.0
            == trim(entry_title(version, cfg)),
{
    reveal_strlit("\n\n");
    reveal_strlit("## ");
    reveal_strlit("# Changelog\n\n");
    reveal_strlit("# Changelog");
    let h = entry_title(version, cfg);
    let notes = release_notes(prs, cfg);
    let entry = changelog_entry(version, prs, cfg);
    assert(entry =~= "## "@ + h + seq!['\n'] + (seq!['\n'] + notes));
    let u = updated_changelog(existing, entry);
    if existing.len() > 0 && existing[0] == '#' {
        crate::text::lemma_find_char_found(existing, '\n');
        let a0 = match find_char(existing, '\n') {
            Some(pos) => existing.take(pos),
            None => existing,
        };
        let tail = match find_char(existing, '\n') {
            Some(pos) => strip_prefix_rep(existing.skip(pos + 1), "\n"@),
            None => seq![],
        };
        assert(forall|i: int| 0 <= i < a0.len() ==> a0[i] == existing[i]);
        let x = crate::text::strip_cr(a0);
        assert(forall|i: int| 0 <= i < x.len() ==> x[i] == existing[i]);
        if is_section_heading(x) {
            assert(existing.subrange(0, 3) =~= x.subrange(0, 3));
        }
        assert(u =~= a0 + seq!['\n', '\n'] + "## "@ + h + seq!['\n'] + ((seq!['\n'] + notes)
            + tail));
        lemma_latest_after_first_line(a0, h, (seq!['\n'] + notes) + tail);
    } else {
        let a0 = "# Changelog"@;
        assert("# Changelog\n\n"@ =~= a0 + seq!['\n', '\n']);
        assert(crate::text::strip_cr(a0) == a0);
        assert(a0[1] != "## "@[1]);
        assert(!is_section_heading(a0)) by {
            if is_section_heading(a0) {
                assert(a0.subrange(0, 3)[1] == "## "@[1]);
            }
        }
        assert(u =~= a0 + seq!['\n', '\n'] + "## "@ + h + seq!['\n'] + ((seq!['\n'] + notes)
            + existing));
        lemma_latest_after_first_line(a0, h, (seq!['\n'] + notes) + existing);
    }
}

/// Each section among the first `n` comes from one of them: its name and
/// its pull requests (at least one) are that section's.
proof fn lemma_sections_upto(prs: Seq<PullRequestView>, cfg: ChangelogConfig, n: int)
    requires
        0 <= n <= cfg.sections().len(),
    ensures
        forall|i: int|
            0 <= i < sections_upto(prs, cfg, n).len() ==> exists|k: int|
                0 <= k < n && (#[trigger] sections_upto(prs, cfg, n)[i]).0 == cfg.sections()[k].0
                    && sections_upto(prs, cfg, n)[i].1 == section_group(prs, cfg, k),
    decreases n,
{
    if n > 0 {
        lemma_sections_upto(prs, cfg, n - 1);
        let prev = sections_upto(prs, cfg, n - 1);
        let cur = sections_upto(prs, cfg, n);
        assert forall|i: int| 0 <= i < cur.len() implies exists|k: int|
            0 <= k < n && (#[trigger] cur[i]).0 == cfg.sections()[k].0 && cur[i].1 == section_group(
                prs,
                cfg,
                k,
            ) by {
            if i < prev.len() {
                assert(cur[i] == prev[i]);
                let k = choose|k: int|
                    0 <= k < n - 1 && prev[i].0 == cfg.sections()[k].0 && prev[i].1 == section_group(
                        prs,
                        cfg,
                        k,
                    );
            } else {
                assert(cur[i].0 == cfg.sections()[n - 1].0);
            }
        }
    }
}

/// Each pull request listed in a section of a changelog is not left out
/// (no ignored label, no ignored author) and that section is the first one
/// whose labels it carries.
pub proof fn law_listed_prs_belong(prs: Seq<PullRequestView>, cfg: ChangelogConfig, i: int, j: int)
    requires
        0 <= i < categorized_sections(prs, cfg).len(),
        0 <= j < categorized_sections(prs, cfg)[i].1.len(),
    ensures
        !pr_skipped(categorized_sections(prs, cfg)[i].1[j], cfg),
        first_section(categorized_sections(prs, cfg)[i].1[j], cfg.sections()) matches Some(k)
            && 0 <= k < cfg.sections().len() && cfg.sections()[k].0
            == categorized_sections(prs, cfg)[i].0,
{
    let secs = categorized_sections(prs, cfg);
    lemma_sections_upto(prs, cfg, cfg.sections().len() as int);
    let k = choose|k: int|
        0 <= k < cfg.sections().len() && secs[i].0 == cfg.sections()[k].0 && secs[i].1
            == section_group(prs, cfg, k);
    let pred = |p: PullRequestView|
        !pr_skipped(p, cfg) && first_section(p, cfg.sections()) == Some(k);
    prs.lemma_filter_pred(pred, j);
}

/// The authors of the first `n` pull requests are listed once each.
proof fn lemma_authors_unique(prs: Seq<PullRequestView>, cfg: ChangelogConfig, n: int)
    requires
        0 <= n <= prs.len(),
    ensures
        authors_upto(prs, cfg, n).no_duplicates(),
    decreases n,
{
    if n > 0 {
        lemma_authors_unique(prs, cfg, n - 1);
    }
}

/// The contributors of a changelog are listed once each.
pub proof fn law_contributors_unique(prs: Seq<PullRequestView>, cfg: ChangelogConfig)
    ensures
        contributors_of(prs, cfg).no_duplicates(),
{
    lemma_authors_unique(prs, cfg, prs.len() as int);
}

/// The first section from the `s`-th on that a pull request belongs to
/// comes no later than a section it belongs to.
proof fn lemma_first_section_from_found(
    p: PullRequestView,
    secs: Seq<(Seq<char>, Seq<Seq<char>>)>,
    s: int,
    k: int,
)
    requires
        0 <= s <= k < secs.len(),
        in_section(p, secs[k].1),
    ensures
        first_section_from(p, secs, s) matches Some(k2) && s <= k2 <= k && in_section(p, secs[k2].1),
    decreases k - s,
{
    if !in_section(p, secs[s].1) {
        lemma_first_section_from_found(p, secs, s + 1, k);
    }
}

/// A section among the first `n` that receives a pull request stands in
/// the changelog with that pull request.
proof fn lemma_group_listed(prs: Seq<PullRequestView>, cfg: ChangelogConfig, n: int, k: int, m: int)
    requires
        0 <= k < n <= cfg.sections().len(),
        0 <= m < prs.len(),
        !pr_skipped(prs[m], cfg),
        first_section(prs[m], cfg.sections()) == Some(k),
    ensures
        exists|i: int, q: int|
            0 <= i < sections_upto(prs, cfg, n).len() && 0 <= q < sections_upto(prs, cfg, n)[i].1.len()
                && sections_upto(prs, cfg, n)[i].0 == cfg.sections()[k].0
                && #[trigger] sections_upto(prs, cfg, n)[i].1[q] == prs[m],
    decreases n,
{
    let pred = |x: PullRequestView| !pr_skipped(x, cfg) && first_section(x, cfg.sections()) == Some(k);
    let g = section_group(prs, cfg, k);
    assert(g == prs.filter(pred));
    prs.lemma_filter_contains(pred, m);
    assert(g.contains(prs[m]));
    let q = choose|q: int| 0 <= q < g.len() && g[q] == prs[m];
    let prev = sections_upto(prs, cfg, n - 1);
    let cur = sections_upto(prs, cfg, n);
    if k == n - 1 {
        assert(cur == prev.push((cfg.sections()[n - 1].0, g)));
        assert(cur[prev.len() as int].1[q] == prs[m]);
    } else {
        lemma_group_listed(prs, cfg, n - 1, k, m);
        let (i, q2) = choose|i: int, q: int|
            0 <= i < prev.len() && 0 <= q < prev[i].1.len() && prev[i].0 == cfg.sections()[k].0
                && #[trigger] prev[i].1[q] == prs[m];
        assert(cur[i] == prev[i]);
    }
}

/// A pull request that is not left out and carries a label listed for a
/// section, at any place in that section's list, is listed in the
/// changelog: under the first section that lists one of its labels, which
/// comes no later than that section.
pub proof fn law_labelled_prs_are_listed(
    prs: Seq<PullRequestView>,
    cfg: ChangelogConfig,
    m: int,
    k: int,
    j: int,
)
    requires
        0 <= m < prs.len(),
        !pr_skipped(prs[m], cfg),
        0 <= k < cfg.sections().len(),
        0 <= j < cfg.sections()[k].1.len(),
        prs[m].labels.contains(cfg.sections()[k].1[j]),
    ensures
        first_section(prs[m], cfg.sections()) matches Some(k2) && k2 <= k && exists|jj: int|
            0 <= jj < cfg.sections()[k2].1.len() && prs[m].labels.contains(
                #[trigger] cfg.sections()[k2].1[jj],
            ),
        exists|i: int, q: int|
            0 <= i < categorized_sections(prs, cfg).len() && 0 <= q < categorized_sections(
                prs,
                cfg,
            )[i].1.len() && #[trigger] categorized_sections(prs, cfg)[i].1[q] == prs[m],
{
    let secs = cfg.sections();
    assert(in_section(prs[m], secs[k].1));
    lemma_first_section_from_found(prs[m], secs, 0, k);
    let k2 = first_section(prs[m], secs)->Some_0;
    let n = secs.len() as int;
    lemma_group_listed(prs, cfg, n, k2, m);
    let su = sections_upto(prs, cfg, n);
    let (i, q) = choose|i: int, q: int|
        0 <= i < su.len() && 0 <= q < su[i].1.len() && su[i].0 == secs[k2].0
            && #[trigger] su[i].1[q] == prs[m];
    assert(categorized_sections(prs, cfg)[i].1[q] == prs[m]);
}

} // verus!
