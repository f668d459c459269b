//! Migration of a rooster configuration (`[tool.rooster]`) to a seal one.

use vstd::prelude::*;
use vstd::string::*;

use crate::config::{
    insert_label_entry, keys_ascending, labels_map, lists_map, sections_view, ChangelogConfig,
    Config, ReleaseConfig, SectionLabels, VersionFile, VersionFileTextFormat,
};
use crate::text::{
    chars_of, clone_strings, concat3, lemma_text_lt_irreflexive, lemma_text_lt_total,
    lemma_text_lt_transitive, lower_text, lowercase_str, text_less, text_lt, views,
};

verus! {

/// A version file as rooster configures it.
#[derive(Debug, Clone)]
pub enum RoosterVersionFile {
    Simple(String),
    WithField { path: String, field: String, format: Option<String> },
    WithMatch { target: String, match_pattern: String, format: Option<String> },
    WithReplace { target: String, replace: String },
    JustPath { path: String },
}

/// Labels that pull requests of a submodule must carry.
#[derive(Debug, Clone)]
pub struct RequireLabel {
    pub submodule: String,
    pub labels: Vec<String>,
}

/// The `[tool.rooster]` section of a `pyproject.toml`. The two tables
/// (`section_labels`, `changelog_sections`) are held as lists of entries
/// whose keys are unique.
#[derive(Debug, Clone)]
pub struct RoosterConfig {
    pub version_files: Vec<RoosterVersionFile>,
    pub submodules: Vec<String>,
    pub require_labels: Vec<RequireLabel>,
    pub ignore_labels: Vec<String>,
    pub changelog_ignore_labels: Vec<String>,
    pub changelog_ignore_authors: Vec<String>,
    pub major_labels: Vec<String>,
    pub minor_labels: Vec<String>,
    pub version_format: Option<String>,
    pub default_bump_type: Option<String>,
    pub trim_title_prefixes: Vec<String>,
    pub section_labels: Vec<(String, Vec<String>)>,
    pub changelog_sections: Vec<(String, String)>,
    pub changelog_contributors: Option<bool>,
    pub version_tag_prefix: Option<String>,
}

// ---------------------------------------------------------------------------
// Version files
// ---------------------------------------------------------------------------

/// A `cargo` format, or none: rooster's formats that seal reads as TOML.
pub open spec fn toml_format(format: Option<String>) -> bool {
    match format {
        Some(f) => f@ == "cargo"@,
        None => true,
    }
}

/// The seal version file for a rooster one: a field in a `cargo` (or
/// unnamed) format becomes a TOML field, another format a plain file; a
/// match or replace pattern becomes a search.
pub open spec fn converted_file(f: RoosterVersionFile) -> VersionFile {
    match f {
        RoosterVersionFile::Simple(p) => VersionFile::Simple(p),
        RoosterVersionFile::WithField { path, field, format } => if toml_format(format) {
            VersionFile::Text {
                path: path,
                format: VersionFileTextFormat::Toml,
                field: Some(field),
            }
        } else {
            VersionFile::Simple(path)
        },
        RoosterVersionFile::WithMatch { target, match_pattern, .. } => VersionFile::Search {
            path: target,
            search: match_pattern,
        },
        RoosterVersionFile::WithReplace { target, replace } => VersionFile::Search {
            path: target,
            search: replace,
        },
        RoosterVersionFile::JustPath { path } => VersionFile::Simple(path),
    }
}

/// The warning for a field in a format that seal does not read, if any.
pub open spec fn file_warning(f: RoosterVersionFile) -> Option<Seq<char>> {
    match f {
        RoosterVersionFile::WithField { path, format, .. } => match format {
            Some(fmt) => if fmt@ != "cargo"@ {
                Some(
                    "version-file '"@ + path@ + "': Unsupported format '"@ + fmt@
                        + "', treating as simple file"@,
                )
            } else {
                None
            },
            None => None,
        },
        _ => None,
    }
}

/// The warnings of the version files, in order.
pub open spec fn file_warnings(fs: Seq<RoosterVersionFile>) -> Seq<Seq<char>>
    decreases fs.len(),
{
    if fs.len() == 0 {
        seq![]
    } else {
        let prev = file_warnings(fs.drop_last());
        match file_warning(fs.last()) {
            Some(w) => prev.push(w),
            None => prev,
        }
    }
}

/// Converts rooster's version files, in order, and appends a warning for
/// each field in a format that seal does not read.
pub fn convert_version_files(rooster_files: &[RoosterVersionFile], warnings: &mut Vec<String>) -> (r:
    Vec<VersionFile>)
    ensures
        r@ == rooster_files@.map_values(|f: RoosterVersionFile| converted_file(f)),
        views(final(warnings)@) == views(old(warnings)@) + file_warnings(rooster_files@),
{
    let mut result: Vec<VersionFile> = Vec::new();
    let n = rooster_files.len();
    for i in 0..n
        invariant
            n == rooster_files@.len(),
            result@ == rooster_files@.take(i as int).map_values(
                |f: RoosterVersionFile| converted_file(f),
            ),
            views(warnings@) == views(old(warnings)@) + file_warnings(
                rooster_files@.take(i as int),
            ),
    {
        let ghost fs = rooster_files@;
        assert(fs.take(i + 1).drop_last() == fs.take(i as int));
        assert(fs.take(i + 1).last() == fs[i as int]);
        let ghost before = warnings@;
        let converted = match &rooster_files[i] {
            RoosterVersionFile::Simple(path) => VersionFile::Simple(path.clone()),
            RoosterVersionFile::WithField { path, field, format } => {
                let is_toml = match format {
                    Some(f) => crate::text::str_eq_chars(f.as_str(), chars_of("cargo").as_slice()),
                    None => true,
                };
                if is_toml {
                    VersionFile::Text {
                        path: path.clone(),
                        format: VersionFileTextFormat::Toml,
                        field: Some(field.clone()),
                    }
                } else {
                    match format {
                        Some(f) => {
                            let a = concat3("version-file '", path.as_str(), "': Unsupported format '");
                            let w = concat3(a.as_str(), f.as_str(), "', treating as simple file");
                            warnings.push(w);
                            assert(views(warnings@) == views(before).push(w@));
                        },
                        None => {},
                    }
                    VersionFile::Simple(path.clone())
                }
            },
            RoosterVersionFile::WithMatch { target, match_pattern, .. } => VersionFile::Search {
                path: target.clone(),
                search: match_pattern.clone(),
            },
            RoosterVersionFile::WithReplace { target, replace } => VersionFile::Search {
                path: target.clone(),
                search: replace.clone(),
            },
            RoosterVersionFile::JustPath { path } => VersionFile::Simple(path.clone()),
        };
        result.push(converted);
        assert(fs.take(i + 1).map_values(|f: RoosterVersionFile| converted_file(f)) == fs.take(
            i as int,
        ).map_values(|f: RoosterVersionFile| converted_file(f)).push(converted_file(fs[i as int])));
    }
    assert(rooster_files@.take(n as int) == rooster_files@);
    result
}

// ---------------------------------------------------------------------------
// Section labels: a map kept as entries in ascending order of the keys
// ---------------------------------------------------------------------------

/// The map with each changelog section that it lacks (but `__unknown__`)
/// added under its own lowercased name as its one label.
pub open spec fn with_changelog_sections(
    m: Map<Seq<char>, Seq<Seq<char>>>,
    cs: Seq<(String, String)>,
) -> Map<Seq<char>, Seq<Seq<char>>>
    decreases cs.len(),
{
    if cs.len() == 0 {
        m
    } else {
        let prev = with_changelog_sections(m, cs.drop_last());
        let k = cs.last().0@;
        if !prev.contains_key(k) && k != "__unknown__"@ {
            prev.insert(k, seq![lower_text(k)])
        } else {
            prev
        }
    }
}

/// The section labels of the migrated changelog.
pub open spec fn section_label_map(sl: Seq<(String, Vec<String>)>, cs: Seq<(String, String)>) -> Map<
    Seq<char>,
    Seq<Seq<char>>,
> {
    with_changelog_sections(labels_map(sl), cs)
}

/// Whether one of the changelog sections is named `k`.
pub open spec fn names_section(cs: Seq<(String, String)>, k: Seq<char>) -> bool {
    exists|i: int| 0 <= i < cs.len() && #[trigger] cs[i].0@ == k
}

proof fn lemma_with_changelog_sections(
    m: Map<Seq<char>, Seq<Seq<char>>>,
    cs: Seq<(String, String)>,
    k: Seq<char>,
)
    ensures
        with_changelog_sections(m, cs).contains_key(k) <==> (m.contains_key(k) || (k
            != "__unknown__"@ && names_section(cs, k))),
        m.contains_key(k) ==> with_changelog_sections(m, cs)[k] == m[k],
        !m.contains_key(k) && with_changelog_sections(m, cs).contains_key(k)
            ==> with_changelog_sections(m, cs)[k] == seq![lower_text(k)],
    decreases cs.len(),
{
    if cs.len() > 0 {
        let prev_cs = cs.drop_last();
        lemma_with_changelog_sections(m, prev_cs, k);
        assert(names_section(cs, k) <==> (names_section(prev_cs, k) || cs.last().0@ == k)) by {
            if names_section(cs, k) {
                let i = choose|i: int| 0 <= i < cs.len() && #[trigger] cs[i].0@ == k;
                if i < cs.len() - 1 {
                    assert(prev_cs[i].0@ == k);
                }
            }
            if names_section(prev_cs, k) {
                let i = choose|i: int| 0 <= i < prev_cs.len() && #[trigger] prev_cs[i].0@ == k;
                assert(cs[i].0@ == k);
            }
            if cs.last().0@ == k {
                assert(cs[cs.len() - 1].0@ == k);
            }
        }
    }
}

/// The migrated section labels have exactly rooster's section names and
/// the changelog sections' names (but `__unknown__`); a name with rooster
/// labels keeps them (the last entry of that name), any other has its
/// lowercased name as its one label.
pub proof fn law_section_labels_migrate(
    sl: Seq<(String, Vec<String>)>,
    cs: Seq<(String, String)>,
    k: Seq<char>,
)
    ensures
        section_label_map(sl, cs).contains_key(k) <==> (labels_map(sl).contains_key(k) || (k
            != "__unknown__"@ && names_section(cs, k))),
        labels_map(sl).contains_key(k) ==> section_label_map(sl, cs)[k] == labels_map(sl)[k],
        !labels_map(sl).contains_key(k) && section_label_map(sl, cs).contains_key(k)
            ==> section_label_map(sl, cs)[k] == seq![lower_text(k)],
{
    lemma_with_changelog_sections(labels_map(sl), cs, k);
}

/// Whether an entry has the key.
fn has_entry(entries: &Vec<(String, Vec<String>)>, key: &str, Ghost(m): Ghost<Map<Seq<char>, Seq<Seq<char>>>>) -> (r: bool)
    requires
        lists_map(sections_view(entries@), m),
    ensures
        r == m.contains_key(key@),
{
    let ghost ev = sections_view(entries@);
    let kc = chars_of(key);
    let n = entries.len();
    for i in 0..n
        invariant
            n == entries@.len(),
            ev == sections_view(entries@),
            lists_map(ev, m),
            kc@ == key@,
            forall|j: int| 0 <= j < i ==> #[trigger] ev[j].0 != key@,
    {
        assert(ev[i as int].0 == entries@[i as int].0@);
        if crate::text::str_eq_chars(entries[i].0.as_str(), kc.as_slice()) {
            assert(m.contains_key(ev[i as int].0));
            return true;
        }
    }
    proof {
        if m.contains_key(key@) {
            let j = choose|j: int| 0 <= j < ev.len() && ev[j].0 == key@;
            assert(ev[j].0 != key@);
        }
    }
    false
}

/// The section labels of the migrated changelog, in ascending order of the
/// section names: rooster's section labels, and each changelog section
/// without labels (but `__unknown__`) with its lowercased name as label.
pub fn convert_section_labels(
    section_labels: &Vec<(String, Vec<String>)>,
    changelog_sections: &Vec<(String, String)>,
) -> (r: Vec<(String, Vec<String>)>)
    ensures
        keys_ascending(sections_view(r@)),
        lists_map(sections_view(r@), section_label_map(section_labels@, changelog_sections@)),
{
    let mut result: Vec<(String, Vec<String>)> = Vec::new();
    let n = section_labels.len();
    for i in 0..n
        invariant
            n == section_labels@.len(),
            keys_ascending(sections_view(result@)),
            lists_map(sections_view(result@), labels_map(section_labels@.take(i as int))),
    {
        let ghost sl = section_labels@;
        assert(sl.take(i + 1).drop_last() == sl.take(i as int));
        assert(sl.take(i + 1).last() == sl[i as int]);
        let key = section_labels[i].0.clone();
        let labels = clone_strings(&section_labels[i].1);
        insert_label_entry(
            &mut result,
            key,
            labels,
            Ghost(labels_map(section_labels@.take(i as int))),
        );
    }
    assert(section_labels@.take(n as int) == section_labels@);
    let m = changelog_sections.len();
    for i in 0..m
        invariant
            m == changelog_sections@.len(),
            keys_ascending(sections_view(result@)),
            lists_map(
                sections_view(result@),
                with_changelog_sections(labels_map(section_labels@), changelog_sections@.take(i as int)),
            ),
    {
        let ghost cs = changelog_sections@;
        let ghost prev = with_changelog_sections(labels_map(section_labels@), cs.take(i as int));
        assert(cs.take(i + 1).drop_last() == cs.take(i as int));
        assert(cs.take(i + 1).last() == cs[i as int]);
        let name = &changelog_sections[i].0;
        let present = has_entry(&result, name.as_str(), Ghost(prev));
        let unknown = crate::text::str_eq_chars(name.as_str(), chars_of("__unknown__").as_slice());
        if !present && !unknown {
            let lower = lowercase_str(name.as_str());
            let mut labels: Vec<String> = Vec::new();
            labels.push(lower);
            assert(views(labels@) == seq![lower_text(name@)]);
            insert_label_entry(&mut result, name.clone(), labels, Ghost(prev));
        }
    }
    assert(changelog_sections@.take(m as int) == changelog_sections@);
    result
}

// ---------------------------------------------------------------------------
// The whole migration
// ---------------------------------------------------------------------------

/// The labels that the migrated changelog ignores: rooster's
/// `ignore-labels`, or its `changelog-ignore-labels` when the former are
/// empty.
pub open spec fn migrated_ignore_labels(r: RoosterConfig) -> Seq<Seq<char>> {
    if r.ignore_labels@.len() == 0 && r.changelog_ignore_labels@.len() > 0 {
        views(r.changelog_ignore_labels@)
    } else if r.ignore_labels@.len() > 0 {
        views(r.ignore_labels@)
    } else {
        seq![]
    }
}

/// Whether the migrated changelog lists contributors.
pub open spec fn migrated_includes_contributors(r: RoosterConfig) -> bool {
    match r.changelog_contributors {
        Some(b) => b,
        None => true,
    }
}

/// A map without keys.
pub open spec fn map_is_empty(m: Map<Seq<char>, Seq<Seq<char>>>) -> bool {
    forall|k: Seq<char>| !m.contains_key(k)
}

/// Whether the migration has a changelog section: something of it differs
/// from the defaults.
pub open spec fn migrated_has_changelog(r: RoosterConfig) -> bool {
    migrated_ignore_labels(r).len() > 0 || r.changelog_ignore_authors@.len() > 0
        || !migrated_includes_contributors(r) || !map_is_empty(
        section_label_map(r.section_labels@, r.changelog_sections@),
    )
}

/// One warning when `cond` holds.
pub open spec fn warning_if(cond: bool, w: Seq<char>) -> Seq<Seq<char>> {
    if cond {
        seq![w]
    } else {
        seq![]
    }
}

/// The warnings for the unsupported features in use, in order.
pub open spec fn feature_warnings(r: RoosterConfig) -> Seq<Seq<char>> {
    warning_if(
        r.submodules@.len() > 0,
        "submodules: Not supported in seal (monorepo members should be configured separately)"@,
    ) + warning_if(r.require_labels@.len() > 0, "require-labels: Not supported in seal"@)
        + warning_if(
        r.major_labels@.len() > 0 || r.minor_labels@.len() > 0,
        "major-labels/minor-labels: Semantic version bumping based on labels is not yet supported in seal"@,
    ) + warning_if(
        r.default_bump_type is Some,
        "default-bump-type: Not supported in seal (use 'seal bump' with explicit version)"@,
    ) + warning_if(r.trim_title_prefixes@.len() > 0, "trim-title-prefixes: Not supported in seal"@)
        + warning_if(
        r.section_labels@.len() > 0 || r.changelog_sections@.len() > 0,
        "section-labels/changelog-sections: Custom changelog sections are supported but you need to manually verify the mapping"@,
    ) + match r.version_tag_prefix {
        Some(p) => warning_if(
            p@ != "v"@,
            "version-tag-prefix: Custom tag prefix '"@ + p@
                + "' is not configurable in seal (always uses 'v')"@,
        ),
        None => seq![],
    }
}

/// The note on the release section.
pub open spec fn release_note(r: RoosterConfig) -> Seq<char> {
    if r.version_files@.len() > 0 {
        "current-version set to placeholder '0.0.0' - update this to your actual version"@
    } else {
        "NOTE: You will need to manually add the [release] section with 'current-version'"@
    }
}

/// The warnings of a migration, in order: the version files', then one for
/// each unsupported feature in use, then a note on the release section.
pub open spec fn migration_warnings(r: RoosterConfig) -> Seq<Seq<char>> {
    file_warnings(r.version_files@) + feature_warnings(r) + seq![release_note(r)]
}

/// `None` for no strings.
fn non_empty(v: Vec<String>) -> (r: Option<Vec<String>>)
    ensures
        v@.len() == 0 ==> r is None,
        v@.len() > 0 ==> r is Some && r->Some_0 == v,
{
    if v.len() == 0 {
        None
    } else {
        Some(v)
    }
}

/// Appends `w` when `cond` holds.
fn push_warning_if(warnings: &mut Vec<String>, cond: bool, w: &str)
    ensures
        views(final(warnings)@) == views(old(warnings)@) + warning_if(cond, w@),
{
    if cond {
        let ghost before = warnings@;
        let s = String::from_str(w);
        warnings.push(s);
        assert(views(warnings@) == views(before).push(s@));
    }
}

/// Appends the warnings for the unsupported features in use.
fn push_feature_warnings(rooster: &RoosterConfig, warnings: &mut Vec<String>)
    ensures
        views(final(warnings)@) == views(old(warnings)@) + feature_warnings(*rooster),
{
    let mut ws: Vec<String> = Vec::new();
    push_warning_if(
        &mut ws,
        rooster.submodules.len() > 0,
        "submodules: Not supported in seal (monorepo members should be configured separately)",
    );
    assert(views(ws@) =~= warning_if(
        rooster.submodules@.len() > 0,
        "submodules: Not supported in seal (monorepo members should be configured separately)"@,
    ));
    push_warning_if(
        &mut ws,
        rooster.require_labels.len() > 0,
        "require-labels: Not supported in seal",
    );
    push_warning_if(
        &mut ws,
        rooster.major_labels.len() > 0 || rooster.minor_labels.len() > 0,
        "major-labels/minor-labels: Semantic version bumping based on labels is not yet supported in seal",
    );
    push_warning_if(
        &mut ws,
        rooster.default_bump_type.is_some(),
        "default-bump-type: Not supported in seal (use 'seal bump' with explicit version)",
    );
    push_warning_if(
        &mut ws,
        rooster.trim_title_prefixes.len() > 0,
        "trim-title-prefixes: Not supported in seal",
    );
    push_warning_if(
        &mut ws,
        rooster.section_labels.len() > 0 || rooster.changelog_sections.len() > 0,
        "section-labels/changelog-sections: Custom changelog sections are supported but you need to manually verify the mapping",
    );
    let ghost before_prefix = ws@;
    match &rooster.version_tag_prefix {
        Some(prefix) => {
            let is_v = crate::text::str_eq_chars(prefix.as_str(), chars_of("v").as_slice());
            push_warning_if(
                &mut ws,
                !is_v,
                concat3(
                    "version-tag-prefix: Custom tag prefix '",
                    prefix.as_str(),
                    "' is not configurable in seal (always uses 'v')",
                ).as_str(),
            );
        },
        None => {
            assert(views(ws@) =~= views(before_prefix) + Seq::<Seq<char>>::empty());
        },
    }
    assert(views(ws@) == feature_warnings(*rooster));
    let ghost before = warnings@;
    let ghost added = ws@;
    warnings.append(&mut ws);
    assert(views(warnings@) =~= views(before) + views(added));
}

/// The migrated changelog section, when something of it differs from the
/// defaults.
fn migrated_changelog(rooster: &RoosterConfig) -> (r: Option<ChangelogConfig>)
    ensures
        (r is Some) == migrated_has_changelog(*rooster),
        r matches Some(c) ==> ({
            &&& c.ignore_labels_view() == migrated_ignore_labels(*rooster)
            &&& c.ignore_labels matches Some(v) ==> v@.len() > 0
            &&& c.ignore_contributors_view() == views(rooster.changelog_ignore_authors@)
            &&& c.ignore_contributors matches Some(v) ==> v@.len() > 0
            &&& keys_ascending(c.sections())
            &&& lists_map(
                c.sections(),
                section_label_map(rooster.section_labels@, rooster.changelog_sections@),
            )
            &&& c.section_labels matches Some(v) ==> v.entries_view().len() > 0
            &&& c.changelog_heading is None
            &&& c.include_contributors == (if migrated_includes_contributors(*rooster) {
                None
            } else {
                Some(false)
            })
            &&& c.changelog_path is None
        }),
{
    let ignore_labels = if rooster.ignore_labels.len() == 0
        && rooster.changelog_ignore_labels.len() > 0 {
        clone_strings(&rooster.changelog_ignore_labels)
    } else if rooster.ignore_labels.len() > 0 {
        clone_strings(&rooster.ignore_labels)
    } else {
        Vec::new()
    };
    assert(views(ignore_labels@) == migrated_ignore_labels(*rooster));
    let ignore_contributors = clone_strings(&rooster.changelog_ignore_authors);
    let include_contributors = match rooster.changelog_contributors {
        Some(b) => b,
        None => true,
    };
    let section_labels = convert_section_labels(&rooster.section_labels, &rooster.changelog_sections);
    let ghost smap = section_label_map(rooster.section_labels@, rooster.changelog_sections@);
    proof {
        if section_labels@.len() > 0 {
            assert(smap.contains_key(sections_view(section_labels@)[0].0));
        } else {
            assert forall|k: Seq<char>| !smap.contains_key(k) by {
                if smap.contains_key(k) {
                    let i = choose|i: int|
                        0 <= i < sections_view(section_labels@).len()
                            && sections_view(section_labels@)[i].0 == k;
                }
            }
        }
    }
    let has_changelog = ignore_labels.len() > 0 || ignore_contributors.len() > 0
        || !include_contributors || section_labels.len() > 0;
    assert(map_is_empty(smap) == (section_labels@.len() == 0));
    assert((ignore_labels@.len() > 0) == (migrated_ignore_labels(*rooster).len() > 0));
    assert(views(ignore_contributors@).len() == ignore_contributors@.len());
    assert(views(rooster.changelog_ignore_authors@).len() == rooster.changelog_ignore_authors@.len());
    assert((ignore_contributors@.len() > 0) == (rooster.changelog_ignore_authors@.len() > 0));
    assert(has_changelog == migrated_has_changelog(*rooster));
    if has_changelog {
        Some(
            ChangelogConfig {
                ignore_labels: non_empty(ignore_labels),
                ignore_contributors: non_empty(ignore_contributors),
                section_labels: if section_labels.len() == 0 {
                    None
                } else {
                    Some(SectionLabels::from_ascending(section_labels))
                },
                changelog_heading: None,
                include_contributors: if include_contributors {
                    None
                } else {
                    Some(false)
                },
                changelog_path: None,
            },
        )
    } else {
        None
    }
}

/// The seal configuration for a rooster one, with warnings about what did
/// not carry over.
pub fn migrate_rooster_config(rooster: &RoosterConfig) -> (r: (Config, Vec<String>))
    ensures
        r.0.members is None,
        views(r.1@) == migration_warnings(*rooster),
        (r.0.release is Some) == (rooster.version_files@.len() > 0),
        r.0.release matches Some(rc) ==> rc.current_version@ == "0.0.0"@ && rc.version_files
            is Some && rc.version_files->Some_0@ == rooster.version_files@.map_values(
            |f: RoosterVersionFile| converted_file(f),
        ) && rc.commit_message is None && rc.branch_name is None && !rc.push && !rc.create_pr
            && rc.confirm,
        (r.0.changelog is Some) == migrated_has_changelog(*rooster),
        r.0.changelog matches Some(c) ==> ({
            &&& c.ignore_labels_view() == migrated_ignore_labels(*rooster)
            &&& c.ignore_labels matches Some(v) ==> v@.len() > 0
            &&& c.ignore_contributors_view() == views(rooster.changelog_ignore_authors@)
            &&& c.ignore_contributors matches Some(v) ==> v@.len() > 0
            &&& keys_ascending(c.sections())
            &&& lists_map(
                c.sections(),
                section_label_map(rooster.section_labels@, rooster.changelog_sections@),
            )
            &&& c.section_labels matches Some(v) ==> v.entries_view().len() > 0
            &&& c.changelog_heading is None
            &&& c.include_contributors == (if migrated_includes_contributors(*rooster) {
                None
            } else {
                Some(false)
            })
            &&& c.changelog_path is None
        }),
{
    let mut warnings: Vec<String> = Vec::new();
    let version_files = convert_version_files(rooster.version_files.as_slice(), &mut warnings);
    let changelog_config = migrated_changelog(rooster);
    push_feature_warnings(rooster, &mut warnings);
    let ghost before_release = warnings@;
    let release_config = if version_files.len() > 0 {
        let w = String::from_str(
            "current-version set to placeholder '0.0.0' - update this to your actual version",
        );
        warnings.push(w);
        assert(views(warnings@) == views(before_release).push(w@));
        Some(
            ReleaseConfig {
                current_version: String::from_str("0.0.0"),
                version_files: Some(version_files),
                commit_message: None,
                branch_name: None,
                push: false,
                create_pr: false,
                confirm: true,
            },
        )
    } else {
        let w = String::from_str(
            "NOTE: You will need to manually add the [release] section with 'current-version'",
        );
        warnings.push(w);
        assert(views(warnings@) == views(before_release).push(w@));
        None
    };
    (Config { members: None, release: release_config, changelog: changelog_config }, warnings)
}

/// Rooster's ignore-labels carry over: when rooster lists ignore-labels,
/// the migrated configuration has a changelog section that ignores exactly
/// them; when it lists none, the changelog's ignore-labels (if any) are
/// rooster's changelog-ignore-labels.
pub proof fn law_ignore_labels_carry_over(r: RoosterConfig)
    ensures
        r.ignore_labels@.len() > 0 ==> migrated_has_changelog(r) && migrated_ignore_labels(r)
            == views(r.ignore_labels@),
        r.ignore_labels@.len() == 0 ==> migrated_ignore_labels(r) == views(
            r.changelog_ignore_labels@,
        ),
        r.ignore_labels@.len() == 0 && r.changelog_ignore_labels@.len() > 0
            ==> migrated_has_changelog(r),
{
    if r.ignore_labels@.len() == 0 && r.changelog_ignore_labels@.len() == 0 {
        assert(views(r.changelog_ignore_labels@) =~= Seq::<Seq<char>>::empty());
    }
}

} // verus!
