use seal::config::{VersionFile, VersionFileTextFormat};
use seal::migrate::{
    convert_section_labels, convert_version_files, migrate_rooster_config, RequireLabel,
    RoosterConfig, RoosterVersionFile,
};

fn strings(v: &[&str]) -> Vec<String> {
    v.iter().map(|s| s.to_string()).collect()
}

fn rooster() -> RoosterConfig {
    RoosterConfig {
        version_files: vec![],
        submodules: vec![],
        require_labels: vec![],
        ignore_labels: vec![],
        changelog_ignore_labels: vec![],
        changelog_ignore_authors: vec![],
        major_labels: vec![],
        minor_labels: vec![],
        version_format: None,
        default_bump_type: None,
        trim_title_prefixes: vec![],
        section_labels: vec![],
        changelog_sections: vec![],
        changelog_contributors: None,
        version_tag_prefix: None,
    }
}

const RELEASE_NOTE: &str = "NOTE: You will need to manually add the [release] section with 'current-version'";

#[test]
fn migrate_rooster_basic() {
    let mut r = rooster();
    r.changelog_ignore_labels = strings(&["internal", "ci", "testing"]);
    r.changelog_contributors = Some(true);
    let (config, warnings) = migrate_rooster_config(&r);
    assert_eq!(warnings, strings(&[RELEASE_NOTE]));
    assert!(config.release.is_none());
    let changelog = config.changelog.unwrap();
    assert_eq!(changelog.ignore_labels, Some(strings(&["internal", "ci", "testing"])));
    assert_eq!(changelog.ignore_contributors, None);
    assert_eq!(changelog.section_labels, None);
    assert_eq!(changelog.include_contributors, None);
}

#[test]
fn migrate_rooster_defaults() {
    let (config, warnings) = migrate_rooster_config(&rooster());
    assert_eq!(warnings, strings(&[RELEASE_NOTE]));
    assert!(config.release.is_none());
    assert!(config.changelog.is_none());
    assert!(config.members.is_none());
}

#[test]
fn migrate_rooster_without_contributors() {
    let mut r = rooster();
    r.changelog_contributors = Some(false);
    let (config, _) = migrate_rooster_config(&r);
    assert_eq!(config.changelog.unwrap().include_contributors, Some(false));
}

#[test]
fn migrate_rooster_with_section_labels() {
    let mut r = rooster();
    r.changelog_ignore_labels = strings(&["internal"]);
    r.section_labels = vec![
        ("Breaking changes".to_string(), strings(&["breaking"])),
        ("Enhancements".to_string(), strings(&["enhancement", "compatibility"])),
        ("Bug fixes".to_string(), strings(&["bug"])),
    ];
    let (config, warnings) = migrate_rooster_config(&r);
    assert_eq!(warnings, strings(&[
        "section-labels/changelog-sections: Custom changelog sections are supported but you need to manually verify the mapping",
        RELEASE_NOTE,
    ]));
    let changelog = config.changelog.unwrap();
    assert_eq!(changelog.ignore_labels, Some(strings(&["internal"])));
    assert_eq!(changelog.section_labels.map(|s| s.entries().to_vec()), Some(vec![
        ("Breaking changes".to_string(), strings(&["breaking"])),
        ("Bug fixes".to_string(), strings(&["bug"])),
        ("Enhancements".to_string(), strings(&["enhancement", "compatibility"])),
    ]));
}

#[test]
fn migrate_rooster_with_unsupported_features() {
    let mut r = rooster();
    r.minor_labels = strings(&["breaking"]);
    r.default_bump_type = Some("pre".to_string());
    r.trim_title_prefixes = strings(&["[prefix]"]);
    r.submodules = strings(&["sub1", "sub2"]);
    let (_, warnings) = migrate_rooster_config(&r);
    assert_eq!(warnings, strings(&[
        "submodules: Not supported in seal (monorepo members should be configured separately)",
        "major-labels/minor-labels: Semantic version bumping based on labels is not yet supported in seal",
        "default-bump-type: Not supported in seal (use 'seal bump' with explicit version)",
        "trim-title-prefixes: Not supported in seal",
        RELEASE_NOTE,
    ]));
}

#[test]
fn require_labels_and_tag_prefix_warn() {
    let mut r = rooster();
    r.require_labels = vec![RequireLabel { submodule: "a".to_string(), labels: strings(&["x"]) }];
    r.version_tag_prefix = Some("release-".to_string());
    let (_, warnings) = migrate_rooster_config(&r);
    assert_eq!(warnings, strings(&[
        "require-labels: Not supported in seal",
        "version-tag-prefix: Custom tag prefix 'release-' is not configurable in seal (always uses 'v')",
        RELEASE_NOTE,
    ]));
    let mut v = rooster();
    v.version_tag_prefix = Some("v".to_string());
    assert_eq!(migrate_rooster_config(&v).1, strings(&[RELEASE_NOTE]));
}

#[test]
fn migrate_rooster_with_version_files() {
    let mut r = rooster();
    r.version_files = vec![
        RoosterVersionFile::Simple("pyproject.toml".to_string()),
        RoosterVersionFile::WithField {
            path: "Cargo.toml".to_string(),
            field: "package.version".to_string(),
            format: Some("cargo".to_string()),
        },
    ];
    let (config, warnings) = migrate_rooster_config(&r);
    assert_eq!(warnings, strings(&[
        "current-version set to placeholder '0.0.0' - update this to your actual version"
    ]));
    let release = config.release.unwrap();
    assert_eq!(release.current_version, "0.0.0");
    assert!(!release.push && !release.create_pr && release.confirm);
    assert_eq!(release.version_files, Some(vec![
        VersionFile::Simple("pyproject.toml".to_string()),
        VersionFile::Text {
            path: "Cargo.toml".to_string(),
            format: VersionFileTextFormat::Toml,
            field: Some("package.version".to_string()),
        },
    ]));
}

#[test]
fn unsupported_file_format_becomes_a_simple_file() {
    let mut warnings = Vec::new();
    let files = convert_version_files(
        &[
            RoosterVersionFile::WithField {
                path: "package.json".to_string(),
                field: "version".to_string(),
                format: Some("npm".to_string()),
            },
            RoosterVersionFile::WithMatch {
                target: "a.py".to_string(),
                match_pattern: "__version__ = \"{version}\"".to_string(),
                format: None,
            },
            RoosterVersionFile::WithReplace { target: "b.sh".to_string(), replace: "V={version}".to_string() },
            RoosterVersionFile::JustPath { path: "VERSION".to_string() },
        ],
        &mut warnings,
    );
    assert_eq!(files, vec![
        VersionFile::Simple("package.json".to_string()),
        VersionFile::Search { path: "a.py".to_string(), search: "__version__ = \"{version}\"".to_string() },
        VersionFile::Search { path: "b.sh".to_string(), search: "V={version}".to_string() },
        VersionFile::Simple("VERSION".to_string()),
    ]);
    assert_eq!(warnings, strings(&[
        "version-file 'package.json': Unsupported format 'npm', treating as simple file"
    ]));
}

#[test]
fn changelog_sections_without_labels_use_their_lowercased_name() {
    let labels = vec![("Features".to_string(), strings(&["feature"]))];
    let sections = vec![
        ("Features".to_string(), "Features".to_string()),
        ("Bug Fixes".to_string(), "Bug Fixes".to_string()),
        ("__unknown__".to_string(), "Other".to_string()),
    ];
    assert_eq!(convert_section_labels(&labels, &sections), vec![
        ("Bug Fixes".to_string(), strings(&["bug fixes"])),
        ("Features".to_string(), strings(&["feature"])),
    ]);
}
