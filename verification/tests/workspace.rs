use seal::commands::{
    changelog_exists_message, changelog_generated_message, changelog_not_found_message,
    changelog_write_plan, config_valid_message, generate_changelog_path, max_prs_or_default,
    migrate_options, migration_report, no_changelog_config_message, output_exists_message,
    project_valid_messages, release_body_changelog_path, ChangelogWrite, MAX_PRS,
};
use seal::config::{ChangelogConfig, Config};
use seal::project::{ProjectError, ProjectName};
use seal::workspace::{
    check_member, config_candidates, member_locations, parent_dir, ProjectWorkspace,
};

fn empty_config() -> Config {
    Config { members: None, release: None, changelog: None }
}

#[test]
fn parent_dir_follows_path_parent() {
    assert_eq!(parent_dir("/a/b/seal.toml"), Some("/a/b".to_string()));
    assert_eq!(parent_dir("/a"), Some("/".to_string()));
    assert_eq!(parent_dir("seal.toml"), Some(String::new()));
    assert_eq!(parent_dir("a/b/"), Some("a".to_string()));
    assert_eq!(parent_dir("/"), None);
    assert_eq!(parent_dir(""), None);
}

#[test]
fn candidates_stop_at_the_git_root() {
    assert_eq!(
        config_candidates("/repo/a/b", "/repo"),
        vec!["/repo/a/b/seal.toml", "/repo/a/seal.toml", "/repo/seal.toml"]
    );
    assert_eq!(config_candidates("/repo", "/repo"), vec!["/repo/seal.toml"]);
    assert_eq!(config_candidates("/x/y", "/repo"), vec!["/x/y/seal.toml", "/x/seal.toml", "/seal.toml"]);
}

#[test]
fn workspace_from_config_file_is_rooted_at_its_directory() {
    let ws = ProjectWorkspace::from_config_file("/repo/seal.toml", empty_config(), vec![]).unwrap();
    assert_eq!(ws.root(), "/repo");
    assert_eq!(ws.config_file(), "/repo/seal.toml");
    assert!(ws.members().is_empty());
    assert!(ws.config().release.is_none());
    let err = ProjectWorkspace::from_config_file("/", empty_config(), vec![]).unwrap_err();
    assert_eq!(
        err,
        ProjectError::ConfigFileNotReadable {
            path: "/".to_string(),
            message: "config file has no parent directory".to_string()
        }
    );
}

#[test]
fn workspace_from_project_path() {
    let ws = ProjectWorkspace::from_project_path("/repo/pkg", empty_config(), vec![]);
    assert_eq!(ws.root(), "/repo/pkg");
    assert_eq!(ws.config_file(), "/repo/pkg/seal.toml");
}

#[test]
fn members_are_located_under_the_root() {
    let config = Config {
        members: Some(vec![
            (ProjectName::new("api".to_string()).unwrap(), "crates/api".to_string()),
            (ProjectName::new("cli".to_string()).unwrap(), "crates/cli".to_string()),
        ]),
        release: None,
        changelog: None,
    };
    let locs = member_locations("/repo", &config);
    assert_eq!(locs.len(), 2);
    assert_eq!(locs[0].name.as_str(), "api");
    assert_eq!(locs[0].path, "/repo/crates/api");
    assert_eq!(locs[1].config_path, "/repo/crates/cli/seal.toml");
    assert!(member_locations("/repo", &empty_config()).is_empty());

    assert_eq!(check_member(&locs[0], true, true), Ok(()));
    let missing_dir = check_member(&locs[0], false, false).unwrap_err();
    assert_eq!(
        missing_dir.to_string(),
        "Workspace member 'api' path does not exist: /repo/crates/api"
    );
    let missing_file = check_member(&locs[1], true, false).unwrap_err();
    assert_eq!(
        missing_file.to_string(),
        "Workspace member 'cli' is missing seal.toml at path: /repo/crates/cli/seal.toml"
    );
}

#[test]
fn validation_messages() {
    assert_eq!(config_valid_message("/repo/seal.toml"), "Config file `/repo/seal.toml` is valid\n");
    assert_eq!(project_valid_messages(0), ("Project validation successful\n".to_string(), None));
    assert_eq!(
        project_valid_messages(3).1,
        Some("Found 3 workspace member(s)\n".to_string())
    );
}

#[test]
fn generate_changelog_decisions() {
    assert_eq!(max_prs_or_default(None), MAX_PRS);
    assert_eq!(max_prs_or_default(Some(5)), 5);
    let default = ChangelogConfig::default();
    assert_eq!(generate_changelog_path("/repo", &default), "/repo/CHANGELOG.md");
    let custom = ChangelogConfig { changelog_path: Some("docs/CHANGES.md".to_string()), ..ChangelogConfig::default() };
    assert_eq!(generate_changelog_path("/repo", &custom), "docs/CHANGES.md");
    assert_eq!(changelog_write_plan(true, true, None), ChangelogWrite::Print);
    assert_eq!(changelog_write_plan(false, true, None), ChangelogWrite::Refuse);
    assert_eq!(changelog_write_plan(false, true, Some(false)), ChangelogWrite::Refuse);
    assert_eq!(changelog_write_plan(false, true, Some(true)), ChangelogWrite::Write);
    assert_eq!(changelog_write_plan(false, false, None), ChangelogWrite::Write);
    assert_eq!(
        changelog_exists_message("/repo/CHANGELOG.md"),
        "CHANGELOG.md already exists at `/repo/CHANGELOG.md`. Remove it first if you want to regenerate it."
    );
    assert_eq!(
        changelog_generated_message(),
        "CHANGELOG.md generated successfully.\n"
    );
    assert_eq!(
        no_changelog_config_message("/repo"),
        "No changelog configuration found in discovered workspace at `/repo`"
    );
}

#[test]
fn release_body_reads_the_configured_changelog() {
    assert_eq!(release_body_changelog_path("/repo", &None), "/repo/CHANGELOG.md");
    let custom = ChangelogConfig { changelog_path: Some("CHANGES.md".to_string()), ..ChangelogConfig::default() };
    assert_eq!(release_body_changelog_path("/repo", &Some(custom)), "CHANGES.md");
    assert_eq!(changelog_not_found_message("/repo/CHANGELOG.md"), "Changelog not found at `/repo/CHANGELOG.md`");
}

#[test]
fn migration_options_and_report() {
    assert_eq!(
        migrate_options(None, None, None),
        ("pyproject.toml".to_string(), "seal.toml".to_string(), false)
    );
    assert_eq!(
        migrate_options(Some("in.toml".to_string()), Some("out.toml".to_string()), Some(true)),
        ("in.toml".to_string(), "out.toml".to_string(), true)
    );
    assert_eq!(
        output_exists_message("seal.toml"),
        "Output file 'seal.toml' already exists. Use --overwrite to overwrite."
    );
    assert_eq!(migration_report("seal.toml", &vec![]), "Successfully migrated rooster config to 'seal.toml'\n");
    assert_eq!(
        migration_report("seal.toml", &vec!["a".to_string(), "b".to_string()]),
        "Successfully migrated rooster config to 'seal.toml'\n\nMigration warnings:\n  - a\n  - b\n\nSee docs/migration.md for more information about unsupported features.\n"
    );
}
