use seal::options_docs::{
    configuration_markdown, generate, generate_release_config, Deprecated, OptionField, OptionSet,
};

fn field(doc: &str, default: Option<&str>, example: &str) -> OptionField {
    OptionField {
        doc: doc.to_string(),
        default: default.map(|d| d.to_string()),
        value_type: "bool".to_string(),
        scope: None,
        example: example.to_string(),
        deprecated: None,
        possible_values: None,
    }
}

#[test]
fn nested_field_gets_group_header_and_anchor() {
    let metadata = OptionSet {
        documentation: None,
        fields: vec![],
        sets: vec![(
            "release".to_string(),
            OptionSet {
                documentation: Some("Release settings.".to_string()),
                fields: vec![("push".to_string(), field("Push the branch.", Some("false"), "push = true"))],
                sets: vec![],
            },
        )],
    };
    assert_eq!(
        generate(&metadata),
        "## Configuration\n### `release`\n\nRelease settings.\n\n#### [`push`](#release_push)\n<span id=\"push\"></span>\n\nPush the branch.\n\n**Default value**: `false`\n\n**Type**: `bool`\n\n**Example usage**:\n\n=== \"seal.toml\"\n\n    ```toml\n    [release]\n    push = true\n    ```\n\n---\n\n"
    );
}

#[test]
fn top_level_fields_are_sorted_and_show_deprecation_and_values() {
    let mut a = field("A.", None, "a = \"x\"");
    a.deprecated = Some(Deprecated { since: Some("0.2".to_string()), message: Some("Use b.".to_string()) });
    a.possible_values = Some(vec!["x".to_string(), "y".to_string()]);
    let b = field("B.", Some("true"), "b = true");
    let metadata = OptionSet {
        documentation: None,
        fields: vec![("b".to_string(), b), ("a".to_string(), a)],
        sets: vec![],
    };
    let a_text = "### [`a`](#a)\n\n!!! warning \"Deprecated\"\n    This option has been deprecated in 0.2. Use b.\n\nA.\n\n**Required**\n\n**Possible values**:\n\n- x\n- y\n\n**Example usage**:\n\n=== \"seal.toml\"\n\n    ```toml\n    a = \"x\"\n    ```\n\n---\n\n";
    let b_text = "### [`b`](#b)\n\nB.\n\n**Default value**: `true`\n\n**Type**: `bool`\n\n**Example usage**:\n\n=== \"seal.toml\"\n\n    ```toml\n    b = true\n    ```\n\n---\n\n";
    assert_eq!(generate(&metadata), format!("## Configuration\n{a_text}{b_text}"));
}

#[test]
fn example_that_opens_its_own_table_gets_no_header() {
    let metadata = OptionSet {
        documentation: None,
        fields: vec![],
        sets: vec![(
            "changelog".to_string(),
            OptionSet {
                documentation: None,
                fields: vec![(
                    "section-labels".to_string(),
                    field("Sections.", None, "[changelog.section-labels]\n\"Bugs\" = [\"bug\"]"),
                )],
                sets: vec![],
            },
        )],
    };
    let out = generate(&metadata);
    assert!(out.contains("    ```toml\n    [changelog.section-labels]\n    \"Bugs\" = [\"bug\"]\n    ```\n"));
    assert!(out.starts_with("## Configuration\n### `changelog`\n\n#### [`section-labels`](#changelog_section-labels)\n"));
}

#[test]
fn configuration_page_has_header_and_release_section() {
    let page = configuration_markdown();
    assert!(page.starts_with("<!-- WARNING: This file is auto-generated"));
    assert!(page.contains("# Configuration\n\nSeal configuration is defined in a `seal.toml` file in the root of your project.\n\n## `[release]`\n\n"));
    let mut release = String::new();
    generate_release_config(&mut release);
    assert!(page.ends_with(&release));
    assert!(release.starts_with("## `[release]`\n\nRelease management configuration.\n\n### `current-version`\n\n**Required**\n\n"));
}
