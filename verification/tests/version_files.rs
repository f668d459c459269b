use seal::config::{VersionFile, VersionFileTextFormat};
use seal::version::Version;
use seal::version_files::{
    calculate_version_file_changes, exact_version_replacement, nested_toml_key, MatchedFile,
    TomlValue, VersionFileError,
};

fn table(entries: Vec<(&str, TomlValue)>) -> TomlValue {
    TomlValue::Table {
        entries: entries.into_iter().map(|(k, v)| (k.to_string(), v)).collect(),
        debug: "{..}".to_string(),
    }
}

fn cargo_doc(version: &str) -> TomlValue {
    table(vec![(
        "package",
        table(vec![
            ("name", TomlValue::String("demo".to_string())),
            ("version", TomlValue::String(version.to_string())),
        ]),
    )])
}

fn text_file(path: &str, content: &str) -> MatchedFile {
    MatchedFile { path: path.to_string(), content: Ok(content.to_string()) }
}

fn seal_toml(version: &str) -> Result<String, String> {
    Ok(format!("[release]\ncurrent-version = \"{version}\"\n"))
}

fn new_version(text: &str) -> Version {
    Version::parse(text).unwrap()
}

fn contents(changes: &seal::file_change::FileChanges) -> Vec<(String, String)> {
    changes.iter().iter().map(|c| (c.path().clone(), c.new_content().to_string())).collect()
}

#[test]
fn nested_key_reads_string_like_values() {
    let doc = cargo_doc("1.2.3");
    assert_eq!(nested_toml_key(&doc, "package.version"), Ok("1.2.3".to_string()));
    let numbers = table(vec![
        ("n", TomlValue::Integer(-42)),
        ("f", TomlValue::Float("1.5".to_string())),
        ("b", TomlValue::Boolean(true)),
    ]);
    assert_eq!(nested_toml_key(&numbers, "n"), Ok("-42".to_string()));
    assert_eq!(nested_toml_key(&numbers, "f"), Ok("1.5".to_string()));
    assert_eq!(nested_toml_key(&numbers, "b"), Ok("true".to_string()));
}

#[test]
fn nested_key_errors() {
    let doc = cargo_doc("1.2.3");
    let missing = nested_toml_key(&doc, "package.missing").unwrap_err();
    assert_eq!(missing, VersionFileError::KeyNotFound { part: "missing".to_string() });
    assert_eq!(missing.to_string(), "Key `missing` not found");
    let not_table = nested_toml_key(&doc, "package.name.x").unwrap_err();
    assert_eq!(not_table.to_string(), "Expected `x` to refer to a TOML table");
    let not_scalar = nested_toml_key(&doc, "package").unwrap_err();
    assert_eq!(not_scalar.to_string(), "Expected final TOML value to be string-like, got {..}");
}

#[test]
fn exact_replacement_replaces_every_occurrence() {
    assert_eq!(
        exact_version_replacement("VERSION", "1.0.0 and 1.0.0", "1.0.0", "1.1.0"),
        Ok("1.1.0 and 1.1.0".to_string())
    );
    let err = exact_version_replacement("VERSION", "2.0.0", "1.0.0", "1.1.0").unwrap_err();
    assert_eq!(err.to_string(), "Version `1.0.0` not found in file `VERSION`");
}

#[test]
fn bump_with_mixed_version_formats() {
    let files = vec![
        VersionFile::Simple("VERSION".to_string()),
        VersionFile::Text {
            path: "Cargo.toml".to_string(),
            format: VersionFileTextFormat::Toml,
            field: None,
        },
        VersionFile::Search {
            path: "version.sh".to_string(),
            search: "export VERSION=\"{version}\"".to_string(),
        },
    ];
    let cargo = "[package]\nname = \"demo\"\nversion = \"1.0.0\"\n";
    let matches = vec![
        Ok(vec![text_file("VERSION", "1.0.0\n")]),
        Ok(vec![MatchedFile {
            path: "Cargo.toml".to_string(),
            content: Ok(cargo.to_string()),
        }]),
        Ok(vec![text_file("version.sh", "export VERSION=\"1.0.0\"\necho 1.0.0\n")]),
    ];
    let changes = calculate_version_file_changes(
        "/proj",
        &files,
        &matches,
        "1.0.0",
        &new_version("1.1.0"),
        seal_toml("1.0.0"),
    )
    .unwrap();
    assert_eq!(contents(&changes), vec![
        ("/proj/VERSION".to_string(), "1.1.0\n".to_string()),
        ("/proj/Cargo.toml".to_string(), "[package]\nname = \"demo\"\nversion = \"1.1.0\"\n".to_string()),
        ("/proj/version.sh".to_string(), "export VERSION=\"1.1.0\"\necho 1.0.0\n".to_string()),
        ("/proj/seal.toml".to_string(), "[release]\ncurrent-version = \"1.1.0\"\n".to_string()),
    ]);
}

#[test]
fn bump_with_custom_search_pattern_not_found() {
    let files = vec![VersionFile::Search {
        path: "version.sh".to_string(),
        search: "export PUBLIC_VERSION=\"{version}\"".to_string(),
    }];
    let matches = vec![Ok(vec![text_file("version.sh", "export VERSION=\"1.0.0\"\n")])];
    let err = calculate_version_file_changes(
        "/proj",
        &files,
        &matches,
        "1.0.0",
        &new_version("1.0.1"),
        seal_toml("1.0.0"),
    )
    .unwrap_err();
    assert_eq!(
        err.to_string(),
        "Search pattern not found in file. Expected: export PUBLIC_VERSION=\"1.0.0\""
    );
}

#[test]
fn mismatched_toml_version_is_an_error() {
    let files = vec![VersionFile::Text {
        path: "Cargo.toml".to_string(),
        format: VersionFileTextFormat::Toml,
        field: Some("package.version".to_string()),
    }];
    let matches = vec![Ok(vec![MatchedFile {
        path: "Cargo.toml".to_string(),
        content: Ok("[package]\nversion = \"0.9.0\"\n".to_string()),
    }])];
    let err = calculate_version_file_changes(
        "/proj",
        &files,
        &matches,
        "1.0.0",
        &new_version("1.0.1"),
        seal_toml("1.0.0"),
    )
    .unwrap_err();
    assert_eq!(err.to_string(), "Mismatched version in `Cargo.toml`, expected `1.0.0`, found `0.9.0`");
}

#[test]
fn missing_files_and_seal_toml_line_are_errors() {
    let files = vec![VersionFile::Simple("missing/*.txt".to_string())];
    let none: Vec<Result<Vec<MatchedFile>, String>> = vec![Ok(vec![])];
    let err = calculate_version_file_changes("/proj", &files, &none, "1.0.0", &new_version("1.0.1"), seal_toml("1.0.0"))
        .unwrap_err();
    assert_eq!(err, VersionFileError::NoFilesFound { path: "missing/*.txt".to_string() });
    assert_eq!(err.to_string(), "No files found for path or glob `missing/*.txt`");

    let glob_err: Vec<Result<Vec<MatchedFile>, String>> = vec![Err("bad glob".to_string())];
    let err = calculate_version_file_changes("/proj", &files, &glob_err, "1.0.0", &new_version("1.0.1"), seal_toml("1.0.0"))
        .unwrap_err();
    assert_eq!(err, VersionFileError::Glob("bad glob".to_string()));

    let err = calculate_version_file_changes("/proj", &[], &[], "1.0.0", &new_version("1.0.1"), seal_toml("0.1.0"))
        .unwrap_err();
    assert_eq!(err.to_string(), "Could not find current-version = \"1.0.0\" in seal.toml");

    let err = calculate_version_file_changes("/proj", &[], &[], "1.0.0", &new_version("1.0.1"), Err("denied".to_string()))
        .unwrap_err();
    assert_eq!(err.to_string(), "Failed to read seal.toml: denied");
}

#[test]
fn seal_toml_alone_gets_the_new_version() {
    let changes =
        calculate_version_file_changes("/proj", &[], &[], "1.0.0", &new_version("2.0.0-rc.1"), seal_toml("1.0.0"))
            .unwrap();
    assert_eq!(contents(&changes), vec![(
        "/proj/seal.toml".to_string(),
        "[release]\ncurrent-version = \"2.0.0-rc.1\"\n".to_string()
    )]);
    assert_eq!(changes.iter()[0].old_content(), "[release]\ncurrent-version = \"1.0.0\"\n");
}

#[test]
fn unreadable_file_is_an_error() {
    let files = vec![VersionFile::Simple("VERSION".to_string())];
    let matches = vec![Ok(vec![MatchedFile {
        path: "VERSION".to_string(),
        content: Err("permission denied".to_string()),
    }])];
    let err = calculate_version_file_changes("/proj", &files, &matches, "1.0.0", &new_version("1.0.1"), seal_toml("1.0.0"))
        .unwrap_err();
    assert_eq!(err, VersionFileError::Read("permission denied".to_string()));
}

#[test]
fn toml_field_in_another_layout_is_read_but_left_as_it_was() {
    let files = vec![VersionFile::Text {
        path: "Cargo.toml".to_string(),
        format: VersionFileTextFormat::Toml,
        field: None,
    }];
    let content = "[package]\nversion=\"1.0.0\"\n";
    let matches = vec![Ok(vec![MatchedFile {
        path: "Cargo.toml".to_string(),
        content: Ok(content.to_string()),
    }])];
    let changes = calculate_version_file_changes(
        "/proj",
        &files,
        &matches,
        "1.0.0",
        &new_version("1.0.1"),
        seal_toml("1.0.0"),
    )
    .unwrap();
    assert_eq!(changes.iter()[0].new_content(), content);
}

#[test]
fn unparsable_toml_file_is_an_error() {
    let files = vec![VersionFile::Text {
        path: "Cargo.toml".to_string(),
        format: VersionFileTextFormat::Toml,
        field: None,
    }];
    let content = "[package\nversion = \"1.0.0\"\n";
    let matches = vec![Ok(vec![text_file("Cargo.toml", content)])];
    let err = calculate_version_file_changes(
        "/proj",
        &files,
        &matches,
        "1.0.0",
        &new_version("1.0.1"),
        seal_toml("1.0.0"),
    )
    .unwrap_err();
    let expected = toml::from_str::<toml::Value>(content).unwrap_err().to_string();
    assert_eq!(err, VersionFileError::TomlParse(expected));
}

#[test]
fn toml_field_values_are_read_from_the_parsed_file() {
    let files = vec![VersionFile::Text {
        path: "pyproject.toml".to_string(),
        format: VersionFileTextFormat::Toml,
        field: Some("tool.demo.version".to_string()),
    }];
    let content = "[tool.demo]\nversion = \"2.0.0\"\nname = \"x\"\n";
    let matches = vec![Ok(vec![text_file("pyproject.toml", content)])];
    let changes = calculate_version_file_changes(
        "/proj",
        &files,
        &matches,
        "2.0.0",
        &new_version("2.1.0"),
        seal_toml("2.0.0"),
    )
    .unwrap();
    assert_eq!(changes.iter()[0].new_content(), "[tool.demo]\nversion = \"2.1.0\"\nname = \"x\"\n");
    let wrong = calculate_version_file_changes(
        "/proj",
        &files,
        &matches,
        "1.0.0",
        &new_version("2.1.0"),
        seal_toml("1.0.0"),
    )
    .unwrap_err();
    assert_eq!(wrong.to_string(), "Mismatched version in `pyproject.toml`, expected `1.0.0`, found `2.0.0`");
}
