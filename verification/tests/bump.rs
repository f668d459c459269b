use seal::bump::{calculate_new_version, CalculateError, PreReleaseType, VersionBump, VersionBumpError};
use seal::version::Version;

fn parsed(text: &str) -> Version {
    Version::parse(text).unwrap()
}

#[test]
fn test_parse_major() {
    assert_eq!("major".parse::<VersionBump>().unwrap(), VersionBump::Major);
    assert_eq!("MAJOR".parse::<VersionBump>().unwrap(), VersionBump::Major);
    assert_eq!("Major".parse::<VersionBump>().unwrap(), VersionBump::Major);
}

#[test]
fn test_parse_minor() {
    assert_eq!("minor".parse::<VersionBump>().unwrap(), VersionBump::Minor);
    assert_eq!("MINOR".parse::<VersionBump>().unwrap(), VersionBump::Minor);
}

#[test]
fn test_parse_patch() {
    assert_eq!("patch".parse::<VersionBump>().unwrap(), VersionBump::Patch);
    assert_eq!("PATCH".parse::<VersionBump>().unwrap(), VersionBump::Patch);
}

#[test]
fn test_parse_prerelease_only() {
    assert_eq!(
        "alpha".parse::<VersionBump>().unwrap(),
        VersionBump::PreRelease(PreReleaseType::Alpha)
    );
    assert_eq!(
        "beta".parse::<VersionBump>().unwrap(),
        VersionBump::PreRelease(PreReleaseType::Beta)
    );
    assert_eq!(
        "rc".parse::<VersionBump>().unwrap(),
        VersionBump::PreRelease(PreReleaseType::Rc)
    );
    assert_eq!(
        "ALPHA".parse::<VersionBump>().unwrap(),
        VersionBump::PreRelease(PreReleaseType::Alpha)
    );
}

#[test]
fn test_parse_major_prerelease() {
    assert_eq!(
        "major-alpha".parse::<VersionBump>().unwrap(),
        VersionBump::MajorPreRelease(PreReleaseType::Alpha)
    );
    assert_eq!(
        "major-beta".parse::<VersionBump>().unwrap(),
        VersionBump::MajorPreRelease(PreReleaseType::Beta)
    );
    assert_eq!(
        "major-rc".parse::<VersionBump>().unwrap(),
        VersionBump::MajorPreRelease(PreReleaseType::Rc)
    );
    assert_eq!(
        "major_alpha".parse::<VersionBump>().unwrap(),
        VersionBump::MajorPreRelease(PreReleaseType::Alpha)
    );
    assert_eq!(
        "major.beta".parse::<VersionBump>().unwrap(),
        VersionBump::MajorPreRelease(PreReleaseType::Beta)
    );
}

#[test]
fn test_parse_minor_prerelease() {
    assert_eq!(
        "minor-alpha".parse::<VersionBump>().unwrap(),
        VersionBump::MinorPreRelease(PreReleaseType::Alpha)
    );
    assert_eq!(
        "minor-beta".parse::<VersionBump>().unwrap(),
        VersionBump::MinorPreRelease(PreReleaseType::Beta)
    );
    assert_eq!(
        "minor-rc".parse::<VersionBump>().unwrap(),
        VersionBump::MinorPreRelease(PreReleaseType::Rc)
    );
    assert_eq!(
        "patch-rc".parse::<VersionBump>().unwrap(),
        VersionBump::PatchPreRelease(PreReleaseType::Rc)
    );
}

#[test]
fn test_parse_patch_prerelease() {
    assert_eq!(
        "patch-alpha".parse::<VersionBump>().unwrap(),
        VersionBump::PatchPreRelease(PreReleaseType::Alpha)
    );
    assert_eq!(
        "patch-beta".parse::<VersionBump>().unwrap(),
        VersionBump::PatchPreRelease(PreReleaseType::Beta)
    );
    assert_eq!(
        "patch-rc".parse::<VersionBump>().unwrap(),
        VersionBump::PatchPreRelease(PreReleaseType::Rc)
    );
}

#[test]
fn test_parse_explicit_prerelease_version() {
    assert_eq!(
        "1.2.3-alpha.1".parse::<VersionBump>().unwrap(),
        VersionBump::Explicit("1.2.3-alpha.1".to_string())
    );
    assert_eq!(
        "0.1.0-beta.2".parse::<VersionBump>().unwrap(),
        VersionBump::Explicit("0.1.0-beta.2".to_string())
    );
    assert_eq!(
        "2.0.0-rc.1".parse::<VersionBump>().unwrap(),
        VersionBump::Explicit("2.0.0-rc.1".to_string())
    );
}

#[test]
fn test_parse_explicit_version() {
    assert_eq!(
        "1.2.3".parse::<VersionBump>().unwrap(),
        VersionBump::Explicit("1.2.3".to_string())
    );
    assert_eq!(
        "0.0.1".parse::<VersionBump>().unwrap(),
        VersionBump::Explicit("0.0.1".to_string())
    );
    assert_eq!(
        "10.20.30".parse::<VersionBump>().unwrap(),
        VersionBump::Explicit("10.20.30".to_string())
    );
}

#[test]
fn test_parse_invalid() {
    assert_eq!(
        "invalid".parse::<VersionBump>().unwrap_err(),
        VersionBumpError::InvalidBump("invalid".to_string())
    );
    assert_eq!(
        "1.2".parse::<VersionBump>().unwrap_err(),
        VersionBumpError::InvalidBump("1.2".to_string())
    );
    assert_eq!(
        "1.2.3.4".parse::<VersionBump>().unwrap_err(),
        VersionBumpError::InvalidBump("1.2.3.4".to_string())
    );
    assert_eq!(
        "a.b.c".parse::<VersionBump>().unwrap_err(),
        VersionBumpError::InvalidBump("a.b.c".to_string())
    );
}

#[test]
fn test_display() {
    assert_eq!(VersionBump::Major.to_string(), "major");
    assert_eq!(VersionBump::Minor.to_string(), "minor");
    assert_eq!(VersionBump::Patch.to_string(), "patch");
    assert_eq!(
        VersionBump::PreRelease(PreReleaseType::Alpha).to_string(),
        "alpha"
    );
    assert_eq!(
        VersionBump::MajorPreRelease(PreReleaseType::Beta).to_string(),
        "major-beta"
    );
    assert_eq!(
        VersionBump::MinorPreRelease(PreReleaseType::Rc).to_string(),
        "minor-rc"
    );
    assert_eq!(
        VersionBump::PatchPreRelease(PreReleaseType::Alpha).to_string(),
        "patch-alpha"
    );
    assert_eq!(
        VersionBump::Explicit("1.2.3".to_string()).to_string(),
        "1.2.3"
    );
    assert_eq!(
        VersionBump::Explicit("1.2.3-alpha.1".to_string()).to_string(),
        "1.2.3-alpha.1"
    );
}

#[test]
fn test_prerelease_type_display() {
    assert_eq!(PreReleaseType::Alpha.to_string(), "alpha");
    assert_eq!(PreReleaseType::Beta.to_string(), "beta");
    assert_eq!(PreReleaseType::Rc.to_string(), "rc");
}

#[test]
fn test_calculate_version_major() {
    assert_eq!(
        calculate_new_version("1.2.3", &VersionBump::Major).unwrap(),
        Version::new(2, 0, 0)
    );
    assert_eq!(
        calculate_new_version("0.5.10", &VersionBump::Major).unwrap(),
        Version::new(1, 0, 0)
    );
}

#[test]
fn test_calculate_version_minor() {
    assert_eq!(
        calculate_new_version("1.2.3", &VersionBump::Minor).unwrap(),
        Version::new(1, 3, 0)
    );
    assert_eq!(
        calculate_new_version("2.0.0", &VersionBump::Minor).unwrap(),
        Version::new(2, 1, 0)
    );
}

#[test]
fn test_calculate_version_patch() {
    assert_eq!(
        calculate_new_version("1.2.3", &VersionBump::Patch).unwrap(),
        Version::new(1, 2, 4)
    );
    assert_eq!(
        calculate_new_version("1.0.0", &VersionBump::Patch).unwrap(),
        Version::new(1, 0, 1)
    );
}

#[test]
fn test_calculate_version_major_prerelease() {
    assert_eq!(
        calculate_new_version("1.2.3", &VersionBump::MajorPreRelease(PreReleaseType::Alpha))
            .unwrap(),
        parsed("2.0.0-alpha.1")
    );
    assert_eq!(
        calculate_new_version("0.5.0", &VersionBump::MajorPreRelease(PreReleaseType::Beta))
            .unwrap(),
        parsed("1.0.0-beta.1")
    );
    assert_eq!(
        calculate_new_version("1.9.9", &VersionBump::MajorPreRelease(PreReleaseType::Rc)).unwrap(),
        parsed("2.0.0-rc.1")
    );
}

#[test]
fn test_calculate_version_minor_prerelease() {
    assert_eq!(
        calculate_new_version("1.2.3", &VersionBump::MinorPreRelease(PreReleaseType::Alpha))
            .unwrap(),
        parsed("1.3.0-alpha.1")
    );
    assert_eq!(
        calculate_new_version("2.0.0", &VersionBump::MinorPreRelease(PreReleaseType::Beta))
            .unwrap(),
        parsed("2.1.0-beta.1")
    );
}

#[test]
fn test_calculate_version_patch_prerelease() {
    assert_eq!(
        calculate_new_version("1.2.3", &VersionBump::PatchPreRelease(PreReleaseType::Alpha))
            .unwrap(),
        parsed("1.2.4-alpha.1")
    );
    assert_eq!(
        calculate_new_version("1.0.0", &VersionBump::PatchPreRelease(PreReleaseType::Rc)).unwrap(),
        parsed("1.0.1-rc.1")
    );
}

#[test]
fn test_calculate_version_prerelease_bump() {
    assert_eq!(
        calculate_new_version("1.2.3-alpha.1", &VersionBump::PreRelease(PreReleaseType::Alpha))
            .unwrap(),
        parsed("1.2.3-alpha.2")
    );
    assert_eq!(
        calculate_new_version("2.0.0-beta.5", &VersionBump::PreRelease(PreReleaseType::Beta))
            .unwrap(),
        parsed("2.0.0-beta.6")
    );
    assert_eq!(
        calculate_new_version("1.5.0-rc.1", &VersionBump::PreRelease(PreReleaseType::Rc)).unwrap(),
        parsed("1.5.0-rc.2")
    );
}

#[test]
fn test_calculate_version_prerelease_mismatch() {
    let result = calculate_new_version("1.2.3-alpha.1", &VersionBump::PreRelease(PreReleaseType::Beta));
    assert!(result.is_err());
    assert!(result
        .unwrap_err()
        .to_string()
        .contains("Cannot bump beta prerelease on a alpha version"));
}

#[test]
fn test_calculate_version_explicit() {
    assert_eq!(
        calculate_new_version("1.2.3", &VersionBump::Explicit("3.0.0".to_string())).unwrap(),
        parsed("3.0.0")
    );
    assert_eq!(
        calculate_new_version("1.2.3", &VersionBump::Explicit("2.0.0-beta.1".to_string())).unwrap(),
        parsed("2.0.0-beta.1")
    );
}

#[test]
fn test_calculate_version_invalid() {
    let result = calculate_new_version("1.2.3", &VersionBump::Explicit("1.1.1.1.1".to_string()));
    assert!(result.is_err());
    let error = result.unwrap_err();
    assert!(matches!(
        error,
        CalculateError::Bump(VersionBumpError::MalformedVersion(_))
    ));
}

#[test]
fn bump_text_reads_back_as_the_same_bump() {
    let bumps = vec![
        VersionBump::Major,
        VersionBump::Minor,
        VersionBump::Patch,
        VersionBump::PreRelease(PreReleaseType::Beta),
        VersionBump::MajorPreRelease(PreReleaseType::Rc),
        VersionBump::MinorPreRelease(PreReleaseType::Alpha),
        VersionBump::PatchPreRelease(PreReleaseType::Beta),
    ];
    for b in bumps {
        assert_eq!(VersionBump::parse(&b.to_string()).unwrap(), b);
    }
}

#[test]
fn bumps_move_the_version_forward() {
    let current = parsed("1.2.3-alpha.4");
    for b in [
        VersionBump::Major,
        VersionBump::Minor,
        VersionBump::Patch,
        VersionBump::MajorPreRelease(PreReleaseType::Alpha),
        VersionBump::MinorPreRelease(PreReleaseType::Beta),
        VersionBump::PatchPreRelease(PreReleaseType::Rc),
    ] {
        let new = calculate_new_version("1.2.3-alpha.4", &b).unwrap();
        assert_eq!(new.precedence(&current), seal::version::VersionOrder::Greater);
    }
}

#[test]
fn a_bare_prerelease_bump_on_a_release_goes_below_it() {
    let new = calculate_new_version("1.0.0", &VersionBump::PreRelease(PreReleaseType::Alpha)).unwrap();
    assert_eq!(new, parsed("1.0.0-alpha.0"));
    assert_eq!(new.precedence(&parsed("1.0.0")), seal::version::VersionOrder::Less);
}

#[test]
fn build_metadata_is_kept_and_a_bare_type_counts_as_zero() {
    assert_eq!(
        calculate_new_version("1.2.3+build.7", &VersionBump::Minor).unwrap(),
        parsed("1.3.0+build.7")
    );
    assert_eq!(
        calculate_new_version("1.2.3-rc", &VersionBump::PreRelease(PreReleaseType::Rc)).unwrap(),
        parsed("1.2.3-rc.1")
    );
}

#[test]
fn calculate_errors() {
    let e = calculate_new_version("not a version", &VersionBump::Major).unwrap_err();
    assert!(matches!(e, CalculateError::InvalidCurrentVersion(_)));
    assert_eq!(e.to_string(), "Invalid current version");
    assert_eq!(e.causes(), vec![semver::Version::parse("not a version").unwrap_err().to_string()]);

    let e = calculate_new_version("1.2.3-alpha.x", &VersionBump::PreRelease(PreReleaseType::Alpha))
        .unwrap_err();
    assert_eq!(
        e,
        CalculateError::Bump(VersionBumpError::MalformedVersion(
            "Invalid prerelease number in: alpha.x".to_string()
        ))
    );

    let e = calculate_new_version("1.2.3", &VersionBump::Explicit("1.0.0".to_string())).unwrap_err();
    assert_eq!(
        e,
        CalculateError::Bump(VersionBumpError::ExplicitVersionPrior {
            current: "1.2.3".to_string(),
            new: "1.0.0".to_string()
        })
    );
    assert_eq!(e.to_string(), "Invalid version bump");
    assert_eq!(
        e.causes(),
        vec!["explicit version '1.0.0' is prior to the current version '1.2.3'".to_string()]
    );

    let e = calculate_new_version("1.2.3", &VersionBump::Explicit("1.2.3".to_string())).unwrap_err();
    assert_eq!(
        e,
        CalculateError::Bump(VersionBumpError::ExplicitVersionSame {
            current: "1.2.3".to_string(),
            new: "1.2.3".to_string()
        })
    );

    let e = calculate_new_version("18446744073709551615.0.0", &VersionBump::Major).unwrap_err();
    assert_eq!(e, CalculateError::Overflow);
}

#[test]
fn bump_error_messages() {
    assert_eq!(
        VersionBumpError::InvalidBump("x".to_string()).to_string(),
        "invalid version bump: 'x'. Expected 'major', 'minor', 'patch', 'alpha', 'beta', 'rc', combinations like 'major-alpha', or a semantic version like '1.2.3'"
    );
    assert_eq!(
        VersionBumpError::MalformedVersion("1.2".to_string()).to_string(),
        "malformed version: '1.2'. Expected format 'X.Y.Z' where X, Y, and Z are non-negative integers"
    );
    assert_eq!(
        VersionBumpError::ExplicitVersionSame {
            current: "1.0.0".to_string(),
            new: "1.0.0".to_string()
        }
        .to_string(),
        "explicit version '1.0.0' is the same as the current version '1.0.0'"
    );
}

#[test]
fn versions_display_and_compare() {
    assert_eq!(parsed("1.2.3-rc.1+b.5").to_string(), "1.2.3-rc.1+b.5");
    assert_eq!(Version::new(4, 5, 6).to_string(), "4.5.6");
    assert_eq!(
        parsed("1.0.0-alpha.2").precedence(&parsed("1.0.0-alpha.10")),
        seal::version::VersionOrder::Less
    );
    assert_eq!(
        parsed("2.0.0").precedence(&parsed("1.9.9")),
        seal::version::VersionOrder::Greater
    );
    assert!(Version::parse("1.2").is_err());
}

#[test]
fn explicit_bump_text_reads_back() {
    let b: VersionBump = "1.2.3-rc.1+build.7".parse().unwrap();
    assert_eq!(b, VersionBump::Explicit("1.2.3-rc.1+build.7".to_string()));
    assert_eq!(b.to_string().parse::<VersionBump>().unwrap(), b);
}

#[test]
fn keyword_like_texts_are_no_versions() {
    for t in ["major", "alpha", "patch-rc", "v1.2.3", " 1.2.3", "1.2.3é"] {
        assert!(seal::version::Version::parse(t).is_err(), "{t}");
    }
    let b: VersionBump = "1.0.0".parse().unwrap();
    assert_eq!(b.to_string().parse::<VersionBump>().unwrap(), b);
}
