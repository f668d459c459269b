use seal::version::{Version, VersionOrder};

fn v(text: &str) -> Version {
    Version::parse(text).unwrap()
}

#[test]
fn parse_keeps_the_parts() {
    let parsed = v("1.2.3-rc.1+build.5");
    assert_eq!((parsed.major, parsed.minor, parsed.patch), (1, 2, 3));
    assert_eq!(parsed.pre, "rc.1");
    assert_eq!(parsed.build, "build.5");
    assert_eq!(parsed.to_string(), "1.2.3-rc.1+build.5");
    assert_eq!(Version::new(4, 5, 6).to_string(), "4.5.6");
}

#[test]
fn parse_rejects_what_semver_rejects() {
    assert!(Version::parse("1.2").is_err());
    assert!(Version::parse("v1.2.3").is_err());
    assert!(!Version::parse("01.2.3").unwrap_err().message.is_empty());
}

#[test]
fn precedence_follows_semver() {
    assert_eq!(v("1.0.0").precedence(&v("2.0.0")), VersionOrder::Less);
    assert_eq!(v("1.10.0").precedence(&v("1.9.0")), VersionOrder::Greater);
    assert_eq!(v("1.0.0-alpha").precedence(&v("1.0.0-alpha.1")), VersionOrder::Less);
    assert_eq!(v("1.0.0-alpha.2").precedence(&v("1.0.0-alpha.10")), VersionOrder::Less);
    assert_eq!(v("1.0.0-beta").precedence(&v("1.0.0-alpha.9")), VersionOrder::Greater);
    assert_eq!(v("1.0.0-rc.1").precedence(&v("1.0.0")), VersionOrder::Less);
    assert_eq!(v("1.0.0").precedence(&v("1.0.0")), VersionOrder::Equal);
    assert_eq!(v("1.0.0+a").precedence(&v("1.0.0")), VersionOrder::Greater);
}
