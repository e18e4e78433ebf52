use breachops_nav_utils::{BuildMetadata, Prerelease, Version};

#[test]
fn renders_plain_triple() {
    assert_eq!(Version::new(0, 1, 0).to_text(), "0.1.0");
    assert_eq!(Version::new(10, 203, 4).to_text(), "10.203.4");
}

#[test]
fn renders_largest_numbers() {
    assert_eq!(
        Version::new(18446744073709551615, 0, 18446744073709551615).to_text(),
        "18446744073709551615.0.18446744073709551615"
    );
}

#[test]
fn renders_full_form() {
    let mut v = Version::new(1, 2, 3);
    v.pre = Prerelease::new("rc.1").unwrap();
    v.build = BuildMetadata::new("001").unwrap();
    assert_eq!(v.to_text(), "1.2.3-rc.1+001");
}

#[test]
fn renders_pre_only_and_build_only() {
    let mut v = Version::new(1, 0, 0);
    v.pre = Prerelease::new("alpha-3.x").unwrap();
    assert_eq!(v.to_text(), "1.0.0-alpha-3.x");

    let mut v = Version::new(1, 0, 0);
    v.build = BuildMetadata::new("build.11").unwrap();
    assert_eq!(v.to_text(), "1.0.0+build.11");
}

#[test]
fn prerelease_accepts_grammatical_labels() {
    assert_eq!(Prerelease::new("rc.1").unwrap().as_str(), "rc.1");
    assert_eq!(Prerelease::new("alpha-1.0a.x-y").unwrap().as_str(), "alpha-1.0a.x-y");
    assert_eq!(Prerelease::new("0").unwrap().as_str(), "0");
    assert_eq!(Prerelease::new("0a.00a").unwrap().as_str(), "0a.00a");
    let empty = Prerelease::new("").unwrap();
    assert!(empty.is_empty());
    assert_eq!(empty.as_str(), "");
}

#[test]
fn prerelease_rejects_bad_labels() {
    assert!(Prerelease::new("01").is_none());
    assert!(Prerelease::new("rc.01").is_none());
    assert!(Prerelease::new("rc..1").is_none());
    assert!(Prerelease::new(".").is_none());
    assert!(Prerelease::new("rc.1.").is_none());
    assert!(Prerelease::new(".rc").is_none());
    assert!(Prerelease::new("rc_1").is_none());
    assert!(Prerelease::new("r\u{e9}c").is_none());
}

#[test]
fn build_accepts_leading_zeroes() {
    assert_eq!(BuildMetadata::new("001").unwrap().as_str(), "001");
    assert_eq!(BuildMetadata::new("exp.sha.5114f85").unwrap().as_str(), "exp.sha.5114f85");
    assert!(BuildMetadata::new("").unwrap().is_empty());
}

#[test]
fn build_rejects_bad_labels() {
    assert!(BuildMetadata::new("a..b").is_none());
    assert!(BuildMetadata::new("+x").is_none());
    assert!(BuildMetadata::new("x.").is_none());
    assert!(BuildMetadata::new("x y").is_none());
}
