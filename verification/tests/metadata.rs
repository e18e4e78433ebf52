use breachops_nav_utils::{AppMetadata, Prerelease, Version};

#[test]
fn format() {
    let app = AppMetadata::new("Test App", "Jane Doe")
        .set_description("Lorem ipsum dolor sit amet, consectetur.")
        .set_version(Version::new(0, 1, 0));
    assert_eq!(
        app.format(),
        "App Metadata: {\n    Name: Test App,\n    Author: Jane Doe,\n    Version: 0.1.0,\n    Description: \"Lorem ipsum dolor sit amet, consectetur.\"\n}"
    );
}

#[test]
fn format_with_labels() {
    let mut version = Version::new(3, 0, 7);
    version.pre = Prerelease::new("beta.2").unwrap();
    let app = AppMetadata::new("Demo", "Someone").set_version(version).set_description("d");
    assert_eq!(
        app.format(),
        "App Metadata: {\n    Name: Demo,\n    Author: Someone,\n    Version: 3.0.7-beta.2,\n    Description: \"d\"\n}"
    );
}

#[test]
fn new_uses_defaults() {
    let app = AppMetadata::new("X", "Y");
    assert_eq!(app.name(), "X");
    assert_eq!(app.author(), "Y");
    assert_eq!(app.version().to_text(), "0.1.0");
    assert!(app.try_description().is_none());
}

#[test]
fn default_is_placeholder() {
    let app = AppMetadata::default();
    assert_eq!(app.name(), "Un-Named App");
    assert_eq!(app.author(), "Jane Doe");
    assert_eq!(app.version().to_text(), "0.1.0");
    assert!(app.try_description().is_none());
}

#[test]
fn from_parts_sets_every_field() {
    let app = AppMetadata::from_parts(
        "skyeBreach",
        "skyeBreach",
        Version::new(0, 1, 0),
        "Lorem ipsum dolor sit amet, consectetur.",
    );
    assert_eq!(app.name(), "skyeBreach");
    assert_eq!(app.author(), "skyeBreach");
    assert_eq!(app.version().to_text(), "0.1.0");
    assert_eq!(app.description(), "Lorem ipsum dolor sit amet, consectetur.");
}

#[test]
fn set_description_keeps_other_fields() {
    let app = AppMetadata::new("X", "Y").set_description("some text");
    assert_eq!(app.description(), "some text");
    assert_eq!(app.try_description(), Some("some text"));
    assert_eq!(app.name(), "X");
    assert_eq!(app.author(), "Y");
    assert_eq!(app.version().to_text(), "0.1.0");
}

#[test]
fn fluent_updates_compose() {
    let one = AppMetadata::new("X", "Y").set_version_major(2).set_version_minor(5);
    assert_eq!(one.version().to_text(), "2.5.0");

    let other = AppMetadata::new("X", "Y").set_version_minor(5).set_version_major(2);
    assert_eq!(other.version().to_text(), "2.5.0");
}

#[test]
fn version_setters_touch_one_field_each() {
    let app = AppMetadata::new("X", "Y")
        .set_version_major(4)
        .set_version_minor(9)
        .set_version_patch(1)
        .set_version_pre(Prerelease::new("rc.1").unwrap());
    assert_eq!(app.version().to_text(), "4.9.1-rc.1");
    assert_eq!(app.name(), "X");
    assert_eq!(app.author(), "Y");
    assert!(app.try_description().is_none());
}
