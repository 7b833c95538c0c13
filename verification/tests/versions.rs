use mcvm::versions::{
    contains, index_of, MinecraftVersion, VersionNotFoundError, VersionPattern,
};

fn versions() -> Vec<String> {
    vec!["1.16".into(), "1.17".into(), "1.18".into(), "1.19".into()]
}

#[test]
fn minecraft_version_keeps_its_name() {
    let version = MinecraftVersion::from("1.19.3");
    assert_eq!(version.as_string(), "1.19.3");
    assert_eq!(version, MinecraftVersion::Unknown("1.19.3".into()));
    let error = VersionNotFoundError::new(&version);
    assert_eq!(error.version, version);
    assert_eq!(error.to_string(), "Version not found: 1.19.3");
}

#[test]
fn index_of_finds_the_first() {
    let list: Vec<String> = vec!["a".into(), "b".into(), "a".into()];
    assert_eq!(index_of(&list, "a"), Some(0));
    assert_eq!(index_of(&list, "b"), Some(1));
    assert_eq!(index_of(&list, "c"), None);
    assert!(contains(&list, "b"));
    assert!(!contains(&list, "c"));
    assert!(!contains(&Vec::new(), "a"));
}

#[test]
fn pattern_from_text() {
    assert_eq!(VersionPattern::from("1.18"), VersionPattern::Single("1.18".into()));
    assert_eq!(VersionPattern::from("latest"), VersionPattern::Latest);
    assert_eq!(VersionPattern::from("*"), VersionPattern::Any);
    assert_eq!(VersionPattern::from("1.18-"), VersionPattern::Before("1.18".into()));
    assert_eq!(VersionPattern::from("1.18+"), VersionPattern::After("1.18".into()));
    assert_eq!(VersionPattern::from("+"), VersionPattern::After("".into()));
    assert_eq!(VersionPattern::from(""), VersionPattern::Single("".into()));
}

#[test]
fn single_pattern_matches_by_equality() {
    let pattern = VersionPattern::Single("1.18".into());
    assert!(pattern.matches_single("1.18", &versions()));
    assert!(!pattern.matches_single("1.19", &versions()));
    assert_eq!(pattern.matches(&versions()), Some("1.18".to_string()));
    assert_eq!(VersionPattern::Single("2.0".into()).matches(&versions()), None);
}

#[test]
fn before_and_after_include_their_bound() {
    let before = VersionPattern::Before("1.18".into());
    assert!(before.matches_single("1.16", &versions()));
    assert!(before.matches_single("1.18", &versions()));
    assert!(!before.matches_single("1.19", &versions()));
    assert!(!before.matches_single("0.1", &versions()));
    assert_eq!(before.matches(&versions()), Some("1.18".to_string()));
    let after = VersionPattern::After("1.18".into());
    assert!(!after.matches_single("1.17", &versions()));
    assert!(after.matches_single("1.18", &versions()));
    assert!(after.matches_single("1.19", &versions()));
    assert_eq!(after.matches(&versions()), Some("1.19".to_string()));
    let unknown = VersionPattern::After("3.0".into());
    assert!(!unknown.matches_single("1.19", &versions()));
    assert_eq!(unknown.matches(&versions()), None);
}

#[test]
fn latest_and_any() {
    assert!(VersionPattern::Latest.matches_single("1.19", &versions()));
    assert!(!VersionPattern::Latest.matches_single("1.18", &versions()));
    assert!(!VersionPattern::Latest.matches_single("1.19", &Vec::new()));
    assert_eq!(VersionPattern::Latest.matches(&versions()), Some("1.19".to_string()));
    assert!(VersionPattern::Any.matches_single("1.16", &versions()));
    assert!(!VersionPattern::Any.matches_single("1.15", &versions()));
    assert_eq!(VersionPattern::Any.matches(&versions()), Some("1.19".to_string()));
    assert_eq!(VersionPattern::Any.matches(&Vec::new()), None);
}
