use mcvm::asset::PkgIdentifier;
use mcvm::config::{
    default_config, Config, ConfigDocument, ConfiguredInstance, InstanceDocument, LocalPackage,
    PackageDocument, ProfileDocument, User, UserDocument, UserKind,
};
use mcvm::instance::InstKind;
use mcvm::package::PkgRequest;
use mcvm::profile::ContentError;
use mcvm::versions::VersionPattern;

fn user(id: &str, kind: &str) -> UserDocument {
    UserDocument {
        id: id.into(),
        kind: kind.into(),
        name: format!("name of {id}"),
        uuid: None,
    }
}

fn instance(id: &str, kind: &str) -> InstanceDocument {
    InstanceDocument {
        id: id.into(),
        kind: kind.into(),
    }
}

fn package(id: &str, version: Option<&str>, kind: Option<&str>, path: Option<&str>) -> PackageDocument {
    PackageDocument {
        id: id.into(),
        version: version.map(String::from),
        kind: kind.map(String::from),
        path: path.map(String::from),
        features: vec!["f".into()],
    }
}

fn profile(id: &str, instances: Vec<InstanceDocument>, packages: Vec<PackageDocument>) -> ProfileDocument {
    ProfileDocument {
        id: id.into(),
        version: "1.19.3".into(),
        instances,
        packages,
    }
}

fn document(users: Vec<UserDocument>, default_user: Option<&str>, profiles: Vec<ProfileDocument>) -> ConfigDocument {
    ConfigDocument {
        users,
        default_user: default_user.map(String::from),
        profiles,
    }
}

#[test]
fn test_default_config() {
    let obj = default_config();
    Config::load_from_obj(&obj).unwrap();
}

#[test]
fn default_config_has_an_example_profile() {
    let config = Config::load_from_obj(&default_config()).unwrap();
    assert_eq!(
        config.users,
        vec![User {
            kind: UserKind::Microsoft,
            id: "example".into(),
            name: "ExampleUser441".into(),
            uuid: None,
        }]
    );
    assert_eq!(config.default_user, None);
    assert_eq!(config.profiles.len(), 1);
    assert_eq!(config.profiles[0].id, "example");
    assert_eq!(config.profiles[0].version, "1.19.3");
    assert_eq!(
        config.profiles[0].instances,
        vec!["example-client".to_string(), "example-server".to_string()]
    );
    assert!(config.profiles[0].packages.is_empty());
    assert_eq!(
        config.instances,
        vec![
            ConfiguredInstance {
                id: "example-client".into(),
                kind: InstKind::Client,
                version: "1.19.3".into(),
            },
            ConfiguredInstance {
                id: "example-server".into(),
                kind: InstKind::Server,
                version: "1.19.3".into(),
            },
        ]
    );
    assert!(config.local_packages.is_empty());
}

#[test]
fn users_are_checked() {
    let doc = document(vec![user("a", "microsoft"), user("b", "alien")], None, vec![]);
    assert_eq!(
        Config::load_from_obj(&doc).unwrap_err(),
        ContentError::UserType("alien".into(), "b".into())
    );
    let doc = document(vec![user("a", "demo")], Some("a"), vec![]);
    let config = Config::load_from_obj(&doc).unwrap();
    assert_eq!(config.default_user, Some("a".to_string()));
    assert_eq!(config.users[0].kind, UserKind::Demo);
    let doc = document(vec![user("a", "demo")], Some("b"), vec![]);
    assert_eq!(
        Config::load_from_obj(&doc).unwrap_err(),
        ContentError::DefaultUserNotFound("b".into())
    );
    assert_eq!(UserKind::from_str("microsoft"), Some(UserKind::Microsoft));
    assert_eq!(UserKind::from_str("Microsoft"), None);
}

#[test]
fn instances_are_checked_across_profiles() {
    let doc = document(
        vec![],
        None,
        vec![
            profile("p", vec![instance("a", "client")], vec![]),
            profile("q", vec![instance("b", "server"), instance("a", "server")], vec![]),
        ],
    );
    assert_eq!(
        Config::load_from_obj(&doc).unwrap_err(),
        ContentError::DuplicateInstance("a".into())
    );
    let doc = document(
        vec![],
        None,
        vec![profile("p", vec![instance("a", "both")], vec![])],
    );
    assert_eq!(
        Config::load_from_obj(&doc).unwrap_err(),
        ContentError::InstType("both".into(), "a".into())
    );
    // A duplicate is found before its type is read.
    let doc = document(
        vec![],
        None,
        vec![profile("p", vec![instance("a", "client"), instance("a", "both")], vec![])],
    );
    assert_eq!(
        Config::load_from_obj(&doc).unwrap_err(),
        ContentError::DuplicateInstance("a".into())
    );
    let doc = document(
        vec![],
        None,
        vec![
            profile("p", vec![instance("a", "client")], vec![]),
            profile("q", vec![instance("b", "server")], vec![]),
        ],
    );
    let config = Config::load_from_obj(&doc).unwrap();
    assert_eq!(config.instances.len(), 2);
    assert_eq!(config.profiles[0].instances, vec!["a".to_string()]);
    assert_eq!(config.profiles[1].instances, vec!["b".to_string()]);
}

#[test]
fn packages_are_checked() {
    let load = |p: PackageDocument| {
        Config::load_from_obj(&document(vec![], None, vec![profile("p", vec![], vec![p])]))
    };
    let config = load(package("sodium", None, None, None)).unwrap();
    assert_eq!(
        config.profiles[0].packages[0].req,
        PkgRequest {
            name: "sodium".into(),
            version: VersionPattern::Latest
        }
    );
    assert_eq!(config.profiles[0].packages[0].features, vec!["f".to_string()]);
    assert!(config.local_packages.is_empty());
    let config = load(package("sodium", Some("1.0"), Some("remote"), None)).unwrap();
    assert_eq!(
        config.profiles[0].packages[0].req.version,
        VersionPattern::Single("1.0".into())
    );
    let config = load(package("mine", Some("1.0"), Some("local"), Some("/tmp/mine.pkg.txt"))).unwrap();
    assert_eq!(
        config.local_packages,
        vec![LocalPackage {
            id: PkgIdentifier::new("mine", "1.0"),
            profile: "p".into(),
            path: "/tmp/mine.pkg.txt".into(),
        }]
    );
    assert_eq!(config.profiles[0].packages.len(), 1);
    assert_eq!(
        load(package("mine", None, Some("local"), Some("/tmp/x"))).unwrap_err(),
        ContentError::LocalPackageVersion("mine".into())
    );
    assert_eq!(
        load(package("mine", Some("1"), Some("local"), None)).unwrap_err(),
        ContentError::LocalPackagePath("mine".into())
    );
    assert_eq!(
        load(package("mine", Some("1"), Some("odd"), None)).unwrap_err(),
        ContentError::PkgType("odd".into(), "package".into())
    );
    assert_eq!(
        ContentError::LocalPackagePath("p".into()).to_string(),
        "Package 'p': Local packages must specify their path"
    );
}

#[test]
fn faults_are_reported_in_the_order_of_the_document() {
    let doc = document(
        vec![user("a", "alien")],
        Some("nobody"),
        vec![profile("p", vec![instance("i", "both")], vec![package("x", None, Some("odd"), None)])],
    );
    assert_eq!(
        Config::load_from_obj(&doc).unwrap_err(),
        ContentError::UserType("alien".into(), "a".into())
    );
    let doc = document(
        vec![user("a", "demo")],
        Some("nobody"),
        vec![profile("p", vec![instance("i", "both")], vec![package("x", None, Some("odd"), None)])],
    );
    assert_eq!(
        Config::load_from_obj(&doc).unwrap_err(),
        ContentError::DefaultUserNotFound("nobody".into())
    );
    let doc = document(
        vec![user("a", "demo")],
        Some("a"),
        vec![profile("p", vec![instance("i", "both")], vec![package("x", None, Some("odd"), None)])],
    );
    assert_eq!(
        Config::load_from_obj(&doc).unwrap_err(),
        ContentError::InstType("both".into(), "i".into())
    );
}
