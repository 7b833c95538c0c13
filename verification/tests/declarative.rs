use mcvm::asset::{AssetKind, Modloader, ModloaderMatch, PkgIdentifier, PluginLoaderMatch};
use mcvm::conditions::OSCondition;
use mcvm::eval::addon::{AddonLocation, PackageAddonOptionalHashes};
use mcvm::eval::declarative::{
    check_multiple_condition_sets, eval_declarative_package, DeclarativeAddon,
    DeclarativeAddonVersion, DeclarativeConditionSet, DeclarativeConditionalRule,
    DeclarativePackage, DeclarativePackageRelations,
};
use mcvm::eval::{
    EvalConstants, EvalData, EvalError, EvalErrorKind, EvalInput, EvalParameters,
    EvalPermissions, PackageProperties, RequiredPackage, Routine,
};
use mcvm::instance::Side;
use mcvm::lang::Language;
use mcvm::modifications::{ClientType, GameModifications, ServerType};
use mcvm::package::{Package, PackageContents, PkgProfileConfig};
use mcvm::pkg::PackageStability;
use mcvm::resolve::{resolve, PkgRegistry};
use mcvm::versions::VersionPattern;

fn constants() -> EvalConstants {
    EvalConstants {
        version: "1.18".into(),
        modifications: GameModifications::new(
            Modloader::Quilt,
            ClientType::Inherit,
            ServerType::Paper,
        ),
        version_list: vec!["1.17".into(), "1.18".into(), "1.19".into()],
        language: Language::German,
        os: OSCondition::MacOS,
    }
}

fn params() -> EvalParameters {
    EvalParameters {
        side: Side::Client,
        features: vec!["a".into(), "b".into()],
        perms: EvalPermissions::Standard,
        stability: PackageStability::Latest,
    }
}

fn id() -> PkgIdentifier {
    PkgIdentifier::new("decl", "2")
}

fn holds(set: DeclarativeConditionSet) -> bool {
    let constants = constants();
    let input = EvalInput {
        constants: &constants,
        params: params(),
    };
    set.check(&input)
}

fn relations(deps: &[&str]) -> DeclarativePackageRelations {
    let mut r = DeclarativePackageRelations::new();
    r.dependencies = deps.iter().map(|d| d.to_string()).collect();
    r
}

fn package() -> DeclarativePackage {
    DeclarativePackage {
        relations: DeclarativePackageRelations::new(),
        addons: Vec::new(),
        conditional_rules: Vec::new(),
    }
}

fn run<'a>(
    contents: &DeclarativePackage,
    constants: &'a EvalConstants,
    routine: Routine,
) -> Result<EvalData<'a>, EvalError> {
    let input = EvalInput {
        constants,
        params: params(),
    };
    eval_declarative_package(id(), contents, input, routine)
}

fn version(conditions: DeclarativeConditionSet, url: &str) -> DeclarativeAddonVersion {
    DeclarativeAddonVersion {
        conditions,
        url: Some(url.into()),
        path: None,
        version: None,
        filename: None,
        hashes: PackageAddonOptionalHashes::new(),
        relations: DeclarativePackageRelations::new(),
        notices: Vec::new(),
    }
}

fn on_side(side: Side) -> DeclarativeConditionSet {
    let mut set = DeclarativeConditionSet::new();
    set.side = Some(side);
    set
}

#[test]
fn condition_set_filters() {
    assert!(holds(DeclarativeConditionSet::new()));
    let mut set = DeclarativeConditionSet::new();
    set.minecraft_versions = Some(vec![VersionPattern::from("1.17"), VersionPattern::from("1.18+")]);
    assert!(holds(set));
    let mut set = DeclarativeConditionSet::new();
    set.minecraft_versions = Some(vec![VersionPattern::from("1.17-")]);
    assert!(!holds(set));
    let mut set = DeclarativeConditionSet::new();
    set.minecraft_versions = Some(vec![]);
    assert!(!holds(set));
    assert!(holds(on_side(Side::Client)));
    assert!(!holds(on_side(Side::Server)));
    let mut set = DeclarativeConditionSet::new();
    set.modloaders = Some(vec![ModloaderMatch::Forge, ModloaderMatch::FabricLike]);
    assert!(holds(set));
    let mut set = DeclarativeConditionSet::new();
    set.modloaders = Some(vec![ModloaderMatch::Fabric]);
    assert!(!holds(set));
    let mut set = DeclarativeConditionSet::new();
    set.plugin_loaders = Some(vec![PluginLoaderMatch::BukkitLike]);
    assert!(holds(set));
    let mut set = DeclarativeConditionSet::new();
    set.plugin_loaders = Some(vec![PluginLoaderMatch::Vanilla]);
    assert!(!holds(set));
    let mut set = DeclarativeConditionSet::new();
    set.stability = Some(PackageStability::Latest);
    assert!(holds(set));
    let mut set = DeclarativeConditionSet::new();
    set.stability = Some(PackageStability::Stable);
    assert!(!holds(set));
    let mut set = DeclarativeConditionSet::new();
    set.features = Some(vec!["b".into(), "a".into()]);
    assert!(holds(set));
    let mut set = DeclarativeConditionSet::new();
    set.features = Some(vec!["a".into(), "c".into()]);
    assert!(!holds(set));
    let mut set = DeclarativeConditionSet::new();
    set.os = Some(OSCondition::MacOS);
    set.language = Some(Language::German);
    assert!(holds(set));
    let mut set = DeclarativeConditionSet::new();
    set.os = Some(OSCondition::MacOS);
    set.language = Some(Language::French);
    assert!(!holds(set));
    let constants = constants();
    let input = EvalInput {
        constants: &constants,
        params: params(),
    };
    assert!(check_multiple_condition_sets(&vec![], &input));
    assert!(check_multiple_condition_sets(
        &vec![on_side(Side::Client), DeclarativeConditionSet::new()],
        &input
    ));
    assert!(!check_multiple_condition_sets(
        &vec![on_side(Side::Client), on_side(Side::Server)],
        &input
    ));
}

#[test]
fn relations_are_read_when_resolving() {
    let mut contents = package();
    contents.relations = relations(&["dep"]);
    contents.relations.explicit_dependencies = vec!["explicit".into()];
    contents.relations.conflicts = vec!["bad".into()];
    contents.relations.bundled = vec!["bundled".into()];
    contents.relations.extensions = vec!["ext".into()];
    contents.relations.recommendations = vec!["rec".into()];
    contents.relations.compats = vec![("x".into(), "y".into())];
    let constants = constants();
    let eval = run(&contents, &constants, Routine::InstallResolve).unwrap();
    assert_eq!(
        eval.deps,
        vec![
            vec![RequiredPackage {
                value: "dep".into(),
                explicit: false
            }],
            vec![RequiredPackage {
                value: "explicit".into(),
                explicit: true
            }]
        ]
    );
    assert_eq!(eval.conflicts, vec!["bad".to_string()]);
    assert_eq!(eval.bundled, vec!["bundled".to_string()]);
    assert_eq!(eval.extensions, vec!["ext".to_string()]);
    assert_eq!(eval.recommendations, vec!["rec".to_string()]);
    assert_eq!(eval.compats, vec![("x".to_string(), "y".to_string())]);
    let eval = run(&contents, &constants, Routine::Install).unwrap();
    assert!(eval.deps.is_empty());
    assert!(eval.conflicts.is_empty());
    assert!(eval.bundled.is_empty());
}

#[test]
fn conditional_rules_apply_when_all_their_conditions_hold() {
    let mut contents = package();
    contents.relations = relations(&["base"]);
    contents.conditional_rules = vec![
        DeclarativeConditionalRule {
            conditions: vec![on_side(Side::Client)],
            relations: relations(&["client-dep"]),
            notices: vec!["on the client".into()],
        },
        DeclarativeConditionalRule {
            conditions: vec![on_side(Side::Client), on_side(Side::Server)],
            relations: relations(&["never"]),
            notices: vec!["never".into()],
        },
        DeclarativeConditionalRule {
            conditions: vec![],
            relations: relations(&["always"]),
            notices: vec![],
        },
    ];
    let constants = constants();
    let eval = run(&contents, &constants, Routine::InstallResolve).unwrap();
    let names: Vec<&str> = eval.deps.iter().map(|g| g[0].value.as_str()).collect();
    assert_eq!(names, vec!["base", "client-dep", "always"]);
    assert_eq!(eval.notices, vec!["on the client".to_string()]);
}

#[test]
fn first_matching_addon_version_is_chosen() {
    let mut contents = package();
    let mut second = version(on_side(Side::Client), "https://example.com/client.jar");
    second.relations = relations(&["from-version"]);
    second.notices = vec!["chosen".into()];
    second.version = Some("abc".into());
    contents.addons = vec![
        DeclarativeAddon {
            id: "main".into(),
            kind: AssetKind::Mod,
            conditions: vec![],
            versions: vec![
                version(on_side(Side::Server), "https://example.com/server.jar"),
                second,
                version(DeclarativeConditionSet::new(), "https://example.com/any.jar"),
            ],
        },
        DeclarativeAddon {
            id: "skipped".into(),
            kind: AssetKind::Mod,
            conditions: vec![on_side(Side::Server)],
            versions: vec![],
        },
    ];
    let constants = constants();
    let eval = run(&contents, &constants, Routine::Install).unwrap();
    assert_eq!(eval.addon_reqs.len(), 1);
    assert_eq!(eval.addon_reqs[0].addon.id, "main");
    assert_eq!(eval.addon_reqs[0].addon.file_name, "mcvm_decl_main.jar");
    assert_eq!(eval.addon_reqs[0].addon.version, Some("abc".to_string()));
    assert_eq!(eval.addon_reqs[0].addon.pkg_id, id());
    assert_eq!(
        eval.addon_reqs[0].location,
        AddonLocation::Remote("https://example.com/client.jar".into())
    );
    assert_eq!(eval.notices, vec!["chosen".to_string()]);
    assert!(eval.deps.is_empty());
    let eval = run(&contents, &constants, Routine::InstallResolve).unwrap();
    assert!(eval.addon_reqs.is_empty());
    assert_eq!(eval.deps.len(), 1);
    assert_eq!(eval.deps[0][0].value, "from-version");
}

#[test]
fn declarative_addon_errors() {
    let constants = constants();
    let error = |kind: EvalErrorKind| EvalError {
        kind,
        package: id(),
        pos: None,
    };
    let addon = |id: &str, versions: Vec<DeclarativeAddonVersion>| DeclarativeAddon {
        id: id.into(),
        kind: AssetKind::ResourcePack,
        conditions: vec![],
        versions,
    };
    let mut contents = package();
    contents.addons = vec![addon("a", vec![version(on_side(Side::Server), "u")])];
    assert_eq!(
        run(&contents, &constants, Routine::Install).unwrap_err(),
        error(EvalErrorKind::NoAddonVersion("a".into()))
    );
    assert_eq!(
        run(&contents, &constants, Routine::InstallResolve).unwrap_err(),
        error(EvalErrorKind::NoAddonVersion("a".into()))
    );
    contents.addons = vec![
        addon("a", vec![version(DeclarativeConditionSet::new(), "u")]),
        addon("a", vec![version(DeclarativeConditionSet::new(), "u")]),
    ];
    assert_eq!(
        run(&contents, &constants, Routine::Install).unwrap_err(),
        error(EvalErrorKind::DuplicateAddon("a".into()))
    );
    assert!(run(&contents, &constants, Routine::InstallResolve).is_ok());
    let mut bad = version(DeclarativeConditionSet::new(), "u");
    bad.hashes.sha512 = Some("zz".into());
    contents.addons = vec![addon("a", vec![bad])];
    assert_eq!(
        run(&contents, &constants, Routine::Install).unwrap_err(),
        error(EvalErrorKind::InvalidHash)
    );
    let mut local = version(DeclarativeConditionSet::new(), "u");
    local.url = None;
    local.path = Some("/tmp/pack.zip".into());
    contents.addons = vec![addon("a", vec![local])];
    assert_eq!(
        run(&contents, &constants, Routine::Install).unwrap_err(),
        error(EvalErrorKind::LocalAddonNotPermitted("a".into()))
    );
    let mut named = version(DeclarativeConditionSet::new(), "u");
    named.filename = Some("pack.jar".into());
    contents.addons = vec![addon("a", vec![named])];
    assert_eq!(
        run(&contents, &constants, Routine::Install).unwrap_err(),
        error(EvalErrorKind::InvalidAddonFilename("pack.jar".into()))
    );
}

#[test]
fn declarative_notices_are_limited() {
    let constants = constants();
    let mut contents = package();
    contents.conditional_rules = vec![DeclarativeConditionalRule {
        conditions: vec![],
        relations: DeclarativePackageRelations::new(),
        notices: (0..10).map(|i| format!("notice {i}")).collect(),
    }];
    assert_eq!(
        run(&contents, &constants, Routine::Install).unwrap().notices.len(),
        10
    );
    contents.conditional_rules[0].notices.push("one more".into());
    assert_eq!(
        run(&contents, &constants, Routine::Install).unwrap_err().kind,
        EvalErrorKind::TooManyNotices
    );
    contents.conditional_rules[0].notices = vec!["x".repeat(129)];
    assert_eq!(
        run(&contents, &constants, Routine::InstallResolve).unwrap_err().kind,
        EvalErrorKind::NoticeTooLong
    );
    contents.conditional_rules[0].notices = vec!["x".repeat(128)];
    assert!(run(&contents, &constants, Routine::Install).is_ok());
}

#[test]
fn declarative_packages_resolve_like_scripts() {
    let mut app = package();
    app.relations = relations(&["lib"]);
    app.relations.recommendations = vec!["extra".into()];
    let declared = |name: &str, contents: DeclarativePackage| Package {
        id: PkgIdentifier::new(name, "1"),
        contents: PackageContents::Declarative(contents),
        properties: PackageProperties::new(),
    };
    let mut reg = PkgRegistry::new();
    reg.insert(declared("app", app));
    reg.insert(declared("lib", package()));
    let result = resolve(
        &vec![PkgProfileConfig::new("app")],
        &constants(),
        params(),
        &reg,
    )
    .unwrap();
    let order: Vec<&str> = result.install_order.iter().map(|p| p.name.as_str()).collect();
    assert_eq!(order, vec!["lib", "app"]);
    assert_eq!(result.unfulfilled_recommendations, vec!["extra".to_string()]);
}
