use mcvm::asset::PkgIdentifier;
use mcvm::conditions::OSCondition;
use mcvm::eval::{
    EvalConstants, EvalErrorKind, EvalInput, EvalParameters, EvalPermissions, PackageProperties,
    Routine,
};
use mcvm::instance::Side;
use mcvm::instruction::{FailReason, InstrKind, Instruction, RequirePackage};
use mcvm::lang::Language;
use mcvm::lex::TextPos;
use mcvm::modifications::{ClientType, GameModifications, ServerType};
use mcvm::package::{Package, PackageContents, PkgProfileConfig, PkgRequest};
use mcvm::versions::VersionPattern;
use mcvm::parse::{Block, Parsed};
use mcvm::pkg::PackageStability;
use mcvm::resolve::{resolve, PkgRegistry, ResolutionError, ResolutionResult};
use mcvm::value::Value;

fn constants() -> EvalConstants {
    EvalConstants {
        version: "1.18".into(),
        modifications: GameModifications::new(
            mcvm::asset::Modloader::Fabric,
            ClientType::Inherit,
            ServerType::Inherit,
        ),
        version_list: vec!["1.18".into()],
        language: Language::AmericanEnglish,
        os: OSCondition::Linux,
    }
}

fn params() -> EvalParameters {
    EvalParameters {
        side: Side::Client,
        features: Vec::new(),
        perms: EvalPermissions::Standard,
        stability: PackageStability::Stable,
    }
}

fn package(name: &str, instrs: Vec<InstrKind>) -> Package {
    let contents = instrs
        .into_iter()
        .enumerate()
        .map(|(i, kind)| Instruction::new(kind, TextPos(i + 1, 0)))
        .collect();
    Package {
        id: PkgIdentifier::new(name, "1.0"),
        contents: PackageContents::Script(Parsed {
            blocks: vec![Block { contents }],
            routines: vec![("install".into(), 0)],
        }),
        properties: PackageProperties::new(),
    }
}

fn registry(packages: Vec<Package>) -> PkgRegistry {
    let mut reg = PkgRegistry::new();
    for p in packages {
        reg.insert(p);
    }
    reg
}

fn name(text: &str) -> Value {
    Value::Constant(text.into())
}

fn require(groups: Vec<Vec<&str>>) -> InstrKind {
    InstrKind::Require(
        groups
            .into_iter()
            .map(|group| {
                group
                    .into_iter()
                    .map(|alt| RequirePackage {
                        value: name(alt),
                        explicit: false,
                    })
                    .collect()
            })
            .collect(),
    )
}

fn roots(names: &[&str]) -> Vec<PkgProfileConfig> {
    names.iter().map(|n| PkgProfileConfig::new(n)).collect()
}

fn run(names: &[&str], reg: &PkgRegistry) -> Result<ResolutionResult, ResolutionError> {
    resolve(&roots(names), &constants(), params(), reg)
}

fn order(result: &ResolutionResult) -> Vec<&str> {
    result.install_order.iter().map(|id| id.name.as_str()).collect()
}

#[test]
fn dependencies_come_before_their_dependents() {
    let reg = registry(vec![
        package("app", vec![require(vec![vec!["lib"], vec!["util"]])]),
        package("lib", vec![require(vec![vec!["base"]])]),
        package("util", vec![require(vec![vec!["base"]])]),
        package("base", vec![]),
    ]);
    let result = run(&["app"], &reg).unwrap();
    assert_eq!(order(&result), vec!["base", "lib", "util", "app"]);
    assert_eq!(result.install_order[0], PkgIdentifier::new("base", "1.0"));
    let result = run(&["util", "app", "base"], &reg).unwrap();
    assert_eq!(order(&result), vec!["base", "util", "lib", "app"]);
    assert!(result.unfulfilled_recommendations.is_empty());
}

#[test]
fn empty_roots_resolve_to_nothing() {
    let reg = registry(vec![package("a", vec![])]);
    let result = run(&[], &reg).unwrap();
    assert!(result.install_order.is_empty());
    assert!(result.unfulfilled_recommendations.is_empty());
}

#[test]
fn group_takes_the_first_alternative_that_is_known() {
    let reg = registry(vec![
        package("app", vec![require(vec![vec!["a", "b"], vec!["c"]])]),
        package("b", vec![]),
        package("c", vec![]),
    ]);
    let result = run(&["app"], &reg).unwrap();
    assert_eq!(order(&result), vec!["b", "c", "app"]);
    let reg = registry(vec![
        package("app", vec![require(vec![vec!["a", "b"], vec!["c"]])]),
        package("b", vec![]),
        package("a", vec![]),
        package("c", vec![]),
    ]);
    let result = run(&["app"], &reg).unwrap();
    assert_eq!(order(&result), vec!["a", "c", "app"]);
}

#[test]
fn group_without_a_known_alternative_fails() {
    let reg = registry(vec![
        package("app", vec![require(vec![vec!["a", "b"], vec!["c"]])]),
        package("c", vec![]),
    ]);
    assert_eq!(
        run(&["app"], &reg),
        Err(ResolutionError::UnsatisfiableGroup {
            package: "app".into(),
            alternatives: vec!["a".into(), "b".into()],
        })
    );
    let reg = registry(vec![
        package("app", vec![require(vec![vec!["a", "b"], vec!["c"]])]),
        package("a", vec![]),
    ]);
    assert_eq!(
        run(&["app"], &reg),
        Err(ResolutionError::UnsatisfiableGroup {
            package: "app".into(),
            alternatives: vec!["c".into()],
        })
    );
}

#[test]
fn explicit_dependency_must_be_configured_by_the_user() {
    let explicit = InstrKind::Require(vec![vec![RequirePackage {
        value: name("lib"),
        explicit: true,
    }]]);
    let reg = registry(vec![package("app", vec![explicit]), package("lib", vec![])]);
    assert_eq!(
        run(&["app"], &reg),
        Err(ResolutionError::UnsatisfiableGroup {
            package: "app".into(),
            alternatives: vec!["lib".into()],
        })
    );
    let result = run(&["app", "lib"], &reg).unwrap();
    assert_eq!(order(&result), vec!["lib", "app"]);
}

#[test]
fn bundled_packages_are_required() {
    let reg = registry(vec![
        package("a", vec![InstrKind::Bundle(name("c"))]),
        package("c", vec![]),
    ]);
    let result = run(&["a"], &reg).unwrap();
    assert_eq!(order(&result), vec!["c", "a"]);
    let reg = registry(vec![package("a", vec![InstrKind::Bundle(name("c"))])]);
    assert_eq!(
        run(&["a"], &reg),
        Err(ResolutionError::MissingPackage {
            package: "c".into(),
            bundled_by: Some("a".into()),
        })
    );
    assert_eq!(
        run(&["z"], &reg),
        Err(ResolutionError::MissingPackage {
            package: "z".into(),
            bundled_by: None,
        })
    );
}

#[test]
fn bundled_and_refused_package_is_a_conflict_in_either_order() {
    let reg = registry(vec![
        package("a", vec![InstrKind::Bundle(name("c"))]),
        package("b", vec![InstrKind::Refuse(name("c"))]),
        package("c", vec![]),
    ]);
    assert_eq!(
        run(&["a", "b"], &reg),
        Err(ResolutionError::Conflict {
            package: "c".into(),
            refused_by: "b".into(),
        })
    );
    assert_eq!(
        run(&["b", "a"], &reg),
        Err(ResolutionError::Conflict {
            package: "c".into(),
            refused_by: "b".into(),
        })
    );
    assert_eq!(order(&run(&["a"], &reg).unwrap()), vec!["c", "a"]);
    assert_eq!(order(&run(&["b"], &reg).unwrap()), vec!["b"]);
}

#[test]
fn conflict_through_a_dependency() {
    let reg = registry(vec![
        package("a", vec![require(vec![vec!["b"]])]),
        package("b", vec![InstrKind::Refuse(name("a"))]),
    ]);
    assert_eq!(
        run(&["a"], &reg),
        Err(ResolutionError::Conflict {
            package: "a".into(),
            refused_by: "b".into(),
        })
    );
    let reg = registry(vec![package("a", vec![InstrKind::Refuse(name("a"))])]);
    assert_eq!(
        run(&["a"], &reg),
        Err(ResolutionError::Conflict {
            package: "a".into(),
            refused_by: "a".into(),
        })
    );
}

#[test]
fn cycles_are_errors() {
    let reg = registry(vec![
        package("a", vec![require(vec![vec!["b"]])]),
        package("b", vec![require(vec![vec!["c"]])]),
        package("c", vec![require(vec![vec!["a"]])]),
    ]);
    assert_eq!(
        run(&["a"], &reg),
        Err(ResolutionError::Cycle {
            package: "a".into(),
            required_by: "c".into(),
        })
    );
    let reg = registry(vec![package("a", vec![InstrKind::Bundle(name("a"))])]);
    assert_eq!(
        run(&["a"], &reg),
        Err(ResolutionError::Cycle {
            package: "a".into(),
            required_by: "a".into(),
        })
    );
}

#[test]
fn resolved_packages_are_reused() {
    let reg = registry(vec![
        package("a", vec![require(vec![vec!["shared"]])]),
        package("b", vec![require(vec![vec!["shared"]])]),
        package("shared", vec![]),
    ]);
    let result = run(&["a", "b", "a"], &reg).unwrap();
    assert_eq!(order(&result), vec!["shared", "a", "b"]);
}

#[test]
fn recommendations_are_reported_unless_installed() {
    let reg = registry(vec![
        package(
            "a",
            vec![InstrKind::Recommend(name("nice")), InstrKind::Recommend(name("b"))],
        ),
        package("b", vec![InstrKind::Recommend(name("other"))]),
    ]);
    let result = run(&["a", "b"], &reg).unwrap();
    assert_eq!(order(&result), vec!["a", "b"]);
    assert_eq!(
        result.unfulfilled_recommendations,
        vec!["nice".to_string(), "other".to_string()]
    );
    let result = run(&["a"], &reg).unwrap();
    assert_eq!(
        result.unfulfilled_recommendations,
        vec!["nice".to_string(), "b".to_string()]
    );
}

#[test]
fn compats_and_extensions_are_recorded() {
    let reg = registry(vec![package(
        "a",
        vec![
            InstrKind::Compat(name("x"), name("y")),
            InstrKind::Extend(name("z")),
        ],
    )]);
    let result = run(&["a"], &reg).unwrap();
    assert_eq!(result.compats, vec![("x".to_string(), "y".to_string())]);
    assert_eq!(result.extensions, vec!["z".to_string()]);
    assert_eq!(order(&result), vec!["a"]);
}

#[test]
fn evaluation_errors_bubble_up() {
    let reg = registry(vec![
        package("a", vec![require(vec![vec!["b"]])]),
        package("b", vec![InstrKind::Fail(Some(FailReason::UnsupportedVersion))]),
    ]);
    match run(&["a"], &reg) {
        Err(ResolutionError::Eval(e)) => {
            assert_eq!(e.kind, EvalErrorKind::Failed(FailReason::UnsupportedVersion));
            assert_eq!(e.package, PkgIdentifier::new("b", "1.0"));
            assert_eq!(e.pos, Some(TextPos(1, 0)));
        }
        other => panic!("{other:?}"),
    }
}

#[test]
fn resolving_twice_gives_the_same_result() {
    let reg = registry(vec![
        package(
            "app",
            vec![
                require(vec![vec!["x", "lib"], vec!["util"]]),
                InstrKind::Recommend(name("extra")),
            ],
        ),
        package("lib", vec![InstrKind::Bundle(name("base"))]),
        package("util", vec![require(vec![vec!["base"]])]),
        package("base", vec![]),
    ]);
    let first = run(&["app", "util"], &reg).unwrap();
    let second = run(&["app", "util"], &reg).unwrap();
    assert_eq!(first.install_order, second.install_order);
    assert_eq!(
        first.unfulfilled_recommendations,
        second.unfulfilled_recommendations
    );
    assert_eq!(first, second);
    assert_eq!(order(&first), vec!["base", "lib", "util", "app"]);
}

#[test]
fn user_configuration_overrides_the_defaults() {
    let mut pkg = package(
        "a",
        vec![InstrKind::Cmd(vec![name("echo")]), InstrKind::Bundle(name("b"))],
    );
    pkg.properties.features = Some(vec!["f".into(), "g".into()]);
    pkg.properties.default_features = Some(vec!["g".into()]);
    let reg = registry(vec![pkg, package("b", vec![InstrKind::Cmd(vec![name("echo")])])]);
    // Commands need elevated permissions, which only the configuration of `a` grants.
    let mut config = PkgProfileConfig::new("a");
    config.permissions = EvalPermissions::Elevated;
    match resolve(&vec![config], &constants(), params(), &reg) {
        Err(ResolutionError::Eval(e)) => {
            assert_eq!(e.kind, EvalErrorKind::CommandNotPermitted);
            assert_eq!(e.package.name, "b");
        }
        other => panic!("{other:?}"),
    }
    let mut config = PkgProfileConfig::new("a");
    config.features = vec!["nope".into()];
    match resolve(&vec![config], &constants(), params(), &reg) {
        Err(ResolutionError::Eval(e)) => {
            assert_eq!(e.kind, EvalErrorKind::UnknownFeature("nope".into()));
            assert_eq!(e.package.name, "a");
            assert_eq!(e.pos, None);
        }
        other => panic!("{other:?}"),
    }
}

#[test]
fn features_are_calculated_from_defaults_and_configuration() {
    let mut properties = PackageProperties::new();
    properties.features = Some(vec!["f".into(), "g".into()]);
    properties.default_features = Some(vec!["g".into()]);
    let mut config = PkgProfileConfig::new("a");
    config.features = vec!["f".into()];
    assert_eq!(
        config.calculate_features(&properties),
        Ok(vec!["g".to_string(), "f".to_string()])
    );
    config.use_default_features = false;
    assert_eq!(config.calculate_features(&properties), Ok(vec!["f".to_string()]));
    config.features = vec!["f".into(), "h".into(), "i".into()];
    assert_eq!(
        config.calculate_features(&properties),
        Err(EvalErrorKind::UnknownFeature("h".into()))
    );
    let mut params = params();
    config.features = vec!["g".into()];
    config.stability = PackageStability::Latest;
    config.permissions = EvalPermissions::Restricted;
    config
        .override_configured_package_input(&properties, &mut params)
        .unwrap();
    assert_eq!(params.features, vec!["g".to_string()]);
    assert_eq!(params.perms, EvalPermissions::Restricted);
    assert_eq!(params.stability, PackageStability::Latest);
    assert_eq!(params.side, Side::Client);
}

#[test]
fn package_that_does_not_support_the_side_gathers_nothing() {
    let mut pkg = package("a", vec![InstrKind::Bundle(name("missing"))]);
    pkg.properties.supported_sides = Some(vec![Side::Server]);
    let constants = constants();
    let input = EvalInput {
        constants: &constants,
        params: params(),
    };
    let eval = pkg.eval(Routine::InstallResolve, input.clone()).unwrap();
    assert!(eval.bundled.is_empty());
    let relations = pkg.eval_package_relations(input).unwrap();
    assert!(relations.bundled.is_empty());
    let reg = registry(vec![pkg]);
    assert_eq!(order(&run(&["a"], &reg).unwrap()), vec!["a"]);
}

#[test]
fn registry_finds_the_first_package_of_a_name() {
    let mut reg = PkgRegistry::new();
    assert_eq!(reg.find("a"), None);
    reg.insert(package("a", vec![]));
    reg.insert(package("b", vec![]));
    reg.insert(package("a", vec![InstrKind::Fail(None)]));
    assert_eq!(reg.find("a"), Some(0));
    assert_eq!(reg.find("b"), Some(1));
    assert!(reg.contains("b"));
    assert!(!reg.contains("c"));
    assert_eq!(order(&run(&["a"], &reg).unwrap()), vec!["a"]);
}

fn versioned(name: &str, version: &str, instrs: Vec<InstrKind>) -> Package {
    let mut p = package(name, instrs);
    p.id = PkgIdentifier::new(name, version);
    p
}

#[test]
fn requests_are_read_from_text() {
    assert_eq!(
        PkgRequest::parse("sodium"),
        PkgRequest {
            name: "sodium".into(),
            version: VersionPattern::Any
        }
    );
    assert_eq!(PkgRequest::parse("sodium"), PkgRequest::new("sodium"));
    assert_eq!(
        PkgRequest::parse("sodium@0.5+"),
        PkgRequest {
            name: "sodium".into(),
            version: VersionPattern::After("0.5".into())
        }
    );
    assert_eq!(
        PkgRequest::parse("a@b@c"),
        PkgRequest {
            name: "a".into(),
            version: VersionPattern::Single("b@c".into())
        }
    );
    assert_eq!(
        PkgRequest::parse("@latest"),
        PkgRequest {
            name: "".into(),
            version: VersionPattern::Latest
        }
    );
    assert_eq!(
        PkgRequest::parse("a@"),
        PkgRequest {
            name: "a".into(),
            version: VersionPattern::Single("".into())
        }
    );
    let versions: Vec<String> = vec!["1".into(), "2".into(), "3".into()];
    let request = PkgRequest::parse("lib@2+");
    assert!(request.matches(&PkgIdentifier::new("lib", "2"), &versions));
    assert!(request.matches(&PkgIdentifier::new("lib", "3"), &versions));
    assert!(!request.matches(&PkgIdentifier::new("lib", "1"), &versions));
    assert!(!request.matches(&PkgIdentifier::new("other", "3"), &versions));
}

#[test]
fn configured_version_is_selected() {
    let reg = registry(vec![
        versioned("lib", "1", vec![InstrKind::Bundle(name("old-base"))]),
        versioned("lib", "2", vec![InstrKind::Bundle(name("base"))]),
        versioned("lib", "3", vec![InstrKind::Fail(None)]),
        versioned("app", "1", vec![require(vec![vec!["lib"]])]),
        versioned("base", "1", vec![]),
        versioned("old-base", "1", vec![]),
    ]);
    let with = |request: &str| {
        let mut lib = PkgProfileConfig::new("lib");
        lib.req = PkgRequest::parse(request);
        resolve(
            &vec![PkgProfileConfig::new("app"), lib],
            &constants(),
            params(),
            &reg,
        )
    };
    // The version that the user asks for is taken wherever the package is needed.
    let result = with("lib@2").unwrap();
    assert_eq!(
        result.install_order,
        vec![
            PkgIdentifier::new("base", "1"),
            PkgIdentifier::new("lib", "2"),
            PkgIdentifier::new("app", "1"),
        ]
    );
    let result = with("lib@2-").unwrap();
    assert_eq!(result.install_order[1], PkgIdentifier::new("lib", "1"));
    assert_eq!(result.install_order[0], PkgIdentifier::new("old-base", "1"));
    assert!(matches!(with("lib@latest"), Err(ResolutionError::Eval(_))));
    assert_eq!(
        with("lib@4"),
        Err(ResolutionError::UnsatisfiableGroup {
            package: "app".into(),
            alternatives: vec!["lib".into()],
        })
    );
    // Without a configuration the first package of the name is taken.
    let result = run(&["app"], &reg).unwrap();
    assert_eq!(result.install_order[1], PkgIdentifier::new("lib", "1"));
}
