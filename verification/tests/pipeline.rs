use mcvm::asset::{AssetKind, Modloader, PkgIdentifier};
use mcvm::conditions::OSCondition;
use mcvm::core_packages::{core_package_names, get_core_package};
use mcvm::eval::addon::AddonLocation;
use mcvm::eval::{
    EvalConstants, EvalInput, EvalParameters, EvalPermissions, PackageProperties,
    RequiredPackage, Routine,
};
use mcvm::instance::Side;
use mcvm::lang::Language;
use mcvm::modifications::{ClientType, GameModifications, ServerType};
use mcvm::package::{Package, PackageContents, PkgProfileConfig};
use mcvm::parser::parse_and_validate;
use mcvm::pkg::PackageStability;
use mcvm::resolve::{resolve, PkgRegistry, ResolutionError};

fn constants(modloader: Modloader) -> EvalConstants {
    EvalConstants {
        version: "1.19.3".into(),
        modifications: GameModifications::new(modloader, ClientType::Inherit, ServerType::Inherit),
        version_list: vec!["1.18".into(), "1.19".into(), "1.19.3".into()],
        language: Language::AmericanEnglish,
        os: OSCondition::Linux,
    }
}

fn params() -> EvalParameters {
    EvalParameters {
        side: Side::Client,
        features: vec!["extras".into()],
        perms: EvalPermissions::Standard,
        stability: PackageStability::Stable,
    }
}

fn script(name: &str, text: &str) -> Package {
    Package {
        id: PkgIdentifier::new(name, "1"),
        contents: PackageContents::Script(parse_and_validate(text).unwrap()),
        properties: PackageProperties::new(),
    }
}

const SODIUM: &str = r#"
@meta {
    name "Sodium";
    description "A renderer";
    authors "Someone" "Someone else";
}

@install {
    # Only clients render anything
    if side server {
        finish;
    }
    if not modloader fabriclike {
        fail unsupported_modloader;
    }
    set api "fabric-api";
    require [$api | "quilted-fabric-api", <"common">];
    if (feature "extras" and version "1.19+") {
        recommend "lithium";
        bundle indium;
    }
    refuse "optifine";
    compat "sodium" "iris";
    notice "Rendering may differ";
    addon sodium_mod (kind: mod, url: "https://example.com/sodium.jar", version: "mc1-19");
}
"#;

fn sodium_config() -> PkgProfileConfig {
    let mut config = PkgProfileConfig::new("sodium");
    config.features = vec!["extras".into()];
    config
}

fn registry() -> PkgRegistry {
    let mut reg = PkgRegistry::new();
    let mut sodium = script("sodium", SODIUM);
    sodium.properties.features = Some(vec!["extras".into()]);
    reg.insert(sodium);
    reg.insert(script("fabric-api", "@install { }"));
    reg.insert(script("indium", "@install { require [sodium]; }"));
    reg.insert(script("common", "@install { }"));
    reg.insert(script("optifine", "@install { refuse sodium; }"));
    reg
}

#[test]
fn script_evaluates_from_text() {
    let sodium = script("sodium", SODIUM);
    let constants = constants(Modloader::Fabric);
    let input = EvalInput {
        constants: &constants,
        params: params(),
    };
    let eval = sodium.eval(Routine::InstallResolve, input.clone()).unwrap();
    assert_eq!(
        eval.deps,
        vec![
            vec![
                RequiredPackage {
                    value: "fabric-api".into(),
                    explicit: false
                },
                RequiredPackage {
                    value: "quilted-fabric-api".into(),
                    explicit: false
                }
            ],
            vec![RequiredPackage {
                value: "common".into(),
                explicit: true
            }]
        ]
    );
    assert_eq!(eval.recommendations, vec!["lithium".to_string()]);
    assert_eq!(eval.bundled, vec!["indium".to_string()]);
    assert_eq!(eval.conflicts, vec!["optifine".to_string()]);
    assert_eq!(eval.compats, vec![("sodium".to_string(), "iris".to_string())]);
    assert_eq!(eval.notices, vec!["Rendering may differ".to_string()]);
    assert!(eval.addon_reqs.is_empty());
    let eval = sodium.eval(Routine::Install, input).unwrap();
    assert!(eval.deps.is_empty());
    assert_eq!(eval.addon_reqs.len(), 1);
    assert_eq!(eval.addon_reqs[0].addon.id, "sodium_mod");
    assert_eq!(eval.addon_reqs[0].addon.kind, AssetKind::Mod);
    assert_eq!(eval.addon_reqs[0].addon.file_name, "mcvm_sodium_sodium_mod.jar");
    assert_eq!(eval.addon_reqs[0].addon.version, Some("mc1-19".to_string()));
    assert_eq!(
        eval.addon_reqs[0].location,
        AddonLocation::Remote("https://example.com/sodium.jar".into())
    );
    let forge = self::constants(Modloader::Forge);
    let input = EvalInput {
        constants: &forge,
        params: params(),
    };
    assert!(sodium.eval(Routine::InstallResolve, input).is_err());
}

#[test]
fn scripts_resolve_from_text() {
    let reg = registry();
    let constants = constants(Modloader::Fabric);
    // The explicit dependency has to be configured by the user.
    assert_eq!(
        resolve(&vec![sodium_config()], &constants, params(), &reg),
        Err(ResolutionError::UnsatisfiableGroup {
            package: "sodium".into(),
            alternatives: vec!["common".into()],
        })
    );
    let roots = vec![sodium_config(), PkgProfileConfig::new("common")];
    // Indium needs sodium, which bundles it: a cycle.
    assert_eq!(
        resolve(&roots, &constants, params(), &reg),
        Err(ResolutionError::Cycle {
            package: "sodium".into(),
            required_by: "indium".into(),
        })
    );
    let mut reg = registry();
    reg.packages[2] = script("indium", "@install { }");
    let result = resolve(&roots, &constants, params(), &reg).unwrap();
    let order: Vec<&str> = result.install_order.iter().map(|p| p.name.as_str()).collect();
    assert_eq!(order, vec!["fabric-api", "common", "indium", "sodium"]);
    assert_eq!(result.unfulfilled_recommendations, vec!["lithium".to_string()]);
    assert_eq!(result.compats, vec![("sodium".to_string(), "iris".to_string())]);
    let with_optifine = vec![
        sodium_config(),
        PkgProfileConfig::new("common"),
        PkgProfileConfig::new("optifine"),
    ];
    assert_eq!(
        resolve(&with_optifine, &constants, params(), &reg),
        Err(ResolutionError::Conflict {
            package: "optifine".into(),
            refused_by: "sodium".into(),
        })
    );
    let optifine_first = vec![
        PkgProfileConfig::new("optifine"),
        PkgProfileConfig::new("common"),
        sodium_config(),
    ];
    assert_eq!(
        resolve(&optifine_first, &constants, params(), &reg),
        Err(ResolutionError::Conflict {
            package: "sodium".into(),
            refused_by: "optifine".into(),
        })
    );
}

#[test]
fn core_packages_resolve_against_their_providers() {
    let mut reg = PkgRegistry::new();
    for name in core_package_names() {
        reg.insert(script(name, get_core_package(name).unwrap()));
    }
    reg.insert(script("iris", "@install { }"));
    reg.insert(script("fabric-api", "@install { }"));
    let constants = constants(Modloader::Fabric);
    let roots = vec![
        PkgProfileConfig::new("shader-support"),
        PkgProfileConfig::new("fabriclike-api"),
        PkgProfileConfig::new("fabric-api"),
    ];
    let result = resolve(&roots, &constants, params(), &reg).unwrap();
    let order: Vec<&str> = result.install_order.iter().map(|p| p.name.as_str()).collect();
    assert_eq!(order, vec!["iris", "shader-support", "fabric-api", "fabriclike-api"]);
    let forge = self::constants(Modloader::Forge);
    assert!(matches!(
        resolve(&roots, &forge, params(), &reg),
        Err(ResolutionError::UnsatisfiableGroup { .. })
    ));
}
