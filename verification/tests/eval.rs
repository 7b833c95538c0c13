use mcvm::asset::{AssetKind, Modloader, ModloaderMatch, PkgIdentifier, PluginLoaderMatch};
use mcvm::conditions::{Condition, ConditionKind, OSCondition};
use mcvm::eval::addon::{
    create_valid_addon_request, get_addon_instance_filename, get_hash_str_as_hex,
    is_addon_version_valid, is_filename_valid, Addon, AddonLocation, AddonRequest,
    PackageAddonOptionalHashes,
};
use mcvm::eval::conditions::eval_condition;
use mcvm::eval::script::{eval_instr, eval_script_package, get_value_vec, EvalResult};
use mcvm::eval::{
    eval_check_properties, EvalConstants, EvalData, EvalError, EvalErrorKind, EvalInput,
    EvalLevel, EvalParameters, EvalPermissions, PackageProperties, RequiredPackage, Routine,
};
use mcvm::instance::Side;
use mcvm::instruction::{FailReason, InstrKind, Instruction, RequirePackage};
use mcvm::lang::Language;
use mcvm::lex::{is_valid_identifier, TextPos};
use mcvm::modifications::{ClientType, GameModifications, ServerType};
use mcvm::parse::{Block, Parsed};
use mcvm::pkg::PackageStability;
use mcvm::value::{Value, ValueError, Vars};

fn constants() -> EvalConstants {
    EvalConstants {
        version: "1.18".into(),
        modifications: GameModifications::new(
            Modloader::Fabric,
            ClientType::Inherit,
            ServerType::Paper,
        ),
        version_list: vec!["1.16".into(), "1.17".into(), "1.18".into(), "1.19".into()],
        language: Language::French,
        os: OSCondition::Linux,
    }
}

fn params(perms: EvalPermissions) -> EvalParameters {
    EvalParameters {
        side: Side::Client,
        features: vec!["shiny".into()],
        perms,
        stability: PackageStability::Stable,
    }
}

fn id() -> PkgIdentifier {
    PkgIdentifier::new("pkg", "1")
}

fn at(line: usize) -> TextPos {
    TextPos(line, 0)
}

fn constant(text: &str) -> Value {
    Value::Constant(text.into())
}

fn script(instrs: Vec<InstrKind>) -> Parsed {
    let contents = instrs
        .into_iter()
        .enumerate()
        .map(|(i, kind)| Instruction::new(kind, at(i + 1)))
        .collect();
    Parsed {
        blocks: vec![Block { contents }],
        routines: vec![("install".into(), 0)],
    }
}

fn run<'a>(
    parsed: &Parsed,
    routine: Routine,
    constants: &'a EvalConstants,
    perms: EvalPermissions,
) -> Result<EvalData<'a>, EvalError> {
    let input = EvalInput {
        constants,
        params: params(perms),
    };
    eval_script_package(id(), parsed, routine, input)
}

fn error(kind: EvalErrorKind, line: usize) -> EvalError {
    EvalError {
        kind,
        package: id(),
        pos: Some(at(line)),
    }
}

fn holds(condition: ConditionKind) -> Result<bool, EvalErrorKind> {
    let constants = constants();
    let input = EvalInput {
        constants: &constants,
        params: params(EvalPermissions::Standard),
    };
    let mut eval = EvalData::new(input, id(), &Routine::Install);
    eval.vars.insert("x".into(), "1".into());
    eval_condition(&condition, &eval)
}

#[test]
fn routine_names_and_levels() {
    assert_eq!(Routine::Install.get_routine_name(), "install");
    assert_eq!(Routine::InstallResolve.get_routine_name(), "install");
    assert_eq!(Routine::Install.get_level(), EvalLevel::Install);
    assert_eq!(Routine::InstallResolve.get_level(), EvalLevel::Resolve);
    assert_eq!(EvalPermissions::default(), EvalPermissions::Standard);
    assert!(!EvalResult::new().finish);
    assert!(!EvalResult::default().finish);
}

#[test]
fn vars_bind_the_last_assignment() {
    let mut vars = Vars::new();
    assert_eq!(vars.get("a"), None);
    vars.insert("a".into(), "1".into());
    vars.insert("b".into(), "2".into());
    vars.insert("a".into(), "3".into());
    assert_eq!(vars.get("a"), Some(&"3".to_string()));
    assert_eq!(vars.get("b"), Some(&"2".to_string()));
    assert!(vars.contains_key("b"));
    assert!(!vars.contains_key("c"));
    let copy = vars.clone();
    assert_eq!(copy.get("a"), Some(&"3".to_string()));
}

#[test]
fn values_resolve_against_vars() {
    let mut vars = Vars::new();
    vars.insert("v".into(), "text".into());
    assert_eq!(constant("c").get(&vars), Ok("c".to_string()));
    assert_eq!(Value::Var("v".into()).get(&vars), Ok("text".to_string()));
    assert_eq!(
        Value::Var("w".into()).get(&vars),
        Err(ValueError::Undefined("w".into()))
    );
    assert_eq!(Value::Empty.get(&vars), Err(ValueError::Empty));
    assert_eq!(Value::Empty.get_as_option(&vars), Ok(None));
    assert_eq!(constant("c").get_as_option(&vars), Ok(Some("c".to_string())));
    assert_eq!(
        Value::Var("w".into()).get_as_option(&vars),
        Err(ValueError::Undefined("w".into()))
    );
    assert!(!Value::Empty.is_some());
    assert!(constant("").is_some());
    assert_eq!(
        get_value_vec(&vec![constant("a"), Value::Var("v".into())], &vars),
        Ok(vec!["a".to_string(), "text".to_string()])
    );
    assert_eq!(
        get_value_vec(&vec![constant("a"), Value::Var("w".into()), Value::Empty], &vars),
        Err(EvalErrorKind::Value(ValueError::Undefined("w".into())))
    );
}

#[test]
fn leaf_conditions_match_the_context() {
    assert_eq!(holds(ConditionKind::Version(constant("1.17+"))), Ok(true));
    assert_eq!(holds(ConditionKind::Version(constant("1.17-"))), Ok(false));
    assert_eq!(holds(ConditionKind::Version(constant("1.18"))), Ok(true));
    assert_eq!(holds(ConditionKind::Version(constant("1.19"))), Ok(false));
    assert_eq!(holds(ConditionKind::Side(Some(Side::Client))), Ok(true));
    assert_eq!(holds(ConditionKind::Side(Some(Side::Server))), Ok(false));
    assert_eq!(
        holds(ConditionKind::Modloader(Some(ModloaderMatch::FabricLike))),
        Ok(true)
    );
    assert_eq!(
        holds(ConditionKind::Modloader(Some(ModloaderMatch::Forge))),
        Ok(false)
    );
    assert_eq!(
        holds(ConditionKind::PluginLoader(Some(PluginLoaderMatch::BukkitLike))),
        Ok(true)
    );
    assert_eq!(
        holds(ConditionKind::PluginLoader(Some(PluginLoaderMatch::Vanilla))),
        Ok(false)
    );
    assert_eq!(holds(ConditionKind::Feature(constant("shiny"))), Ok(true));
    assert_eq!(holds(ConditionKind::Feature(constant("dull"))), Ok(false));
    assert_eq!(
        holds(ConditionKind::Value(Value::Var("x".into()), constant("1"))),
        Ok(true)
    );
    assert_eq!(
        holds(ConditionKind::Value(Value::Var("x".into()), constant("2"))),
        Ok(false)
    );
    assert_eq!(holds(ConditionKind::Defined(Some("x".into()))), Ok(true));
    assert_eq!(holds(ConditionKind::Defined(Some("y".into()))), Ok(false));
    assert_eq!(holds(ConditionKind::OS(Some(OSCondition::Linux))), Ok(true));
    assert_eq!(holds(ConditionKind::OS(Some(OSCondition::Other))), Ok(false));
    assert_eq!(
        holds(ConditionKind::Stability(Some(PackageStability::Stable))),
        Ok(true)
    );
    assert_eq!(
        holds(ConditionKind::Stability(Some(PackageStability::Latest))),
        Ok(false)
    );
    assert_eq!(holds(ConditionKind::Language(Some(Language::French))), Ok(true));
    assert_eq!(holds(ConditionKind::Language(Some(Language::German))), Ok(false));
}

#[test]
fn combinators_have_boolean_semantics() {
    let yes = || Box::new(ConditionKind::Side(Some(Side::Client)));
    let no = || Box::new(ConditionKind::Side(Some(Side::Server)));
    assert_eq!(holds(ConditionKind::Not(Some(yes()))), Ok(false));
    assert_eq!(holds(ConditionKind::Not(Some(no()))), Ok(true));
    assert_eq!(holds(ConditionKind::And(yes(), Some(yes()))), Ok(true));
    assert_eq!(holds(ConditionKind::And(yes(), Some(no()))), Ok(false));
    assert_eq!(holds(ConditionKind::And(no(), Some(yes()))), Ok(false));
    assert_eq!(holds(ConditionKind::Or(no(), Some(no()))), Ok(false));
    assert_eq!(holds(ConditionKind::Or(no(), Some(yes()))), Ok(true));
    assert_eq!(holds(ConditionKind::Or(yes(), Some(no()))), Ok(true));
}

#[test]
fn combinators_short_circuit() {
    let failing = || Box::new(ConditionKind::Feature(Value::Var("undefined".into())));
    let yes = || Box::new(ConditionKind::Side(Some(Side::Client)));
    let no = || Box::new(ConditionKind::Side(Some(Side::Server)));
    assert_eq!(holds(ConditionKind::And(no(), Some(failing()))), Ok(false));
    assert_eq!(holds(ConditionKind::Or(yes(), Some(failing()))), Ok(true));
    assert_eq!(
        holds(ConditionKind::And(yes(), Some(failing()))),
        Err(EvalErrorKind::Value(ValueError::Undefined("undefined".into())))
    );
    assert_eq!(
        holds(ConditionKind::Or(failing(), Some(yes()))),
        Err(EvalErrorKind::Value(ValueError::Undefined("undefined".into())))
    );
}

#[test]
fn unfinished_conditions_are_not_evaluated() {
    assert_eq!(
        holds(ConditionKind::Side(None)),
        Err(EvalErrorKind::UnfinishedCondition)
    );
    assert_eq!(
        holds(ConditionKind::Not(None)),
        Err(EvalErrorKind::UnfinishedCondition)
    );
    assert_eq!(
        holds(ConditionKind::Or(
            Box::new(ConditionKind::Side(Some(Side::Client))),
            None
        )),
        Err(EvalErrorKind::UnfinishedCondition)
    );
}

#[test]
fn require_gathers_groups_when_resolving() {
    let alt = |name: &str| RequirePackage {
        value: constant(name),
        explicit: false,
    };
    let parsed = script(vec![InstrKind::Require(vec![
        vec![alt("a"), alt("b")],
        vec![RequirePackage {
            value: constant("c"),
            explicit: true,
        }],
    ])]);
    let constants = constants();
    let eval = run(&parsed, Routine::InstallResolve, &constants, EvalPermissions::Standard).unwrap();
    let dep = |name: &str, explicit: bool| RequiredPackage {
        value: name.into(),
        explicit,
    };
    assert_eq!(
        eval.deps,
        vec![vec![dep("a", false), dep("b", false)], vec![dep("c", true)]]
    );
    let eval = run(&parsed, Routine::Install, &constants, EvalPermissions::Standard).unwrap();
    assert!(eval.deps.is_empty());
}

#[test]
fn relations_are_gathered_when_resolving_only() {
    let parsed = script(vec![
        InstrKind::Refuse(constant("r")),
        InstrKind::Recommend(constant("m")),
        InstrKind::Bundle(constant("b")),
        InstrKind::Extend(constant("e")),
        InstrKind::Compat(constant("x"), constant("y")),
    ]);
    let constants = constants();
    let eval = run(&parsed, Routine::InstallResolve, &constants, EvalPermissions::Standard).unwrap();
    assert_eq!(eval.conflicts, vec!["r".to_string()]);
    assert_eq!(eval.recommendations, vec!["m".to_string()]);
    assert_eq!(eval.bundled, vec!["b".to_string()]);
    assert_eq!(eval.extensions, vec!["e".to_string()]);
    assert_eq!(eval.compats, vec![("x".to_string(), "y".to_string())]);
    assert_eq!(eval.level, EvalLevel::Resolve);
    assert_eq!(eval.id, id());
    let eval = run(&parsed, Routine::Install, &constants, EvalPermissions::Standard).unwrap();
    assert!(eval.conflicts.is_empty());
    assert!(eval.recommendations.is_empty());
    assert!(eval.bundled.is_empty());
    assert!(eval.extensions.is_empty());
    assert!(eval.compats.is_empty());
}

#[test]
fn set_binds_and_values_are_substituted_when_resolved() {
    let parsed = script(vec![
        InstrKind::SetVar(Some("name".into()), constant("first")),
        InstrKind::Bundle(Value::Var("name".into())),
        InstrKind::SetVar(Some("name".into()), constant("second")),
        InstrKind::Bundle(Value::Var("name".into())),
        InstrKind::SetVar(Some("copy".into()), Value::Var("name".into())),
        InstrKind::Bundle(Value::Var("copy".into())),
    ]);
    let constants = constants();
    let eval = run(&parsed, Routine::InstallResolve, &constants, EvalPermissions::Standard).unwrap();
    assert_eq!(
        eval.bundled,
        vec!["first".to_string(), "second".to_string(), "second".to_string()]
    );
    assert_eq!(eval.vars.get("copy"), Some(&"second".to_string()));
}

#[test]
fn undefined_variable_fails_with_position() {
    let parsed = script(vec![
        InstrKind::Finish(),
        InstrKind::Bundle(Value::Var("nothing".into())),
    ]);
    let constants = constants();
    assert!(run(&parsed, Routine::InstallResolve, &constants, EvalPermissions::Standard).is_ok());
    let parsed = script(vec![
        InstrKind::Notice(constant("n")),
        InstrKind::Bundle(Value::Var("nothing".into())),
    ]);
    assert_eq!(
        run(&parsed, Routine::InstallResolve, &constants, EvalPermissions::Standard).unwrap_err(),
        error(EvalErrorKind::Value(ValueError::Undefined("nothing".into())), 2)
    );
    let parsed = script(vec![InstrKind::SetVar(None, constant("x"))]);
    assert_eq!(
        run(&parsed, Routine::Install, &constants, EvalPermissions::Standard).unwrap_err(),
        error(EvalErrorKind::Value(ValueError::Empty), 1)
    );
}

#[test]
fn finish_halts_and_fail_fails() {
    let parsed = script(vec![
        InstrKind::Bundle(constant("a")),
        InstrKind::Finish(),
        InstrKind::Bundle(constant("b")),
    ]);
    let constants = constants();
    let eval = run(&parsed, Routine::InstallResolve, &constants, EvalPermissions::Standard).unwrap();
    assert_eq!(eval.bundled, vec!["a".to_string()]);
    let parsed = script(vec![InstrKind::Fail(Some(FailReason::UnsupportedModloader))]);
    assert_eq!(
        run(&parsed, Routine::Install, &constants, EvalPermissions::Standard).unwrap_err(),
        error(EvalErrorKind::Failed(FailReason::UnsupportedModloader), 1)
    );
    let parsed = script(vec![InstrKind::Fail(None)]);
    assert_eq!(
        run(&parsed, Routine::InstallResolve, &constants, EvalPermissions::Standard).unwrap_err(),
        error(EvalErrorKind::Failed(FailReason::Unspecified), 1)
    );
}

fn branching(side: Side, finish_inside: bool) -> Parsed {
    let mut inner = vec![Instruction::new(InstrKind::Bundle(constant("inside")), at(10))];
    if finish_inside {
        inner.push(Instruction::new(InstrKind::Finish(), at(11)));
    }
    Parsed {
        blocks: vec![
            Block {
                contents: vec![
                    Instruction::new(
                        InstrKind::If(Condition::new(ConditionKind::Side(Some(side))), 1),
                        at(1),
                    ),
                    Instruction::new(InstrKind::Bundle(constant("after")), at(2)),
                ],
            },
            Block { contents: inner },
        ],
        routines: vec![("install".into(), 0)],
    }
}

#[test]
fn if_runs_its_block_only_when_the_condition_holds() {
    let constants = constants();
    let eval = run(
        &branching(Side::Client, false),
        Routine::InstallResolve,
        &constants,
        EvalPermissions::Standard,
    )
    .unwrap();
    assert_eq!(eval.bundled, vec!["inside".to_string(), "after".to_string()]);
    let eval = run(
        &branching(Side::Server, false),
        Routine::InstallResolve,
        &constants,
        EvalPermissions::Standard,
    )
    .unwrap();
    assert_eq!(eval.bundled, vec!["after".to_string()]);
    let eval = run(
        &branching(Side::Client, true),
        Routine::InstallResolve,
        &constants,
        EvalPermissions::Standard,
    )
    .unwrap();
    assert_eq!(eval.bundled, vec!["inside".to_string()]);
}

#[test]
fn if_block_must_exist_and_come_later() {
    let constants = constants();
    let condition = || Condition::new(ConditionKind::Side(Some(Side::Client)));
    let parsed = script(vec![InstrKind::If(condition(), 7)]);
    assert!(!parsed.is_well_formed());
    assert_eq!(
        run(&parsed, Routine::Install, &constants, EvalPermissions::Standard).unwrap_err(),
        error(EvalErrorKind::MissingBlock, 1)
    );
    let parsed = script(vec![InstrKind::If(condition(), 0)]);
    assert!(!parsed.is_well_formed());
    assert_eq!(
        run(&parsed, Routine::Install, &constants, EvalPermissions::Standard).unwrap_err(),
        error(EvalErrorKind::MissingBlock, 1)
    );
    assert!(branching(Side::Client, true).is_well_formed());
    let parsed = script(vec![InstrKind::If(Condition::new(ConditionKind::Side(None)), 1)]);
    assert_eq!(
        run(&parsed, Routine::Install, &constants, EvalPermissions::Standard).unwrap_err(),
        error(EvalErrorKind::UnfinishedCondition, 1)
    );
}

#[test]
fn unknown_routine_is_an_error() {
    let constants = constants();
    let mut parsed = script(vec![]);
    parsed.routines = vec![("meta".into(), 0)];
    assert_eq!(
        run(&parsed, Routine::Install, &constants, EvalPermissions::Standard).unwrap_err(),
        EvalError {
            kind: EvalErrorKind::UnknownRoutine("install".into()),
            package: id(),
            pos: None
        }
    );
    parsed.routines = vec![("install".into(), 5)];
    assert!(run(&parsed, Routine::Install, &constants, EvalPermissions::Standard).is_err());
}

#[test]
fn metadata_instruction_is_invalid_in_install() {
    let constants = constants();
    let parsed = script(vec![InstrKind::Name(Some("n".into()))]);
    assert_eq!(
        run(&parsed, Routine::Install, &constants, EvalPermissions::Standard).unwrap_err(),
        error(EvalErrorKind::InvalidInstruction, 1)
    );
}

#[test]
fn eleventh_notice_fails() {
    let constants = constants();
    let notices = |n: usize| script((0..n).map(|_| InstrKind::Notice(constant("hi"))).collect());
    let eval = run(&notices(10), Routine::Install, &constants, EvalPermissions::Standard).unwrap();
    assert_eq!(eval.notices.len(), 10);
    assert_eq!(
        run(&notices(11), Routine::Install, &constants, EvalPermissions::Standard).unwrap_err(),
        error(EvalErrorKind::TooManyNotices, 11)
    );
    assert_eq!(
        run(&notices(11), Routine::InstallResolve, &constants, EvalPermissions::Standard)
            .unwrap_err(),
        error(EvalErrorKind::TooManyNotices, 11)
    );
}

#[test]
fn long_notice_fails() {
    let constants = constants();
    let exact = "x".repeat(128);
    let parsed = script(vec![InstrKind::Notice(constant(&exact))]);
    let eval = run(&parsed, Routine::Install, &constants, EvalPermissions::Standard).unwrap();
    assert_eq!(eval.notices, vec![exact]);
    let parsed = script(vec![InstrKind::Notice(constant(&"x".repeat(129)))]);
    assert_eq!(
        run(&parsed, Routine::Install, &constants, EvalPermissions::Standard).unwrap_err(),
        error(EvalErrorKind::NoticeTooLong, 1)
    );
    // The limit counts characters, not bytes.
    let parsed = script(vec![InstrKind::Notice(constant(&"\u{e9}".repeat(128)))]);
    assert!(run(&parsed, Routine::Install, &constants, EvalPermissions::Standard).is_ok());
}

#[test]
fn cmd_needs_elevated_permissions() {
    let constants = constants();
    let parsed = script(vec![InstrKind::Cmd(vec![constant("echo"), constant("hi")])]);
    assert_eq!(
        run(&parsed, Routine::Install, &constants, EvalPermissions::Standard).unwrap_err(),
        error(EvalErrorKind::CommandNotPermitted, 1)
    );
    assert_eq!(
        run(&parsed, Routine::InstallResolve, &constants, EvalPermissions::Restricted)
            .unwrap_err(),
        error(EvalErrorKind::CommandNotPermitted, 1)
    );
    let eval = run(&parsed, Routine::Install, &constants, EvalPermissions::Elevated).unwrap();
    assert_eq!(eval.commands, vec![vec!["echo".to_string(), "hi".to_string()]]);
    let eval = run(&parsed, Routine::InstallResolve, &constants, EvalPermissions::Elevated).unwrap();
    assert!(eval.commands.is_empty());
}

fn addon(id: &str, url: Value, path: Value) -> InstrKind {
    InstrKind::Addon {
        id: constant(id),
        file_name: Value::Empty,
        kind: Some(AssetKind::Mod),
        url,
        path,
        version: constant("v1"),
    }
}

#[test]
fn addon_is_requested_when_installing() {
    let constants = constants();
    let parsed = script(vec![addon("thing", constant("https://example.com/a.jar"), Value::Empty)]);
    let eval = run(&parsed, Routine::Install, &constants, EvalPermissions::Standard).unwrap();
    assert_eq!(
        eval.addon_reqs,
        vec![AddonRequest::new(
            Addon {
                kind: AssetKind::Mod,
                id: "thing".into(),
                file_name: "mcvm_pkg_thing.jar".into(),
                pkg_id: id(),
                version: Some("v1".into()),
                hashes: PackageAddonOptionalHashes::new(),
            },
            AddonLocation::Remote("https://example.com/a.jar".into())
        )]
    );
    let eval = run(&parsed, Routine::InstallResolve, &constants, EvalPermissions::Standard).unwrap();
    assert!(eval.addon_reqs.is_empty());
}

#[test]
fn script_addon_errors() {
    let constants = constants();
    let url = || constant("https://example.com/a.jar");
    let parsed = script(vec![
        addon("thing", url(), Value::Empty),
        addon("thing", url(), Value::Empty),
    ]);
    assert_eq!(
        run(&parsed, Routine::Install, &constants, EvalPermissions::Standard).unwrap_err(),
        error(EvalErrorKind::DuplicateAddon("thing".into()), 2)
    );
    let parsed = script(vec![addon("not valid", url(), Value::Empty)]);
    assert_eq!(
        run(&parsed, Routine::Install, &constants, EvalPermissions::Standard).unwrap_err(),
        error(EvalErrorKind::InvalidAddonId("not valid".into()), 1)
    );
    let parsed = script(vec![addon("thing", Value::Empty, Value::Empty)]);
    assert_eq!(
        run(&parsed, Routine::Install, &constants, EvalPermissions::Standard).unwrap_err(),
        error(EvalErrorKind::NoAddonLocation("thing".into()), 1)
    );
    let parsed = script(vec![addon("thing", url(), constant("/tmp/a.jar"))]);
    assert_eq!(
        run(&parsed, Routine::Install, &constants, EvalPermissions::Elevated).unwrap_err(),
        error(EvalErrorKind::AmbiguousAddonLocation("thing".into()), 1)
    );
    let parsed = script(vec![addon("thing", Value::Empty, constant("/tmp/a.jar"))]);
    assert_eq!(
        run(&parsed, Routine::Install, &constants, EvalPermissions::Standard).unwrap_err(),
        error(EvalErrorKind::LocalAddonNotPermitted("thing".into()), 1)
    );
    let parsed = script(vec![InstrKind::Addon {
        id: constant("thing"),
        file_name: Value::Empty,
        kind: None,
        url: url(),
        path: Value::Empty,
        version: Value::Empty,
    }]);
    assert_eq!(
        run(&parsed, Routine::Install, &constants, EvalPermissions::Standard).unwrap_err(),
        error(EvalErrorKind::MissingAddonKind, 1)
    );
}

#[test]
fn local_addon_path_is_kept_or_expanded() {
    let constants = constants();
    let parsed = script(vec![addon("thing", Value::Empty, constant("/tmp/a.jar"))]);
    let eval = run(&parsed, Routine::Install, &constants, EvalPermissions::Elevated).unwrap();
    assert_eq!(
        eval.addon_reqs[0].location,
        AddonLocation::Local("/tmp/a.jar".into())
    );
    let parsed = script(vec![addon("thing", Value::Empty, constant("~/mods/a.jar"))]);
    let eval = run(&parsed, Routine::Install, &constants, EvalPermissions::Elevated).unwrap();
    match &eval.addon_reqs[0].location {
        AddonLocation::Local(path) => {
            assert!(path.ends_with("/mods/a.jar"));
            assert_eq!(path, &String::from(shellexpand::tilde("~/mods/a.jar")));
        }
        other => panic!("{other:?}"),
    }
    let parsed = script(vec![addon("thing", Value::Empty, constant("~user/a.jar"))]);
    let eval = run(&parsed, Routine::Install, &constants, EvalPermissions::Elevated).unwrap();
    assert_eq!(
        eval.addon_reqs[0].location,
        AddonLocation::Local("~user/a.jar".into())
    );
}

fn request(
    id: &str,
    url: Option<&str>,
    path: Option<&str>,
    kind: AssetKind,
    file_name: Option<&str>,
    version: Option<&str>,
    hashes: PackageAddonOptionalHashes,
    perms: EvalPermissions,
) -> Result<AddonRequest, EvalErrorKind> {
    let constants = constants();
    let input = EvalInput {
        constants: &constants,
        params: params(perms),
    };
    create_valid_addon_request(
        id.into(),
        url.map(String::from),
        path.map(String::from),
        kind,
        file_name.map(String::from),
        version.map(String::from),
        self::id(),
        hashes,
        &input,
    )
}

#[test]
fn create_valid_addon_request_checks_in_order() {
    let none = PackageAddonOptionalHashes::new;
    let ok = request(
        "a",
        Some("u"),
        None,
        AssetKind::ResourcePack,
        Some("pack.zip"),
        Some(""),
        none(),
        EvalPermissions::Standard,
    )
    .unwrap();
    assert_eq!(ok.addon.file_name, "pack.zip");
    assert_eq!(ok.addon.version, None);
    assert_eq!(ok.location, AddonLocation::Remote("u".into()));
    assert_eq!(
        request("", Some("u"), None, AssetKind::Mod, None, None, none(), EvalPermissions::Standard),
        Err(EvalErrorKind::InvalidAddonId("".into()))
    );
    assert_eq!(
        request(
            "1a",
            Some("u"),
            None,
            AssetKind::Mod,
            None,
            Some("bad version"),
            none(),
            EvalPermissions::Standard
        ),
        Err(EvalErrorKind::InvalidAddonId("1a".into()))
    );
    assert_eq!(
        request(
            "a",
            Some("u"),
            None,
            AssetKind::Mod,
            Some("../x.jar"),
            Some("bad version"),
            none(),
            EvalPermissions::Standard
        ),
        Err(EvalErrorKind::InvalidAddonVersion("bad version".into()))
    );
    assert_eq!(
        request(
            "a",
            Some("u"),
            None,
            AssetKind::Mod,
            Some("x.zip"),
            None,
            none(),
            EvalPermissions::Standard
        ),
        Err(EvalErrorKind::InvalidAddonFilename("x.zip".into()))
    );
    let sha256 = |text: &str| PackageAddonOptionalHashes {
        sha256: Some(text.into()),
        sha512: None,
    };
    let sha512 = |text: &str| PackageAddonOptionalHashes {
        sha256: None,
        sha512: Some(text.into()),
    };
    assert_eq!(
        request("a", None, None, AssetKind::Mod, None, None, sha256("xyz"), EvalPermissions::Standard),
        Err(EvalErrorKind::InvalidHash)
    );
    assert_eq!(
        request(
            "a",
            None,
            None,
            AssetKind::Mod,
            None,
            None,
            sha256(&"ab".repeat(33)),
            EvalPermissions::Standard
        ),
        Err(EvalErrorKind::Sha256TooLong)
    );
    assert_eq!(
        request(
            "a",
            None,
            None,
            AssetKind::Mod,
            None,
            None,
            sha512(&"ab".repeat(65)),
            EvalPermissions::Standard
        ),
        Err(EvalErrorKind::Sha512TooLong)
    );
    assert!(request(
        "a",
        Some("u"),
        None,
        AssetKind::Mod,
        None,
        None,
        PackageAddonOptionalHashes {
            sha256: Some("AB".repeat(32)),
            sha512: Some("0f".repeat(64)),
        },
        EvalPermissions::Standard
    )
    .is_ok());
    assert_eq!(
        request("a", None, None, AssetKind::Mod, None, None, none(), EvalPermissions::Elevated),
        Err(EvalErrorKind::NoAddonLocation("a".into()))
    );
    assert_eq!(
        request("a", None, Some("p"), AssetKind::Mod, None, None, none(), EvalPermissions::Standard),
        Err(EvalErrorKind::LocalAddonNotPermitted("a".into()))
    );
    assert_eq!(
        request("a", Some("u"), Some("p"), AssetKind::Mod, None, None, none(), EvalPermissions::Elevated),
        Err(EvalErrorKind::AmbiguousAddonLocation("a".into()))
    );
    let local =
        request("a", None, Some("~"), AssetKind::Mod, None, None, none(), EvalPermissions::Elevated)
            .unwrap();
    assert_eq!(
        local.location,
        AddonLocation::Local(String::from(shellexpand::tilde("~")))
    );
}

#[test]
fn addon_grammars() {
    assert!(is_valid_identifier("abc_1"));
    assert!(is_valid_identifier("_x"));
    assert!(!is_valid_identifier(""));
    assert!(!is_valid_identifier("1x"));
    assert!(!is_valid_identifier("a-b"));
    assert!(!is_valid_identifier("a b"));
    assert!(is_addon_version_valid("1-2-abcXYZ"));
    assert!(is_addon_version_valid(""));
    assert!(!is_addon_version_valid("1.2"));
    assert!(!is_addon_version_valid("a b"));
    assert!(!is_addon_version_valid("\u{e9}"));
    assert!(is_filename_valid(AssetKind::Mod, "a.jar"));
    assert!(is_filename_valid(AssetKind::Plugin, "a.b.jar"));
    assert!(is_filename_valid(AssetKind::ResourcePack, "a.zip"));
    assert!(is_filename_valid(AssetKind::Shader, ".zip"));
    assert!(!is_filename_valid(AssetKind::Mod, "a.zip"));
    assert!(!is_filename_valid(AssetKind::Shader, "a.jar"));
    assert!(!is_filename_valid(AssetKind::Mod, "a/b.jar"));
    assert!(!is_filename_valid(AssetKind::Mod, "a\\b.jar"));
    assert!(!is_filename_valid(AssetKind::Mod, "a?.jar"));
    assert!(!is_filename_valid(AssetKind::Mod, "a..jar"));
    assert!(!is_filename_valid(AssetKind::Mod, "jar"));
    assert_eq!(
        get_addon_instance_filename("pkg", "id", &AssetKind::Shader),
        "mcvm_pkg_id.zip"
    );
    assert_eq!(get_hash_str_as_hex("00ff1A"), Some(vec![0, 255, 26]));
    assert_eq!(get_hash_str_as_hex(""), Some(vec![]));
    assert_eq!(get_hash_str_as_hex("abc"), None);
    assert_eq!(get_hash_str_as_hex("0g"), None);
}

#[test]
fn eval_instr_reports_whether_to_finish() {
    let constants = constants();
    let input = EvalInput {
        constants: &constants,
        params: params(EvalPermissions::Standard),
    };
    let mut eval = EvalData::new(input, id(), &Routine::InstallResolve);
    let blocks: Vec<Block> = Vec::new();
    let finish = Instruction::new(InstrKind::Finish(), at(1));
    assert_eq!(eval_instr(&finish, &mut eval, &blocks), Ok(EvalResult { finish: true }));
    let bundle = Instruction::new(InstrKind::Bundle(constant("b")), at(2));
    assert_eq!(eval_instr(&bundle, &mut eval, &blocks), Ok(EvalResult { finish: false }));
    assert_eq!(eval.bundled, vec!["b".to_string()]);
}

#[test]
fn properties_are_checked_before_evaluation() {
    let constants = constants();
    let input = EvalInput {
        constants: &constants,
        params: params(EvalPermissions::Standard),
    };
    let mut properties = PackageProperties::new();
    assert_eq!(eval_check_properties(&input, &properties), Ok(false));
    properties.supported_sides = Some(vec![Side::Server]);
    assert_eq!(eval_check_properties(&input, &properties), Ok(true));
    properties.supported_sides = Some(vec![Side::Server, Side::Client]);
    assert_eq!(eval_check_properties(&input, &properties), Ok(false));
    properties.supported_modloaders = Some(vec![ModloaderMatch::Forge]);
    assert_eq!(
        eval_check_properties(&input, &properties),
        Err(EvalErrorKind::UnsupportedModloader)
    );
    properties.supported_modloaders = Some(vec![ModloaderMatch::Forge, ModloaderMatch::FabricLike]);
    assert_eq!(eval_check_properties(&input, &properties), Ok(false));
    properties.supported_plugin_loaders = Some(vec![PluginLoaderMatch::Vanilla]);
    assert_eq!(
        eval_check_properties(&input, &properties),
        Err(EvalErrorKind::UnsupportedPluginLoader)
    );
    properties.supported_plugin_loaders = Some(vec![PluginLoaderMatch::BukkitLike]);
    assert_eq!(eval_check_properties(&input, &properties), Ok(false));
    properties.supported_modloaders = Some(vec![]);
    assert_eq!(
        eval_check_properties(&input, &properties),
        Err(EvalErrorKind::UnsupportedModloader)
    );
}
