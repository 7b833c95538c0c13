use mcvm::asset::{Modloader, PluginLoader};
use mcvm::core_packages::{
    core_package_names, get_core_package, get_core_package_content_type, is_core_package,
    PackageContentType,
};
use mcvm::data_version::{get_data_version, get_old_data_version, VersionJson};
use mcvm::eval::{
    EvalConstants, EvalInput, EvalParameters, EvalPermissions, Routine,
};
use mcvm::instance::Side;
use mcvm::java::{
    extract_dir_name, get_latest, preferred_archive_extension, remove_first, JavaKind,
    LaunchError, LaunchOptions, MemoryArg, MemoryNum, PackageFormat, PREFERRED_ARCHIVE,
};
use mcvm::metadata::eval_metadata;
use mcvm::net::{user_agent, validate_url, InvalidUrl};
use mcvm::options::{
    default_clouds, default_data_version, default_difficulty, default_key_attack,
    default_language, default_main_hand, default_max_fps, default_render_distance,
    default_resource_packs, default_simulation_distance, default_sync_chunk_writes,
    default_tutorial_step, write_fullscreen_resolution, write_key, write_resource_packs,
    AttackIndicatorMode, ChatVisibility, ChunkUpdatesMode, CloudRenderMode, Difficulty,
    FullscreenResolution, GraphicsMode, KeyOptions, LogLevel, MainHand, NarratorMode,
    OptionsEnum, ParticlesMode, SkinOptions, TutorialStep,
};
use mcvm::parser::parse_and_validate;
use mcvm::profile::{
    format_time, game_jar_path, get_path, make_version_list, ContentError, Profile,
    UpdateMethodResult, UpdateSettings,
};
use mcvm::versions::MinecraftVersion;

#[test]
fn test_extract_dir_name() {
    let name = format!("hello.{PREFERRED_ARCHIVE}");
    assert_eq!(extract_dir_name(&name), "hello");
}

#[test]
fn test_core_package_parse() {
    for name in core_package_names() {
        let package = get_core_package(name).unwrap();
        parse_and_validate(package).unwrap();
    }
}

#[test]
fn core_packages_are_known_by_name() {
    assert_eq!(core_package_names().len(), 18);
    assert!(is_core_package("fabriclike-api"));
    assert!(is_core_package("splash-screen-support"));
    assert!(!is_core_package("sodium"));
    assert!(!is_core_package(""));
    assert_eq!(get_core_package("nothing"), None);
    assert_eq!(
        get_core_package_content_type("kotlin-support"),
        Some(PackageContentType::Script)
    );
    assert_eq!(get_core_package_content_type("nothing"), None);
}

#[test]
fn core_packages_have_metadata_and_evaluate() {
    let constants = EvalConstants {
        version: "1.19".into(),
        modifications: mcvm::modifications::GameModifications::new(
            Modloader::Quilt,
            mcvm::modifications::ClientType::Inherit,
            mcvm::modifications::ServerType::Inherit,
        ),
        version_list: vec!["1.19".into()],
        language: mcvm::lang::Language::AmericanEnglish,
        os: mcvm::conditions::OSCondition::Linux,
    };
    for name in core_package_names() {
        let parsed = parse_and_validate(get_core_package(name).unwrap()).unwrap();
        assert!(parsed.is_well_formed());
        let meta = eval_metadata(&parsed).unwrap();
        assert!(meta.name.is_some());
        assert!(meta.description.is_some());
        let input = EvalInput {
            constants: &constants,
            params: EvalParameters {
                side: Side::Client,
                features: Vec::new(),
                perms: EvalPermissions::Standard,
                stability: mcvm::pkg::PackageStability::Stable,
            },
        };
        let id = mcvm::asset::PkgIdentifier::new(name, "1");
        let eval =
            mcvm::eval::script::eval_script_package(id, &parsed, Routine::InstallResolve, input)
                .unwrap();
        assert!(!eval.deps.is_empty() || !eval.bundled.is_empty());
    }
}

#[test]
fn remove_first_removes_one_occurrence() {
    assert_eq!(remove_first("a.tar.gz.tar.gz", ".tar.gz"), "a.tar.gz");
    assert_eq!(remove_first("abc", "x"), "abc");
    assert_eq!(remove_first("abc", ""), "abc");
    assert_eq!(remove_first("abc", "abc"), "");
    assert_eq!(remove_first("abc", "abcd"), "abc");
    assert_eq!(remove_first("aab", "ab"), "a");
    assert_eq!(remove_first("", ""), "");
    assert_eq!(remove_first("xyz", "z"), "xy");
    assert_eq!(preferred_archive_extension(), ".tar.gz");
    assert_eq!(extract_dir_name("jre.tar.gz"), "jre");
    assert_eq!(extract_dir_name("jre.zip"), "jre.zip");
}

#[test]
fn latest_java_package_is_the_first() {
    let package = |name: &str| PackageFormat {
        name: name.into(),
        download_url: format!("https://example.com/{name}"),
    };
    assert_eq!(get_latest(&vec![package("new"), package("old")]), Some(package("new")));
    assert_eq!(get_latest(&Vec::new()), None);
}

#[test]
fn jvm_args_are_generated() {
    let mut options = LaunchOptions {
        java: JavaKind::Adoptium,
        jvm_args: vec!["-Dx=1".into()],
        game_args: vec![],
        init_mem: Some(MemoryNum::Mb(512)),
        max_mem: Some(MemoryNum::Gb(2)),
    };
    assert_eq!(
        options.generate_jvm_args(),
        vec!["-Dx=1".to_string(), "-Xms512m".to_string(), "-Xmx2g".to_string()]
    );
    options.init_mem = None;
    assert_eq!(
        options.generate_jvm_args(),
        vec!["-Dx=1".to_string(), "-Xmx2g".to_string()]
    );
    options.max_mem = None;
    assert_eq!(options.generate_jvm_args(), vec!["-Dx=1".to_string()]);
    assert_eq!(MemoryNum::B(0).to_string(), "0");
    assert_eq!(MemoryNum::Kb(4294967295).to_string(), "4294967295k");
    assert_eq!(MemoryArg::Init.to_string(MemoryNum::B(12)), "-Xms12");
    assert_eq!(LaunchError::Java.to_string(), "Java is not installed");
    assert_eq!(
        LaunchError::Command("exit 1".into()).to_string(),
        "Game process failed:\nexit 1"
    );
    assert_eq!(
        LaunchError::Create("c".into()).to_string(),
        "Failed to create instance:\nc"
    );
    assert_eq!(
        LaunchError::Json("j".into()).to_string(),
        "Failed to evaluate json file:\nj"
    );
}

#[test]
fn old_data_versions() {
    assert_eq!(get_old_data_version("23w33a"), Some(3570));
    assert_eq!(get_old_data_version("1.20.1"), Some(3465));
    assert_eq!(get_old_data_version("1.20 Pre-release 1"), Some(3454));
    assert_eq!(get_old_data_version("1.19.4"), Some(3337));
    assert_eq!(get_old_data_version("1.16.5"), Some(2586));
    assert_eq!(get_old_data_version("Combat Test 8c"), Some(2707));
    assert_eq!(get_old_data_version("1.9"), Some(169));
    assert_eq!(get_old_data_version("15w33b"), Some(111));
    assert_eq!(get_old_data_version("15w33a"), Some(111));
    assert_eq!(get_old_data_version("15w32a"), Some(100));
    assert_eq!(get_old_data_version("15w31c"), None);
    assert_eq!(get_old_data_version("1.8.9"), None);
    assert_eq!(get_old_data_version(""), None);
    assert_eq!(
        get_data_version(Some(VersionJson { data_version: 9 }), "1.19.4"),
        Some(9)
    );
    assert_eq!(get_data_version(None, "1.19.4"), Some(3337));
    assert_eq!(get_data_version(None, "unknown"), None);
}

#[test]
fn profile_collects_instances() {
    let mut profile = Profile::new(
        "main",
        MinecraftVersion::from("1.19.3"),
        Modloader::Fabric,
        PluginLoader::Vanilla,
    );
    assert_eq!(profile.name, "main");
    assert!(profile.instances.is_empty());
    assert!(profile.packages.is_empty());
    profile.add_instance("client");
    profile.add_instance("server");
    assert_eq!(profile.instances, vec!["client".to_string(), "server".to_string()]);
    assert_eq!(profile.modloader, Modloader::Fabric);
    assert_eq!(profile.version, MinecraftVersion::from("1.19.3"));
}

#[test]
fn update_results_hold_each_file_once() {
    let mut result = UpdateMethodResult::from_path("a".into());
    assert_eq!(result.files_updated, vec!["a".to_string()]);
    let mut other = UpdateMethodResult::new();
    other.insert("b".into());
    other.insert("a".into());
    other.insert("b".into());
    assert_eq!(other.files_updated, vec!["b".to_string(), "a".to_string()]);
    result.merge(other);
    assert_eq!(result.files_updated, vec!["a".to_string(), "b".to_string()]);
    let lazy = UpdateSettings {
        force: false,
        allow_offline: false,
    };
    let forced = UpdateSettings {
        force: true,
        allow_offline: false,
    };
    assert!(!result.should_update_file(&lazy, "a"));
    assert!(result.should_update_file(&lazy, "c"));
    assert!(result.should_update_file(&forced, "a"));
}

#[test]
fn small_formats() {
    assert_eq!(game_jar_path(Side::Client, "1.19"), "1.19_client.jar");
    assert_eq!(game_jar_path(Side::Server, "23w33a"), "23w33a_server.jar");
    assert_eq!(get_path(), "options.json");
    assert_eq!(
        make_version_list(&vec!["3".into(), "2".into(), "1".into()]),
        vec!["1".to_string(), "2".to_string(), "3".to_string()]
    );
    assert!(make_version_list(&Vec::new()).is_empty());
    assert_eq!(format_time(0), "0 minutes");
    assert_eq!(format_time(59), "59 minutes");
    assert_eq!(format_time(60), "1 hours");
    assert_eq!(format_time(3599), "59 hours");
    assert_eq!(format_time(3600), "1 days");
    assert_eq!(format_time(u64::MAX), "5124095576030431 days");
    assert_eq!(user_agent(), "mcvm_core_0.1.0");
    assert_eq!(
        ContentError::UserType("alien".into(), "bob".into()).to_string(),
        "Unknown type alien for user bob"
    );
    assert_eq!(
        ContentError::InstType("t".into(), "i".into()).to_string(),
        "Unknown type t for instance i"
    );
    assert_eq!(
        ContentError::PkgType("t".into(), "p".into()).to_string(),
        "Unknown type t for package p"
    );
    assert_eq!(
        ContentError::DefaultUserNotFound("u".into()).to_string(),
        "Unknown default user 'u'"
    );
    assert_eq!(
        ContentError::DuplicateInstance("i".into()).to_string(),
        "Duplicate instance 'i'"
    );
    assert_eq!(
        ContentError::LocalPackageVersion("p".into()).to_string(),
        "Package 'p': Local packages must specify their exact version without special patterns"
    );
}

#[test]
fn urls_are_validated() {
    assert_eq!(validate_url("https://example.com/a.jar"), Ok(()));
    assert_eq!(validate_url("http://localhost:8080"), Ok(()));
    assert_eq!(validate_url("example.com/a.jar"), Err(InvalidUrl));
    assert_eq!(validate_url(""), Err(InvalidUrl));
    assert!(InvalidUrl.to_string().contains("https://"));
}

#[test]
fn option_modes_are_written_as_numbers() {
    assert_eq!(GraphicsMode::Fast.to_int(), 0);
    assert_eq!(GraphicsMode::Fabulous.to_int(), 2);
    assert_eq!(ParticlesMode::Minimal.to_int(), 2);
    assert_eq!(Difficulty::Hard.to_int(), 3);
    assert_eq!(ChunkUpdatesMode::SemiBlocking.to_int(), 1);
    assert_eq!(ChatVisibility::Hidden.to_int(), 2);
    assert_eq!(AttackIndicatorMode::Crosshair.to_int(), 1);
    assert_eq!(NarratorMode::System.to_int(), 3);
    assert_eq!(LogLevel::Silent.to_int(), 0);
    assert_eq!(LogLevel::Notification.to_int(), 4);
    assert_eq!(OptionsEnum::Mode(Difficulty::Easy).to_int(), 1);
    assert_eq!(OptionsEnum::<Difficulty>::Number(7).to_int(), 7);
    assert_eq!(CloudRenderMode::Fancy.to_string(), "true");
    assert_eq!(CloudRenderMode::Off.to_string(), "false");
    assert_eq!(CloudRenderMode::Fast.to_string(), "fast");
    assert_eq!(MainHand::Left.to_string(), "left");
    assert_eq!(TutorialStep::Finished.to_string(), "none");
    assert_eq!(TutorialStep::PunchTree.to_string(), "punch_tree");
}

#[test]
fn option_defaults() {
    assert_eq!(default_data_version(), 3337);
    assert_eq!(default_max_fps(), 120);
    assert_eq!(default_language(), "en_us");
    assert_eq!(default_key_attack(), "key.mouse.left");
    assert_eq!(default_difficulty(), OptionsEnum::Mode(Difficulty::Normal));
    assert_eq!(default_clouds(), CloudRenderMode::Fancy);
    assert_eq!(default_main_hand(), MainHand::Right);
    assert_eq!(default_tutorial_step(), TutorialStep::Finished);
    assert!(default_resource_packs().is_empty());
    assert_eq!(default_render_distance(true), 12);
    assert_eq!(default_render_distance(false), 8);
    assert_eq!(default_simulation_distance(true), 12);
    assert!(default_sync_chunk_writes(false));
    assert!(!default_sync_chunk_writes(true));
    let keys = KeyOptions::default();
    assert_eq!(keys.use_item, "key.mouse.right");
    assert_eq!(keys.hotbar_9, "key.keyboard.9");
    assert_eq!(keys.smooth_camera, "key.keyboard.unknown");
    let skin = SkinOptions::default();
    assert!(skin.cape && skin.hat && skin.left_pants);
}

#[test]
fn option_lines() {
    assert_eq!(write_key("fov", "0"), "fov:0\n");
    assert_eq!(write_key("", ""), ":\n");
    assert_eq!(write_resource_packs(&Vec::new()), "[]");
    assert_eq!(
        write_resource_packs(&vec!["a".into(), "b c".into()]),
        "[\"a\",\"b c\",]"
    );
    assert_eq!(
        write_fullscreen_resolution(&FullscreenResolution {
            width: 1920,
            height: 1080,
            refresh_rate: 60,
            color_bits: 24,
        }),
        "1920x1080@60:24"
    );
}
