use mcvm::asset::{AssetKind, Modloader};
use mcvm::instance::{
    get_dir, get_lib_list, get_linked_addon_path, get_requirements, get_subdir,
    is_library_allowed, FabricQuiltMode, InstKind, LibraryRule, Side, UpdateRequirement,
};
use mcvm::java::JavaKind;
use mcvm::modifications::{ClientType, GameModifications, ServerType};

#[test]
fn instance_kinds_have_sides_and_directories() {
    assert_eq!(InstKind::Client.to_side(), Side::Client);
    assert_eq!(InstKind::Server.to_side(), Side::Server);
    assert_eq!(
        get_dir(InstKind::Client, "main"),
        vec!["client".to_string(), "main".to_string()]
    );
    assert_eq!(
        get_subdir(InstKind::Client, "main"),
        vec!["client".to_string(), "main".to_string(), ".minecraft".to_string()]
    );
    assert_eq!(
        get_subdir(InstKind::Server, "s"),
        vec!["server".to_string(), "s".to_string(), "server".to_string()]
    );
}

#[test]
fn addons_are_linked_by_kind() {
    assert_eq!(
        get_linked_addon_path(InstKind::Client, AssetKind::ResourcePack),
        Some("resourcepacks")
    );
    assert_eq!(get_linked_addon_path(InstKind::Server, AssetKind::ResourcePack), None);
    assert_eq!(get_linked_addon_path(InstKind::Client, AssetKind::Mod), Some("mods"));
    assert_eq!(get_linked_addon_path(InstKind::Server, AssetKind::Mod), Some("mods"));
    assert_eq!(get_linked_addon_path(InstKind::Client, AssetKind::Plugin), None);
    assert_eq!(get_linked_addon_path(InstKind::Server, AssetKind::Plugin), Some("plugins"));
    assert_eq!(get_linked_addon_path(InstKind::Client, AssetKind::Shader), Some("shaders"));
    assert_eq!(get_linked_addon_path(InstKind::Server, AssetKind::Shader), None);
}

#[test]
fn requirements_depend_on_kind_and_loader() {
    let fabric = GameModifications::new(Modloader::Fabric, ClientType::Inherit, ServerType::Paper);
    assert_eq!(
        get_requirements(InstKind::Client, &fabric, JavaKind::Adoptium),
        vec![
            UpdateRequirement::ClientJson,
            UpdateRequirement::Java(JavaKind::Adoptium),
            UpdateRequirement::GameJar(Side::Client),
            UpdateRequirement::FabricQuilt(FabricQuiltMode::Fabric, Side::Client),
            UpdateRequirement::Options,
            UpdateRequirement::GameAssets,
            UpdateRequirement::GameLibraries,
        ]
    );
    assert_eq!(
        get_requirements(InstKind::Server, &fabric, JavaKind::Custom("/usr/bin/java".into())),
        vec![
            UpdateRequirement::ClientJson,
            UpdateRequirement::Java(JavaKind::Custom("/usr/bin/java".into())),
            UpdateRequirement::GameJar(Side::Server),
            UpdateRequirement::Options,
        ]
    );
    let quilt = GameModifications::new(Modloader::Vanilla, ClientType::Forge, ServerType::Quilt);
    assert_eq!(
        get_requirements(InstKind::Server, &quilt, JavaKind::Zulu)[3],
        UpdateRequirement::FabricQuilt(FabricQuiltMode::Quilt, Side::Server)
    );
    assert_eq!(get_requirements(InstKind::Client, &quilt, JavaKind::Zulu).len(), 6);
}

fn rule(action: &str, os: Option<&str>) -> LibraryRule {
    LibraryRule {
        action: action.into(),
        os_name: os.map(String::from),
    }
}

#[test]
fn library_rules() {
    assert!(is_library_allowed(&vec![], "linux"));
    assert!(is_library_allowed(&vec![rule("allow", None)], "linux"));
    assert!(is_library_allowed(&vec![rule("disallow", None)], "linux"));
    assert!(is_library_allowed(&vec![rule("allow", Some("linux"))], "linux"));
    assert!(!is_library_allowed(&vec![rule("allow", Some("osx"))], "linux"));
    assert!(!is_library_allowed(&vec![rule("disallow", Some("linux"))], "linux"));
    assert!(is_library_allowed(&vec![rule("disallow", Some("osx"))], "linux"));
    assert!(!is_library_allowed(
        &vec![rule("allow", None), rule("disallow", Some("linux"))],
        "linux"
    ));
    let libraries = vec![
        vec![],
        vec![rule("allow", Some("windows"))],
        vec![rule("allow", None), rule("disallow", Some("osx"))],
        vec![rule("disallow", Some("linux"))],
    ];
    assert_eq!(get_lib_list(&libraries, "linux"), vec![0, 2]);
    assert_eq!(get_lib_list(&libraries, "windows"), vec![0, 1, 2, 3]);
    assert_eq!(get_lib_list(&libraries, "osx"), vec![0, 3]);
    assert!(get_lib_list(&Vec::new(), "linux").is_empty());
}
