use mcvm::asset::{
    game_modifications_compatible, Asset, AssetDownload, AssetKind, Modloader, ModloaderMatch,
    PkgIdentifier, PluginLoader, PluginLoaderMatch,
};
use mcvm::instance::Side;
use mcvm::modifications::{ClientType, GameModifications, ServerType};

#[test]
fn test_game_mods_compat() {
    assert!(game_modifications_compatible(
        &Modloader::Fabric,
        &PluginLoader::Vanilla
    ));
    assert!(game_modifications_compatible(
        &Modloader::Vanilla,
        &PluginLoader::Vanilla
    ));
    assert!(!game_modifications_compatible(
        &Modloader::Forge,
        &PluginLoader::Paper
    ));
}

#[test]
fn vanilla_modloader_is_compatible_with_paper() {
    assert!(game_modifications_compatible(
        &Modloader::Vanilla,
        &PluginLoader::Paper
    ));
}

#[test]
fn asset_kind_names() {
    assert_eq!(AssetKind::from_str("resource_pack"), Some(AssetKind::ResourcePack));
    assert_eq!(AssetKind::from_str("mod"), Some(AssetKind::Mod));
    assert_eq!(AssetKind::from_str("plugin"), Some(AssetKind::Plugin));
    assert_eq!(AssetKind::from_str("shader"), Some(AssetKind::Shader));
    assert_eq!(AssetKind::from_str("Mod"), None);
    assert_eq!(AssetKind::from_str(""), None);
    assert_eq!(AssetKind::ResourcePack.to_string(), "resource_pack");
    assert_eq!(AssetKind::Mod.to_string(), "mod");
    assert_eq!(AssetKind::Plugin.to_string(), "plugin");
    assert_eq!(AssetKind::Shader.to_string(), "shader");
    assert_eq!(AssetKind::ResourcePack.to_plural_string(), "resource_packs");
    assert_eq!(AssetKind::Mod.to_plural_string(), "mods");
    assert_eq!(AssetKind::Plugin.to_plural_string(), "plugins");
    assert_eq!(AssetKind::Shader.to_plural_string(), "shaders");
}

#[test]
fn asset_paths() {
    let asset = Asset::new(AssetKind::Mod, "sodium.jar", PkgIdentifier::new("sodium", "0.4"));
    assert_eq!(asset.kind, AssetKind::Mod);
    assert_eq!(asset.name, "sodium.jar");
    assert_eq!(asset.get_dir(), vec!["mods".to_string()]);
    assert_eq!(
        asset.get_path(),
        vec![
            "mods".to_string(),
            "sodium".to_string(),
            "0.4".to_string(),
            "sodium.jar".to_string()
        ]
    );
}

#[test]
fn asset_download_decides_by_force_and_presence() {
    let asset = Asset::new(AssetKind::Shader, "s.zip", PkgIdentifier::new("s", "1"));
    let forced = AssetDownload::new(asset.clone(), "https://example.com/s.zip", true);
    assert_eq!(forced.url, "https://example.com/s.zip");
    assert!(forced.should_download(true));
    assert!(forced.should_download(false));
    let lazy = AssetDownload::new(asset, "https://example.com/s.zip", false);
    assert!(!lazy.should_download(true));
    assert!(lazy.should_download(false));
}

#[test]
fn modloader_names() {
    assert_eq!(Modloader::from_str("vanilla"), Some(Modloader::Vanilla));
    assert_eq!(Modloader::from_str("forge"), Some(Modloader::Forge));
    assert_eq!(Modloader::from_str("fabric"), Some(Modloader::Fabric));
    assert_eq!(Modloader::from_str("quilt"), Some(Modloader::Quilt));
    assert_eq!(Modloader::from_str("fabriclike"), None);
    assert_eq!(Modloader::Vanilla.to_string(), "None");
    assert_eq!(Modloader::Quilt.to_string(), "Quilt");
    assert_eq!(PluginLoader::from_str("vanilla"), Some(PluginLoader::Vanilla));
    assert_eq!(PluginLoader::from_str("paper"), Some(PluginLoader::Paper));
    assert_eq!(PluginLoader::from_str("bukkit"), None);
    assert_eq!(PluginLoader::Vanilla.to_string(), "None");
    assert_eq!(PluginLoader::Paper.to_string(), "Paper");
}

#[test]
fn modloader_match_is_broader_than_equality() {
    assert_eq!(ModloaderMatch::from_str("fabriclike"), Some(ModloaderMatch::FabricLike));
    assert_eq!(ModloaderMatch::from_str("forge"), Some(ModloaderMatch::Forge));
    assert_eq!(ModloaderMatch::from_str("nothing"), None);
    assert!(ModloaderMatch::FabricLike.matches(&Modloader::Fabric));
    assert!(ModloaderMatch::FabricLike.matches(&Modloader::Quilt));
    assert!(!ModloaderMatch::FabricLike.matches(&Modloader::Forge));
    assert!(!ModloaderMatch::FabricLike.matches(&Modloader::Vanilla));
    assert!(ModloaderMatch::Fabric.matches(&Modloader::Fabric));
    assert!(!ModloaderMatch::Fabric.matches(&Modloader::Quilt));
    assert!(ModloaderMatch::Vanilla.matches(&Modloader::Vanilla));
    assert!(ModloaderMatch::Quilt.matches(&Modloader::Quilt));
    assert!(ModloaderMatch::Forge.matches(&Modloader::Forge));
}

#[test]
fn plugin_loader_match() {
    assert_eq!(PluginLoaderMatch::from_str("vanilla"), Some(PluginLoaderMatch::Vanilla));
    assert_eq!(PluginLoaderMatch::from_str("bukkitlike"), Some(PluginLoaderMatch::BukkitLike));
    assert_eq!(PluginLoaderMatch::from_str("paper"), None);
    assert!(PluginLoaderMatch::BukkitLike.matches(&PluginLoader::Paper));
    assert!(!PluginLoaderMatch::BukkitLike.matches(&PluginLoader::Vanilla));
    assert!(PluginLoaderMatch::Vanilla.matches(&PluginLoader::Vanilla));
    assert!(!PluginLoaderMatch::Vanilla.matches(&PluginLoader::Paper));
}

#[test]
fn game_modifications_per_side() {
    let mods = GameModifications::new(Modloader::Fabric, ClientType::Inherit, ServerType::Paper);
    assert_eq!(mods.get_modloader(Side::Client), Modloader::Fabric);
    assert_eq!(mods.get_modloader(Side::Server), Modloader::Vanilla);
    assert_eq!(mods.get_plugin_loader(), PluginLoader::Paper);
    assert!(!mods.common_modloader());
    let same = GameModifications::new(Modloader::Vanilla, ClientType::Quilt, ServerType::Quilt);
    assert_eq!(same.get_modloader(Side::Client), Modloader::Quilt);
    assert_eq!(same.get_modloader(Side::Server), Modloader::Quilt);
    assert_eq!(same.get_plugin_loader(), PluginLoader::Vanilla);
    assert!(same.common_modloader());
    let inherit =
        GameModifications::new(Modloader::Forge, ClientType::Inherit, ServerType::Inherit);
    assert_eq!(inherit.get_modloader(Side::Server), Modloader::Forge);
    assert!(inherit.common_modloader());
}

#[test]
fn side_names() {
    assert_eq!(Side::parse_from_str("client"), Some(Side::Client));
    assert_eq!(Side::parse_from_str("server"), Some(Side::Server));
    assert_eq!(Side::parse_from_str("both"), None);
    assert_eq!(Side::Client.to_string(), "client");
    assert_eq!(Side::Server.to_string(), "server");
}
