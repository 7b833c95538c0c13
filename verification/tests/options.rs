use mcvm::options::{Difficulty, FullscreenResolution, OptionsEnum};
use mcvm::options_write::{
    default_brightness, default_chat_unfocused_height, default_chat_line_spacing,
    default_sound_volume, version_flags, write_keys, ClientOptions,
};

fn get<'a>(keys: &'a [(String, String)], key: &str) -> Option<&'a String> {
    keys.iter().find(|(k, _)| k == key).map(|(_, v)| v)
}

fn versions() -> Vec<String> {
    [
        "12w50a", "14w28a", "15w31a", "17w06a", "17w47a", "18w15a", "18w21a", "1.13-pre2",
        "1.15.2-pre1", "1.16.4-rc1", "21w13a", "21w37a", "21w38a", "21w42a", "1.18-pre2",
        "1.18.2-pre1", "22w11a", "22w15a", "1.19.3", "1.19.4",
    ]
    .iter()
    .map(|v| v.to_string())
    .collect()
}

#[test]
fn test_write_keys() {
    let options = ClientOptions::defaults(true, false);
    let versions = [String::from("1.18"), String::from("1.19.3")];
    let keys = write_keys(&options, "1.19.3", &versions.to_vec());
    assert_eq!(
        *get(&keys, "version").unwrap(),
        options.data_version.to_string()
    );
}

#[test]
fn default_options_are_written() {
    let options = ClientOptions::defaults(true, false);
    let keys = write_keys(&options, "1.19.3", &versions());
    assert_eq!(keys[0], ("version".to_string(), "3337".to_string()));
    assert_eq!(get(&keys, "autoJump").unwrap(), "true");
    assert_eq!(get(&keys, "mouseSensitivity").unwrap(), "0.5");
    assert_eq!(get(&keys, "fov").unwrap(), "0");
    assert_eq!(get(&keys, "renderDistance").unwrap(), "12");
    assert_eq!(get(&keys, "difficulty").unwrap(), "2");
    assert_eq!(get(&keys, "renderClouds").unwrap(), "true");
    assert_eq!(get(&keys, "resourcePacks").unwrap(), "[]");
    assert_eq!(get(&keys, "incompatibleResourcePacks").unwrap(), "[]");
    assert_eq!(get(&keys, "lang").unwrap(), "en_us");
    assert_eq!(get(&keys, "chatHeightUnfocused").unwrap(), "0.4375");
    assert_eq!(get(&keys, "mainHand").unwrap(), "right");
    assert_eq!(get(&keys, "tutorialStep").unwrap(), "none");
    assert_eq!(get(&keys, "key_key.attack").unwrap(), "key.mouse.left");
    assert_eq!(get(&keys, "key_key.hotbar.9").unwrap(), "key.keyboard.9");
    assert_eq!(get(&keys, "soundCategory_master").unwrap(), "1");
    assert_eq!(get(&keys, "modelPart_hat").unwrap(), "true");
    assert_eq!(get(&keys, "syncChunkWrites").unwrap(), "true");
    assert_eq!(get(&keys, "soundDevice"), None);
    assert_eq!(get(&keys, "fullscreenResolution"), None);
    // No key is written twice.
    let mut names: Vec<&String> = keys.iter().map(|(k, _)| k).collect();
    names.sort();
    names.dedup();
    assert_eq!(names.len(), keys.len());
}

#[test]
fn keys_depend_on_the_version() {
    let mut options = ClientOptions::defaults(false, true);
    options.sound.device = Some("speakers".into());
    options.video.fullscreen_resolution = Some(FullscreenResolution {
        width: 800,
        height: 600,
        refresh_rate: 30,
        color_bits: 8,
    });
    options.difficulty = OptionsEnum::Number(9);
    options.resource_packs = vec!["pack".into()];
    let new = write_keys(&options, "1.19.4", &versions());
    assert_eq!(get(&new, "darknessEffectScale").unwrap(), "1");
    assert_eq!(get(&new, "directionalAudio").unwrap(), "false");
    assert_eq!(get(&new, "soundDevice").unwrap(), "speakers");
    assert_eq!(get(&new, "simulationDistance").unwrap(), "8");
    assert_eq!(get(&new, "renderDistance").unwrap(), "8");
    assert_eq!(get(&new, "syncChunkWrites").unwrap(), "false");
    assert_eq!(get(&new, "difficulty").unwrap(), "9");
    assert_eq!(get(&new, "resourcePacks").unwrap(), "[\"pack\",]");
    assert_eq!(get(&new, "fullscreenResolution").unwrap(), "800x600@30:8");
    assert_eq!(get(&new, "key_key.advancements").unwrap(), "key.keyboard.l");
    assert_eq!(get(&new, "allowBlockAlternatives"), None);
    // The tooltips option was removed after 1.19.4.
    assert_eq!(get(&new, "heldItemTooltips").unwrap(), "true");
    let old = write_keys(&options, "14w28a", &versions());
    assert_eq!(get(&old, "allowBlockAlternatives").unwrap(), "true");
    assert_eq!(get(&old, "darknessEffectScale"), None);
    assert_eq!(get(&old, "directionalAudio"), None);
    assert_eq!(get(&old, "soundDevice"), None);
    assert_eq!(get(&old, "simulationDistance"), None);
    assert_eq!(get(&old, "narrator"), None);
    assert_eq!(get(&old, "key_key.advancements"), None);
    assert_eq!(get(&old, "autoSuggestions"), None);
    assert_eq!(get(&old, "heldItemTooltips").unwrap(), "true");
    assert_eq!(get(&old, "fullscreenResolution").unwrap(), "800x600@30:8");
    // A version that the list does not hold comes neither before nor after any other.
    let unknown = write_keys(&options, "1.0", &versions());
    assert_eq!(get(&unknown, "heldItemTooltips"), None);
    assert_eq!(get(&unknown, "allowBlockAlternatives"), None);
    assert_eq!(get(&unknown, "narrator"), None);
    assert_eq!(get(&unknown, "autoJump").unwrap(), "true");
    assert!(unknown.len() < old.len());
    assert!(old.len() < new.len());
}

#[test]
fn version_flags_compare_positions() {
    let flags = version_flags("17w47a", &versions());
    assert!(flags.after_12w50a);
    assert!(flags.after_17w06a);
    assert!(flags.after_17w47a);
    assert!(!flags.after_18w15a);
    assert!(!flags.before_15w31a);
    assert!(flags.before_1_19_4);
    let flags = version_flags("nothing", &versions());
    assert!(!flags.after_12w50a);
    assert!(!flags.before_1_19_4);
}

#[test]
fn fractions_are_held_as_their_text() {
    assert_eq!(default_brightness(), "0.5");
    assert_eq!(default_chat_unfocused_height(), "0.4375");
    assert_eq!(default_chat_line_spacing(), "0");
    assert_eq!(default_sound_volume(), "1");
    assert_eq!(default_brightness(), 0.5f32.to_string());
    assert_eq!(default_chat_unfocused_height(), 0.4375f32.to_string());
    assert_eq!(default_chat_line_spacing(), 0.0f32.to_string());
    assert_eq!(default_sound_volume(), 1.0f32.to_string());
    let options = ClientOptions::defaults(true, true);
    assert_eq!(options.difficulty, OptionsEnum::Mode(Difficulty::Normal));
    assert_eq!(options.video.render_distance, 12);
    assert!(!options.sync_chunk_writes);
    assert_eq!(options.sound.volume.music, "1");
}
