//! The keys that an options file of the game client is written with.
//!
//! Which keys are written depends on the version of the game, as options
//! were added and removed over time.

use vstd::prelude::*;
use crate::options::{
    default_advanced_item_tooltips, default_allow_block_alternatives,
    default_allow_server_listing, default_attack_indicator,
    default_auto_command_suggestions, default_auto_jump, default_background_for_chat_only,
    default_biome_blend, default_chat_visibility, default_chunk_updates_mode, default_clouds,
    default_dark_mojang_background, default_data_version, default_difficulty,
    default_directional_audio, default_discrete_mouse_scroll, default_enable_chat_colors,
    default_enable_chat_links, default_enable_touchscreen, default_entity_shadows,
    default_force_unicode, default_fov, default_fullscreen, default_fullscreen_resolution,
    default_graphics_mode, default_gui_scale, default_held_item_tooltips,
    default_hide_bundle_tutorial, default_hide_lightning_flashes, default_hide_matched_names,
    default_hide_server_address, default_invert_mouse_y, default_joined_server,
    default_language, default_log_level, default_main_hand, default_max_fps,
    default_mipmap_levels, default_narrator_mode, default_particles,
    default_pause_on_lost_focus, default_prompt_links, default_raw_mouse_input,
    default_realms_notifications, default_reduced_debug_info, default_render_distance,
    default_resource_packs, default_show_autosave_indicator, default_show_subtitles,
    default_simulation_distance, default_skip_multiplayer_warning,
    default_skip_realms_32_bit_warning, default_smooth_lighting, default_sound_device,
    default_sync_chunk_writes, default_toggle_crouch, default_toggle_sprint,
    default_tutorial_step, default_use_native_transport, default_view_bobbing, default_vsync,
    default_window_height, default_window_width, quoted_names, write_fullscreen_resolution,
    write_resource_packs, AttackIndicatorMode, ChatVisibility, ChunkUpdatesMode,
    CloudRenderMode, Difficulty, FullscreenResolution, GraphicsMode, KeyOptions, LogLevel,
    MainHand, NarratorMode, OptionsEnum, ParticlesMode, SkinOptions, TutorialStep,
};
use crate::text::{int_text, lemma_push_deep_view, push_int};
use crate::versions::{VersionPattern, VersionPatternView};

verus! {

/// Options of the controls. A number with a fraction is held as the text that
/// writes it.
#[derive(Debug, PartialEq, Eq)]
pub struct ControlOptions {
    pub keys: KeyOptions,
    pub auto_jump: bool,
    pub discrete_mouse_scroll: bool,
    pub invert_mouse_y: bool,
    pub enable_touchscreen: bool,
    pub toggle_sprint: bool,
    pub toggle_crouch: bool,
    pub mouse_sensitivity: String,
    pub mouse_wheel_sensitivity: String,
    pub raw_mouse_input: bool,
}

/// Options of the chat. A number with a fraction is held as the text that
/// writes it.
#[derive(Debug, PartialEq, Eq)]
pub struct ChatOptions {
    pub auto_command_suggestions: bool,
    pub enable_colors: bool,
    pub enable_links: bool,
    pub prompt_links: bool,
    pub force_unicode: bool,
    pub visibility: OptionsEnum<ChatVisibility>,
    pub opacity: String,
    pub line_spacing: String,
    pub background_opacity: String,
    pub background_for_chat_only: bool,
    pub focused_height: String,
    pub unfocused_height: String,
    pub delay: String,
    pub scale: String,
    pub width: String,
    pub narrator_mode: OptionsEnum<NarratorMode>,
}

/// Options of the graphics. A number with a fraction is held as the text that
/// writes it.
#[derive(Debug, PartialEq, Eq)]
pub struct VideoOptions {
    pub vsync: bool,
    pub entity_shadows: bool,
    pub fullscreen: bool,
    pub view_bobbing: bool,
    pub dark_mojang_background: bool,
    pub hide_lightning_flashes: bool,
    pub fov: u8,
    pub screen_effect_scale: String,
    pub fov_effect_scale: String,
    pub darkness_effect_scale: String,
    pub brightness: String,
    pub render_distance: u8,
    pub simulation_distance: u8,
    pub entity_distance_scaling: String,
    pub gui_scale: u8,
    pub particles: OptionsEnum<ParticlesMode>,
    pub max_fps: u8,
    pub graphics_mode: OptionsEnum<GraphicsMode>,
    pub smooth_lighting: bool,
    pub chunk_updates_mode: OptionsEnum<ChunkUpdatesMode>,
    pub biome_blend: u8,
    pub clouds: CloudRenderMode,
    pub mipmap_levels: u8,
    pub window_width: u16,
    pub window_height: u16,
    pub attack_indicator: OptionsEnum<AttackIndicatorMode>,
    pub fullscreen_resolution: Option<FullscreenResolution>,
    pub allow_block_alternatives: bool,
}

/// The volumes of the kinds of sound. A number with a fraction is held as the text that
/// writes it.
#[derive(Debug, PartialEq, Eq)]
pub struct VolumeOptions {
    pub master: String,
    pub music: String,
    pub record: String,
    pub weather: String,
    pub block: String,
    pub hostile: String,
    pub neutral: String,
    pub player: String,
    pub ambient: String,
    pub voice: String,
}

/// Options of the sound. A number with a fraction is held as the text that
/// writes it.
#[derive(Debug, PartialEq, Eq)]
pub struct SoundOptions {
    pub volume: VolumeOptions,
    pub show_subtitles: bool,
    pub directional_audio: bool,
    pub device: Option<String>,
}

/// The options of the game client. A number with a fraction is held as the text that
/// writes it.
#[derive(Debug, PartialEq, Eq)]
pub struct ClientOptions {
    pub data_version: i16,
    pub video: VideoOptions,
    pub control: ControlOptions,
    pub chat: ChatOptions,
    pub sound: SoundOptions,
    pub skin: SkinOptions,
    pub realms_notifications: bool,
    pub reduced_debug_info: bool,
    pub difficulty: OptionsEnum<Difficulty>,
    pub resource_packs: Vec<String>,
    pub language: String,
    pub tutorial_step: TutorialStep,
    pub skip_multiplayer_warning: bool,
    pub skip_realms_32_bit_warning: bool,
    pub hide_bundle_tutorial: bool,
    pub joined_server: bool,
    pub sync_chunk_writes: bool,
    pub use_native_transport: bool,
    pub held_item_tooltips: bool,
    pub advanced_item_tooltips: bool,
    pub log_level: OptionsEnum<LogLevel>,
    pub hide_matched_names: bool,
    pub pause_on_lost_focus: bool,
    pub main_hand: MainHand,
    pub hide_server_address: bool,
    pub show_autosave_indicator: bool,
    pub allow_server_listing: bool,
}

pub fn default_mouse_sensitivity() -> (r: String)
    ensures
        r@ == "0.5"@,
{
    "0.5".to_owned()
}

pub fn default_screen_effect_scale() -> (r: String)
    ensures
        r@ == "1"@,
{
    "1".to_owned()
}

pub fn default_fov_effect_scale() -> (r: String)
    ensures
        r@ == "1"@,
{
    "1".to_owned()
}

pub fn default_darkness_effect_scale() -> (r: String)
    ensures
        r@ == "1"@,
{
    "1".to_owned()
}

pub fn default_brightness() -> (r: String)
    ensures
        r@ == "0.5"@,
{
    "0.5".to_owned()
}

pub fn default_entity_distance_scaling() -> (r: String)
    ensures
        r@ == "1"@,
{
    "1".to_owned()
}

pub fn default_chat_opacity() -> (r: String)
    ensures
        r@ == "1"@,
{
    "1".to_owned()
}

pub fn default_chat_line_spacing() -> (r: String)
    ensures
        r@ == "0"@,
{
    "0".to_owned()
}

pub fn default_text_background_opacity() -> (r: String)
    ensures
        r@ == "0.5"@,
{
    "0.5".to_owned()
}

pub fn default_chat_focused_height() -> (r: String)
    ensures
        r@ == "1"@,
{
    "1".to_owned()
}

pub fn default_chat_unfocused_height() -> (r: String)
    ensures
        r@ == "0.4375"@,
{
    "0.4375".to_owned()
}

pub fn default_chat_delay() -> (r: String)
    ensures
        r@ == "0"@,
{
    "0".to_owned()
}

pub fn default_chat_scale() -> (r: String)
    ensures
        r@ == "1"@,
{
    "1".to_owned()
}

pub fn default_chat_width() -> (r: String)
    ensures
        r@ == "1"@,
{
    "1".to_owned()
}

pub fn default_mouse_wheel_sensitivity() -> (r: String)
    ensures
        r@ == "1"@,
{
    "1".to_owned()
}

pub fn default_sound_volume() -> (r: String)
    ensures
        r@ == "1"@,
{
    "1".to_owned()
}

impl VolumeOptions {
    /// Whether these are the default options.
    pub open spec fn is_default(&self) -> bool {
        &&& self.master@ == "1"@
        &&& self.music@ == "1"@
        &&& self.record@ == "1"@
        &&& self.weather@ == "1"@
        &&& self.block@ == "1"@
        &&& self.hostile@ == "1"@
        &&& self.neutral@ == "1"@
        &&& self.player@ == "1"@
        &&& self.ambient@ == "1"@
        &&& self.voice@ == "1"@
    }

    /// The default options.
    pub fn defaults() -> (r: Self)
        ensures
            r.is_default(),
    {
        Self {
            master: default_sound_volume(),
            music: default_sound_volume(),
            record: default_sound_volume(),
            weather: default_sound_volume(),
            block: default_sound_volume(),
            hostile: default_sound_volume(),
            neutral: default_sound_volume(),
            player: default_sound_volume(),
            ambient: default_sound_volume(),
            voice: default_sound_volume(),
        }
    }
}

impl ControlOptions {
    /// Whether these are the default options.
    pub open spec fn is_default(&self) -> bool {
        &&& self.keys.is_default()
        &&& self.auto_jump == true
        &&& self.discrete_mouse_scroll == false
        &&& self.invert_mouse_y == false
        &&& self.enable_touchscreen == false
        &&& self.toggle_sprint == false
        &&& self.toggle_crouch == false
        &&& self.mouse_sensitivity@ == "0.5"@
        &&& self.mouse_wheel_sensitivity@ == "1"@
        &&& self.raw_mouse_input == true
    }

    /// The default options.
    pub fn defaults() -> (r: Self)
        ensures
            r.is_default(),
    {
        Self {
            keys: KeyOptions::default(),
            auto_jump: default_auto_jump(),
            discrete_mouse_scroll: default_discrete_mouse_scroll(),
            invert_mouse_y: default_invert_mouse_y(),
            enable_touchscreen: default_enable_touchscreen(),
            toggle_sprint: default_toggle_sprint(),
            toggle_crouch: default_toggle_crouch(),
            mouse_sensitivity: default_mouse_sensitivity(),
            mouse_wheel_sensitivity: default_mouse_wheel_sensitivity(),
            raw_mouse_input: default_raw_mouse_input(),
        }
    }
}

impl ChatOptions {
    /// Whether these are the default options.
    pub open spec fn is_default(&self) -> bool {
        &&& self.auto_command_suggestions == true
        &&& self.enable_colors == true
        &&& self.enable_links == true
        &&& self.prompt_links == true
        &&& self.force_unicode == false
        &&& self.visibility == OptionsEnum::Mode(ChatVisibility::Shown)
        &&& self.opacity@ == "1"@
        &&& self.line_spacing@ == "0"@
        &&& self.background_opacity@ == "0.5"@
        &&& self.background_for_chat_only == true
        &&& self.focused_height@ == "1"@
        &&& self.unfocused_height@ == "0.4375"@
        &&& self.delay@ == "0"@
        &&& self.scale@ == "1"@
        &&& self.width@ == "1"@
        &&& self.narrator_mode == OptionsEnum::Mode(NarratorMode::Off)
    }

    /// The default options.
    pub fn defaults() -> (r: Self)
        ensures
            r.is_default(),
    {
        Self {
            auto_command_suggestions: default_auto_command_suggestions(),
            enable_colors: default_enable_chat_colors(),
            enable_links: default_enable_chat_links(),
            prompt_links: default_prompt_links(),
            force_unicode: default_force_unicode(),
            visibility: default_chat_visibility(),
            opacity: default_chat_opacity(),
            line_spacing: default_chat_line_spacing(),
            background_opacity: default_text_background_opacity(),
            background_for_chat_only: default_background_for_chat_only(),
            focused_height: default_chat_focused_height(),
            unfocused_height: default_chat_unfocused_height(),
            delay: default_chat_delay(),
            scale: default_chat_scale(),
            width: default_chat_width(),
            narrator_mode: default_narrator_mode(),
        }
    }
}

impl VideoOptions {
    /// Whether these are the default options.
    pub open spec fn is_default(&self, target_64_bit: bool) -> bool {
        &&& self.vsync == true
        &&& self.entity_shadows == true
        &&& self.fullscreen == false
        &&& self.view_bobbing == true
        &&& self.dark_mojang_background == false
        &&& self.hide_lightning_flashes == false
        &&& self.fov == 0
        &&& self.screen_effect_scale@ == "1"@
        &&& self.fov_effect_scale@ == "1"@
        &&& self.darkness_effect_scale@ == "1"@
        &&& self.brightness@ == "0.5"@
        &&& self.render_distance == if target_64_bit {
            12u8
        } else {
            8u8
        }
        &&& self.simulation_distance == if target_64_bit {
            12u8
        } else {
            8u8
        }
        &&& self.entity_distance_scaling@ == "1"@
        &&& self.gui_scale == 0
        &&& self.particles == OptionsEnum::Mode(ParticlesMode::All)
        &&& self.max_fps == 120
        &&& self.graphics_mode == OptionsEnum::Mode(GraphicsMode::Fancy)
        &&& self.smooth_lighting == true
        &&& self.chunk_updates_mode == OptionsEnum::Mode(ChunkUpdatesMode::Threaded)
        &&& self.biome_blend == 2
        &&& self.clouds == CloudRenderMode::Fancy
        &&& self.mipmap_levels == 4
        &&& self.window_width == 0
        &&& self.window_height == 0
        &&& self.attack_indicator == OptionsEnum::Mode(AttackIndicatorMode::Crosshair)
        &&& self.fullscreen_resolution is None
        &&& self.allow_block_alternatives == true
    }

    /// The default options.
    pub fn defaults(target_64_bit: bool) -> (r: Self)
        ensures
            r.is_default(target_64_bit),
    {
        Self {
            vsync: default_vsync(),
            entity_shadows: default_entity_shadows(),
            fullscreen: default_fullscreen(),
            view_bobbing: default_view_bobbing(),
            dark_mojang_background: default_dark_mojang_background(),
            hide_lightning_flashes: default_hide_lightning_flashes(),
            fov: default_fov(),
            screen_effect_scale: default_screen_effect_scale(),
            fov_effect_scale: default_fov_effect_scale(),
            darkness_effect_scale: default_darkness_effect_scale(),
            brightness: default_brightness(),
            render_distance: default_render_distance(target_64_bit),
            simulation_distance: default_simulation_distance(target_64_bit),
            entity_distance_scaling: default_entity_distance_scaling(),
            gui_scale: default_gui_scale(),
            particles: default_particles(),
            max_fps: default_max_fps(),
            graphics_mode: default_graphics_mode(),
            smooth_lighting: default_smooth_lighting(),
            chunk_updates_mode: default_chunk_updates_mode(),
            biome_blend: default_biome_blend(),
            clouds: default_clouds(),
            mipmap_levels: default_mipmap_levels(),
            window_width: default_window_width(),
            window_height: default_window_height(),
            attack_indicator: default_attack_indicator(),
            fullscreen_resolution: default_fullscreen_resolution(),
            allow_block_alternatives: default_allow_block_alternatives(),
        }
    }
}

impl SoundOptions {
    /// Whether these are the default options.
    pub open spec fn is_default(&self) -> bool {
        &&& self.volume.is_default()
        &&& self.show_subtitles == false
        &&& self.directional_audio == false
        &&& self.device is None
    }

    /// The default options.
    pub fn defaults() -> (r: Self)
        ensures
            r.is_default(),
    {
        Self {
            volume: VolumeOptions::defaults(),
            show_subtitles: default_show_subtitles(),
            directional_audio: default_directional_audio(),
            device: default_sound_device(),
        }
    }
}

impl ClientOptions {
    /// Whether these are the default options.
    pub open spec fn is_default(&self, target_64_bit: bool, windows: bool) -> bool {
        &&& self.data_version == 3337
        &&& self.video.is_default(target_64_bit)
        &&& self.control.is_default()
        &&& self.chat.is_default()
        &&& self.sound.is_default()
        &&& self.skin == (SkinOptions {
            cape: true,
            jacket: true,
            left_sleeve: true,
            right_sleeve: true,
            left_pants: true,
            right_pants: true,
            hat: true,
        })
        &&& self.realms_notifications == true
        &&& self.reduced_debug_info == false
        &&& self.difficulty == OptionsEnum::Mode(Difficulty::Normal)
        &&& self.resource_packs@.len() == 0
        &&& self.language@ == "en_us"@
        &&& self.tutorial_step == TutorialStep::Finished
        &&& self.skip_multiplayer_warning == true
        &&& self.skip_realms_32_bit_warning == true
        &&& self.hide_bundle_tutorial == true
        &&& self.joined_server == true
        &&& self.sync_chunk_writes == !windows
        &&& self.use_native_transport == true
        &&& self.held_item_tooltips == true
        &&& self.advanced_item_tooltips == false
        &&& self.log_level == OptionsEnum::Mode(LogLevel::High)
        &&& self.hide_matched_names == true
        &&& self.pause_on_lost_focus == false
        &&& self.main_hand == MainHand::Right
        &&& self.hide_server_address == false
        &&& self.show_autosave_indicator == true
        &&& self.allow_server_listing == true
    }

    /// The default options.
    pub fn defaults(target_64_bit: bool, windows: bool) -> (r: Self)
        ensures
            r.is_default(target_64_bit, windows),
    {
        Self {
            data_version: default_data_version(),
            video: VideoOptions::defaults(target_64_bit),
            control: ControlOptions::defaults(),
            chat: ChatOptions::defaults(),
            sound: SoundOptions::defaults(),
            skin: SkinOptions::default(),
            realms_notifications: default_realms_notifications(),
            reduced_debug_info: default_reduced_debug_info(),
            difficulty: default_difficulty(),
            resource_packs: default_resource_packs(),
            language: default_language(),
            tutorial_step: default_tutorial_step(),
            skip_multiplayer_warning: default_skip_multiplayer_warning(),
            skip_realms_32_bit_warning: default_skip_realms_32_bit_warning(),
            hide_bundle_tutorial: default_hide_bundle_tutorial(),
            joined_server: default_joined_server(),
            sync_chunk_writes: default_sync_chunk_writes(windows),
            use_native_transport: default_use_native_transport(),
            held_item_tooltips: default_held_item_tooltips(),
            advanced_item_tooltips: default_advanced_item_tooltips(),
            log_level: default_log_level(),
            hide_matched_names: default_hide_matched_names(),
            pause_on_lost_focus: default_pause_on_lost_focus(),
            main_hand: default_main_hand(),
            hide_server_address: default_hide_server_address(),
            show_autosave_indicator: default_show_autosave_indicator(),
            allow_server_listing: default_allow_server_listing(),
        }
    }
}

/// The text that writes a truth value.
pub open spec fn bool_text(b: bool) -> Seq<char> {
    if b {
        "true"@
    } else {
        "false"@
    }
}

fn bool_string(b: bool) -> (r: String)
    ensures
        r@ == bool_text(b),
{
    if b {
        "true".to_owned()
    } else {
        "false".to_owned()
    }
}

fn int_string(n: i64) -> (r: String)
    ensures
        r@ == int_text(n as int),
{
    let mut out = String::new();
    push_int(&mut out, n);
    assert(out@ =~= int_text(n as int));
    out
}

/// The keys `keys` and behind them, where `cond` holds, the key `key` with
/// the value `value`.
pub open spec fn with_key(
    keys: Seq<(Seq<char>, Seq<char>)>,
    cond: bool,
    key: Seq<char>,
    value: Seq<char>,
) -> Seq<(Seq<char>, Seq<char>)> {
    if cond {
        keys.push((key, value))
    } else {
        keys
    }
}

fn put(out: &mut Vec<(String, String)>, key: &str, value: String)
    ensures
        final(out).deep_view() == old(out).deep_view().push((key@, value@)),
{
    let ghost before = *out;
    let item = (key.to_owned(), value);
    out.push(item);
    proof {
        lemma_push_deep_view(before, *out, item);
    }
}

/// Which of the versions that changed the options the version of the game
/// comes after, and which it comes before, in the list of all versions.
#[derive(Debug, Clone, Copy, PartialEq, Eq, Structural)]
pub struct VersionFlags {
    pub after_12w50a: bool,
    pub after_14w28a: bool,
    pub after_17w06a: bool,
    pub after_17w47a: bool,
    pub after_18w15a: bool,
    pub after_18w21a: bool,
    pub after_1_13_pre2: bool,
    pub after_1_15_2_pre1: bool,
    pub after_1_16_4_rc1: bool,
    pub after_21w13a: bool,
    pub after_21w37a: bool,
    pub after_21w38a: bool,
    pub after_21w42a: bool,
    pub after_1_18_pre2: bool,
    pub after_1_18_2_pre1: bool,
    pub after_22w11a: bool,
    pub after_22w15a: bool,
    pub before_15w31a: bool,
    pub before_1_19_4: bool,
}

/// Whether `version` is `bound` or comes after it in the list of versions.
pub open spec fn is_after(bound: Seq<char>, version: Seq<char>, versions: Seq<Seq<char>>) -> bool {
    VersionPatternView::After(bound).admits(version, versions)
}

/// Whether `version` is `bound` or comes before it in the list of versions.
pub open spec fn is_before(bound: Seq<char>, version: Seq<char>, versions: Seq<Seq<char>>) -> bool {
    VersionPatternView::Before(bound).admits(version, versions)
}

fn after(bound: &str, version: &str, versions: &Vec<String>) -> (r: bool)
    ensures
        r == is_after(bound@, version@, versions.deep_view()),
{
    VersionPattern::After(bound.to_owned()).matches_single(version, versions)
}

fn before(bound: &str, version: &str, versions: &Vec<String>) -> (r: bool)
    ensures
        r == is_before(bound@, version@, versions.deep_view()),
{
    VersionPattern::Before(bound.to_owned()).matches_single(version, versions)
}

/// The flags of a version.
pub open spec fn flags_of(version: Seq<char>, versions: Seq<Seq<char>>) -> VersionFlags {
    VersionFlags {
        after_12w50a: is_after("12w50a"@, version, versions),
        after_14w28a: is_after("14w28a"@, version, versions),
        after_17w06a: is_after("17w06a"@, version, versions),
        after_17w47a: is_after("17w47a"@, version, versions),
        after_18w15a: is_after("18w15a"@, version, versions),
        after_18w21a: is_after("18w21a"@, version, versions),
        after_1_13_pre2: is_after("1.13-pre2"@, version, versions),
        after_1_15_2_pre1: is_after("1.15.2-pre1"@, version, versions),
        after_1_16_4_rc1: is_after("1.16.4-rc1"@, version, versions),
        after_21w13a: is_after("21w13a"@, version, versions),
        after_21w37a: is_after("21w37a"@, version, versions),
        after_21w38a: is_after("21w38a"@, version, versions),
        after_21w42a: is_after("21w42a"@, version, versions),
        after_1_18_pre2: is_after("1.18-pre2"@, version, versions),
        after_1_18_2_pre1: is_after("1.18.2-pre1"@, version, versions),
        after_22w11a: is_after("22w11a"@, version, versions),
        after_22w15a: is_after("22w15a"@, version, versions),
        before_15w31a: is_before("15w31a"@, version, versions),
        before_1_19_4: is_before("1.19.4"@, version, versions),
    }
}

/// Computes the flags of a version.
pub fn version_flags(version: &str, versions: &Vec<String>) -> (r: VersionFlags)
    ensures
        r == flags_of(version@, versions.deep_view()),
{
    VersionFlags {
        after_12w50a: after("12w50a", version, versions),
        after_14w28a: after("14w28a", version, versions),
        after_17w06a: after("17w06a", version, versions),
        after_17w47a: after("17w47a", version, versions),
        after_18w15a: after("18w15a", version, versions),
        after_18w21a: after("18w21a", version, versions),
        after_1_13_pre2: after("1.13-pre2", version, versions),
        after_1_15_2_pre1: after("1.15.2-pre1", version, versions),
        after_1_16_4_rc1: after("1.16.4-rc1", version, versions),
        after_21w13a: after("21w13a", version, versions),
        after_21w37a: after("21w37a", version, versions),
        after_21w38a: after("21w38a", version, versions),
        after_21w42a: after("21w42a", version, versions),
        after_1_18_pre2: after("1.18-pre2", version, versions),
        after_1_18_2_pre1: after("1.18.2-pre1", version, versions),
        after_22w11a: after("22w11a", version, versions),
        after_22w15a: after("22w15a", version, versions),
        before_15w31a: before("15w31a", version, versions),
        before_1_19_4: before("1.19.4", version, versions),
    }
}

/// The keys `keys` followed by the keys from `version` to `realmsNotifications`.
pub open spec fn keys_from_version(
    keys: Seq<(Seq<char>, Seq<char>)>,
    client: &ClientOptions,
    flags: VersionFlags,
) -> Seq<(Seq<char>, Seq<char>)> {
    let k0 = with_key(keys, true, "version"@, int_text(client.data_version as int));
    let k1 = with_key(k0, true, "autoJump"@, bool_text(client.control.auto_jump));
    let k2 = with_key(k1, flags.after_17w47a, "autoSuggestions"@, bool_text(client.chat.auto_command_suggestions));
    let k3 = with_key(k2, true, "chatColors"@, bool_text(client.chat.enable_colors));
    let k4 = with_key(k3, true, "chatLinks"@, bool_text(client.chat.enable_links));
    let k5 = with_key(k4, true, "chatLinksPrompt"@, bool_text(client.chat.prompt_links));
    let k6 = with_key(k5, true, "enableVsync"@, bool_text(client.video.vsync));
    let k7 = with_key(k6, true, "entityShadows"@, bool_text(client.video.entity_shadows));
    let k8 = with_key(k7, true, "forceUnicodeFont"@, bool_text(client.chat.force_unicode));
    let k9 = with_key(k8, true, "discrete_mouse_scroll"@, bool_text(client.control.discrete_mouse_scroll));
    let k10 = with_key(k9, true, "invertYMouse"@, bool_text(client.control.invert_mouse_y));
    let k11 = with_key(k10, true, "realmsNotifications"@, bool_text(client.realms_notifications));
    k11
}

fn write_from_version(
    out: &mut Vec<(String, String)>,
    client: &ClientOptions,
    flags: VersionFlags,
)
    ensures
        final(out).deep_view() == keys_from_version(old(out).deep_view(), client, flags),
{
    put(out, "version", int_string(client.data_version as i64));
    put(out, "autoJump", bool_string(client.control.auto_jump));
    if flags.after_17w47a {
        put(out, "autoSuggestions", bool_string(client.chat.auto_command_suggestions));
    }
    put(out, "chatColors", bool_string(client.chat.enable_colors));
    put(out, "chatLinks", bool_string(client.chat.enable_links));
    put(out, "chatLinksPrompt", bool_string(client.chat.prompt_links));
    put(out, "enableVsync", bool_string(client.video.vsync));
    put(out, "entityShadows", bool_string(client.video.entity_shadows));
    put(out, "forceUnicodeFont", bool_string(client.chat.force_unicode));
    put(out, "discrete_mouse_scroll", bool_string(client.control.discrete_mouse_scroll));
    put(out, "invertYMouse", bool_string(client.control.invert_mouse_y));
    put(out, "realmsNotifications", bool_string(client.realms_notifications));
}

/// The keys `keys` followed by the keys from `reducedDebugInfo` to `mouseSensitivity`.
pub open spec fn keys_from_reduced_debug_info(
    keys: Seq<(Seq<char>, Seq<char>)>,
    client: &ClientOptions,
    flags: VersionFlags,
) -> Seq<(Seq<char>, Seq<char>)> {
    let k0 = with_key(keys, true, "reducedDebugInfo"@, bool_text(client.reduced_debug_info));
    let k1 = with_key(k0, true, "showSubtitles"@, bool_text(client.sound.show_subtitles));
    let k2 = with_key(k1, flags.after_22w11a, "directionalAudio"@, bool_text(client.sound.directional_audio));
    let k3 = with_key(k2, true, "touchscreen"@, bool_text(client.control.enable_touchscreen));
    let k4 = with_key(k3, true, "bobView"@, bool_text(client.video.view_bobbing));
    let k5 = with_key(k4, true, "toggleCrouch"@, bool_text(client.control.toggle_crouch));
    let k6 = with_key(k5, true, "toggleSprint"@, bool_text(client.control.toggle_sprint));
    let k7 = with_key(k6, flags.after_21w13a, "darkMojangStudiosBackground"@, bool_text(client.video.dark_mojang_background));
    let k8 = with_key(k7, flags.after_21w37a, "hideLightningFlashes"@, bool_text(client.video.hide_lightning_flashes));
    let k9 = with_key(k8, flags.after_21w37a, "prioritizeChunkUpdates"@, int_text(client.video.chunk_updates_mode.number() as int));
    let k10 = with_key(k9, (flags.after_21w37a && client.sound.device is Some), "soundDevice"@, client.sound.device->0@);
    let k11 = with_key(k10, true, "mouseSensitivity"@, client.control.mouse_sensitivity@);
    k11
}

fn write_from_reduced_debug_info(
    out: &mut Vec<(String, String)>,
    client: &ClientOptions,
    flags: VersionFlags,
)
    ensures
        final(out).deep_view() == keys_from_reduced_debug_info(old(out).deep_view(), client, flags),
{
    put(out, "reducedDebugInfo", bool_string(client.reduced_debug_info));
    put(out, "showSubtitles", bool_string(client.sound.show_subtitles));
    if flags.after_22w11a {
        put(out, "directionalAudio", bool_string(client.sound.directional_audio));
    }
    put(out, "touchscreen", bool_string(client.control.enable_touchscreen));
    put(out, "bobView", bool_string(client.video.view_bobbing));
    put(out, "toggleCrouch", bool_string(client.control.toggle_crouch));
    put(out, "toggleSprint", bool_string(client.control.toggle_sprint));
    if flags.after_21w13a {
        put(out, "darkMojangStudiosBackground", bool_string(client.video.dark_mojang_background));
    }
    if flags.after_21w37a {
        put(out, "hideLightningFlashes", bool_string(client.video.hide_lightning_flashes));
    }
    if flags.after_21w37a {
        put(out, "prioritizeChunkUpdates", int_string(client.video.chunk_updates_mode.to_int() as i64));
    }
    if flags.after_21w37a {
        if let Some(device) = &client.sound.device {
            put(out, "soundDevice", device.clone());
        }
    }
    put(out, "mouseSensitivity", client.control.mouse_sensitivity.clone());
}

/// The keys `keys` followed by the keys from `fov` to `difficulty`.
pub open spec fn keys_from_fov(
    keys: Seq<(Seq<char>, Seq<char>)>,
    client: &ClientOptions,
    flags: VersionFlags,
) -> Seq<(Seq<char>, Seq<char>)> {
    let k0 = with_key(keys, true, "fov"@, int_text(client.video.fov as int));
    let k1 = with_key(k0, true, "screenEffectScale"@, client.video.screen_effect_scale@);
    let k2 = with_key(k1, true, "fovEffectScale"@, client.video.fov_effect_scale@);
    let k3 = with_key(k2, flags.after_22w15a, "darknessEffectScale"@, client.video.darkness_effect_scale@);
    let k4 = with_key(k3, true, "gamma"@, client.video.brightness@);
    let k5 = with_key(k4, true, "renderDistance"@, int_text(client.video.render_distance as int));
    let k6 = with_key(k5, flags.after_21w38a, "simulationDistance"@, int_text(client.video.simulation_distance as int));
    let k7 = with_key(k6, true, "entityDistanceScaling"@, client.video.entity_distance_scaling@);
    let k8 = with_key(k7, true, "guiScale"@, int_text(client.video.gui_scale as int));
    let k9 = with_key(k8, true, "particles"@, int_text(client.video.particles.number() as int));
    let k10 = with_key(k9, true, "maxFps"@, int_text(client.video.max_fps as int));
    let k11 = with_key(k10, true, "difficulty"@, int_text(client.difficulty.number() as int));
    k11
}

fn write_from_fov(
    out: &mut Vec<(String, String)>,
    client: &ClientOptions,
    flags: VersionFlags,
)
    ensures
        final(out).deep_view() == keys_from_fov(old(out).deep_view(), client, flags),
{
    put(out, "fov", int_string(client.video.fov as i64));
    put(out, "screenEffectScale", client.video.screen_effect_scale.clone());
    put(out, "fovEffectScale", client.video.fov_effect_scale.clone());
    if flags.after_22w15a {
        put(out, "darknessEffectScale", client.video.darkness_effect_scale.clone());
    }
    put(out, "gamma", client.video.brightness.clone());
    put(out, "renderDistance", int_string(client.video.render_distance as i64));
    if flags.after_21w38a {
        put(out, "simulationDistance", int_string(client.video.simulation_distance as i64));
    }
    put(out, "entityDistanceScaling", client.video.entity_distance_scaling.clone());
    put(out, "guiScale", int_string(client.video.gui_scale as i64));
    put(out, "particles", int_string(client.video.particles.to_int() as i64));
    put(out, "maxFps", int_string(client.video.max_fps as i64));
    put(out, "difficulty", int_string(client.difficulty.to_int() as i64));
}

/// The keys `keys` followed by the keys from `graphicsMode` to `backgroundForChatOnly`.
pub open spec fn keys_from_graphics_mode(
    keys: Seq<(Seq<char>, Seq<char>)>,
    client: &ClientOptions,
    flags: VersionFlags,
) -> Seq<(Seq<char>, Seq<char>)> {
    let k0 = with_key(keys, true, "graphicsMode"@, int_text(client.video.graphics_mode.number() as int));
    let k1 = with_key(k0, true, "ao"@, bool_text(client.video.smooth_lighting));
    let k2 = with_key(k1, flags.after_18w15a, "biomeBlendRadius"@, int_text(client.video.biome_blend as int));
    let k3 = with_key(k2, true, "renderClouds"@, client.video.clouds.text());
    let k4 = with_key(k3, true, "resourcePacks"@, "["@ + quoted_names(client.resource_packs.deep_view()) + "]"@);
    let k5 = with_key(k4, true, "incompatibleResourcePacks"@, "[]"@);
    let k6 = with_key(k5, true, "lang"@, client.language@);
    let k7 = with_key(k6, true, "chatVisibility"@, int_text(client.chat.visibility.number() as int));
    let k8 = with_key(k7, true, "chatOpacity"@, client.chat.opacity@);
    let k9 = with_key(k8, true, "chatLineSpacing"@, client.chat.line_spacing@);
    let k10 = with_key(k9, true, "textBackgroundOpacity"@, client.chat.background_opacity@);
    let k11 = with_key(k10, true, "backgroundForChatOnly"@, bool_text(client.chat.background_for_chat_only));
    k11
}

fn write_from_graphics_mode(
    out: &mut Vec<(String, String)>,
    client: &ClientOptions,
    flags: VersionFlags,
)
    ensures
        final(out).deep_view() == keys_from_graphics_mode(old(out).deep_view(), client, flags),
{
    put(out, "graphicsMode", int_string(client.video.graphics_mode.to_int() as i64));
    put(out, "ao", bool_string(client.video.smooth_lighting));
    if flags.after_18w15a {
        put(out, "biomeBlendRadius", int_string(client.video.biome_blend as i64));
    }
    put(out, "renderClouds", client.video.clouds.to_string());
    put(out, "resourcePacks", write_resource_packs(&client.resource_packs));
    put(out, "incompatibleResourcePacks", "[]".to_owned());
    put(out, "lang", client.language.clone());
    put(out, "chatVisibility", int_string(client.chat.visibility.to_int() as i64));
    put(out, "chatOpacity", client.chat.opacity.clone());
    put(out, "chatLineSpacing", client.chat.line_spacing.clone());
    put(out, "textBackgroundOpacity", client.chat.background_opacity.clone());
    put(out, "backgroundForChatOnly", bool_string(client.chat.background_for_chat_only));
}

/// The keys `keys` followed by the keys from `hideServerAddress` to `mipmapLevels`.
pub open spec fn keys_from_hide_server_address(
    keys: Seq<(Seq<char>, Seq<char>)>,
    client: &ClientOptions,
    flags: VersionFlags,
) -> Seq<(Seq<char>, Seq<char>)> {
    let k0 = with_key(keys, true, "hideServerAddress"@, bool_text(client.hide_server_address));
    let k1 = with_key(k0, true, "advancedItemTooltips"@, bool_text(client.advanced_item_tooltips));
    let k2 = with_key(k1, true, "pauseOnLostFocus"@, bool_text(client.pause_on_lost_focus));
    let k3 = with_key(k2, true, "overrideWidth"@, int_text(client.video.window_width as int));
    let k4 = with_key(k3, true, "overrideHeight"@, int_text(client.video.window_height as int));
    let k5 = with_key(k4, flags.after_12w50a && flags.before_1_19_4, "heldItemTooltips"@, bool_text(client.held_item_tooltips));
    let k6 = with_key(k5, true, "chatHeightFocused"@, client.chat.focused_height@);
    let k7 = with_key(k6, true, "chatDelay"@, client.chat.delay@);
    let k8 = with_key(k7, true, "chatHeightUnfocused"@, client.chat.unfocused_height@);
    let k9 = with_key(k8, true, "chatScale"@, client.chat.scale@);
    let k10 = with_key(k9, true, "chatWidth"@, client.chat.width@);
    let k11 = with_key(k10, true, "mipmapLevels"@, int_text(client.video.mipmap_levels as int));
    k11
}

fn write_from_hide_server_address(
    out: &mut Vec<(String, String)>,
    client: &ClientOptions,
    flags: VersionFlags,
)
    ensures
        final(out).deep_view() == keys_from_hide_server_address(old(out).deep_view(), client, flags),
{
    put(out, "hideServerAddress", bool_string(client.hide_server_address));
    put(out, "advancedItemTooltips", bool_string(client.advanced_item_tooltips));
    put(out, "pauseOnLostFocus", bool_string(client.pause_on_lost_focus));
    put(out, "overrideWidth", int_string(client.video.window_width as i64));
    put(out, "overrideHeight", int_string(client.video.window_height as i64));
    if flags.after_12w50a && flags.before_1_19_4 {
        put(out, "heldItemTooltips", bool_string(client.held_item_tooltips));
    }
    put(out, "chatHeightFocused", client.chat.focused_height.clone());
    put(out, "chatDelay", client.chat.delay.clone());
    put(out, "chatHeightUnfocused", client.chat.unfocused_height.clone());
    put(out, "chatScale", client.chat.scale.clone());
    put(out, "chatWidth", client.chat.width.clone());
    put(out, "mipmapLevels", int_string(client.video.mipmap_levels as i64));
}

/// The keys `keys` followed by the keys from `useNativeTransport` to `hideBundleTutorial`.
pub open spec fn keys_from_use_native_transport(
    keys: Seq<(Seq<char>, Seq<char>)>,
    client: &ClientOptions,
    flags: VersionFlags,
) -> Seq<(Seq<char>, Seq<char>)> {
    let k0 = with_key(keys, true, "useNativeTransport"@, bool_text(client.use_native_transport));
    let k1 = with_key(k0, true, "mainHand"@, client.main_hand.text());
    let k2 = with_key(k1, flags.after_17w06a, "narrator"@, int_text(client.chat.narrator_mode.number() as int));
    let k3 = with_key(k2, flags.after_17w06a, "tutorialStep"@, client.tutorial_step.text());
    let k4 = with_key(k3, flags.after_18w21a, "mouseWheelSensitivity"@, client.control.mouse_wheel_sensitivity@);
    let k5 = with_key(k4, true, "rawMouseInput"@, bool_text(client.control.raw_mouse_input));
    let k6 = with_key(k5, flags.after_1_13_pre2, "glDebugVerbosity"@, int_text(client.log_level.number() as int));
    let k7 = with_key(k6, flags.after_1_15_2_pre1, "skipMultiplayerWarning"@, bool_text(client.skip_multiplayer_warning));
    let k8 = with_key(k7, flags.after_1_18_2_pre1, "skipRealms32bitWarning"@, bool_text(client.skip_realms_32_bit_warning));
    let k9 = with_key(k8, flags.after_1_16_4_rc1, "hideMatchedNames"@, bool_text(client.hide_matched_names));
    let k10 = with_key(k9, flags.after_1_16_4_rc1, "joinedFirstServer"@, bool_text(client.joined_server));
    let k11 = with_key(k10, true, "hideBundleTutorial"@, bool_text(client.hide_bundle_tutorial));
    k11
}

fn write_from_use_native_transport(
    out: &mut Vec<(String, String)>,
    client: &ClientOptions,
    flags: VersionFlags,
)
    ensures
        final(out).deep_view() == keys_from_use_native_transport(old(out).deep_view(), client, flags),
{
    put(out, "useNativeTransport", bool_string(client.use_native_transport));
    put(out, "mainHand", client.main_hand.to_string());
    if flags.after_17w06a {
        put(out, "narrator", int_string(client.chat.narrator_mode.to_int() as i64));
    }
    if flags.after_17w06a {
        put(out, "tutorialStep", client.tutorial_step.to_string());
    }
    if flags.after_18w21a {
        put(out, "mouseWheelSensitivity", client.control.mouse_wheel_sensitivity.clone());
    }
    put(out, "rawMouseInput", bool_string(client.control.raw_mouse_input));
    if flags.after_1_13_pre2 {
        put(out, "glDebugVerbosity", int_string(client.log_level.to_int() as i64));
    }
    if flags.after_1_15_2_pre1 {
        put(out, "skipMultiplayerWarning", bool_string(client.skip_multiplayer_warning));
    }
    if flags.after_1_18_2_pre1 {
        put(out, "skipRealms32bitWarning", bool_string(client.skip_realms_32_bit_warning));
    }
    if flags.after_1_16_4_rc1 {
        put(out, "hideMatchedNames", bool_string(client.hide_matched_names));
    }
    if flags.after_1_16_4_rc1 {
        put(out, "joinedFirstServer", bool_string(client.joined_server));
    }
    put(out, "hideBundleTutorial", bool_string(client.hide_bundle_tutorial));
}

/// The keys `keys` followed by the keys from `syncChunkWrites` to `key_key.sprint`.
pub open spec fn keys_from_sync_chunk_writes(
    keys: Seq<(Seq<char>, Seq<char>)>,
    client: &ClientOptions,
    flags: VersionFlags,
) -> Seq<(Seq<char>, Seq<char>)> {
    let k0 = with_key(keys, true, "syncChunkWrites"@, bool_text(client.sync_chunk_writes));
    let k1 = with_key(k0, flags.after_21w42a, "showAutosaveIndicator"@, bool_text(client.show_autosave_indicator));
    let k2 = with_key(k1, flags.after_1_18_pre2, "allowServerListing"@, bool_text(client.allow_server_listing));
    let k3 = with_key(k2, true, "key_key.attack"@, client.control.keys.attack@);
    let k4 = with_key(k3, true, "key_key.use"@, client.control.keys.use_item@);
    let k5 = with_key(k4, true, "key_key.forward"@, client.control.keys.forward@);
    let k6 = with_key(k5, true, "key_key.left"@, client.control.keys.left@);
    let k7 = with_key(k6, true, "key_key.back"@, client.control.keys.back@);
    let k8 = with_key(k7, true, "key_key.right"@, client.control.keys.right@);
    let k9 = with_key(k8, true, "key_key.jump"@, client.control.keys.jump@);
    let k10 = with_key(k9, true, "key_key.sneak"@, client.control.keys.sneak@);
    let k11 = with_key(k10, true, "key_key.sprint"@, client.control.keys.sprint@);
    k11
}

fn write_from_sync_chunk_writes(
    out: &mut Vec<(String, String)>,
    client: &ClientOptions,
    flags: VersionFlags,
)
    ensures
        final(out).deep_view() == keys_from_sync_chunk_writes(old(out).deep_view(), client, flags),
{
    put(out, "syncChunkWrites", bool_string(client.sync_chunk_writes));
    if flags.after_21w42a {
        put(out, "showAutosaveIndicator", bool_string(client.show_autosave_indicator));
    }
    if flags.after_1_18_pre2 {
        put(out, "allowServerListing", bool_string(client.allow_server_listing));
    }
    put(out, "key_key.attack", client.control.keys.attack.clone());
    put(out, "key_key.use", client.control.keys.use_item.clone());
    put(out, "key_key.forward", client.control.keys.forward.clone());
    put(out, "key_key.left", client.control.keys.left.clone());
    put(out, "key_key.back", client.control.keys.back.clone());
    put(out, "key_key.right", client.control.keys.right.clone());
    put(out, "key_key.jump", client.control.keys.jump.clone());
    put(out, "key_key.sneak", client.control.keys.sneak.clone());
    put(out, "key_key.sprint", client.control.keys.sprint.clone());
}

/// The keys `keys` followed by the keys from `key_key.drop` to `key_key.spectatorOutlines`.
pub open spec fn keys_from_key_drop(
    keys: Seq<(Seq<char>, Seq<char>)>,
    client: &ClientOptions,
    flags: VersionFlags,
) -> Seq<(Seq<char>, Seq<char>)> {
    let k0 = with_key(keys, true, "key_key.drop"@, client.control.keys.drop@);
    let k1 = with_key(k0, true, "key_key.inventory"@, client.control.keys.inventory@);
    let k2 = with_key(k1, true, "key_key.chat"@, client.control.keys.chat@);
    let k3 = with_key(k2, true, "key_key.playerlist"@, client.control.keys.playerlist@);
    let k4 = with_key(k3, true, "key_key.pickItem"@, client.control.keys.pick_item@);
    let k5 = with_key(k4, true, "key_key.command"@, client.control.keys.command@);
    let k6 = with_key(k5, true, "key_key.socialInteractions"@, client.control.keys.social_interactions@);
    let k7 = with_key(k6, true, "key_key.screenshot"@, client.control.keys.screenshot@);
    let k8 = with_key(k7, true, "key_key.togglePerspective"@, client.control.keys.toggle_perspective@);
    let k9 = with_key(k8, true, "key_key.smoothCamera"@, client.control.keys.smooth_camera@);
    let k10 = with_key(k9, true, "key_key.fullscreen"@, client.control.keys.fullscreen@);
    let k11 = with_key(k10, true, "key_key.spectatorOutlines"@, client.control.keys.spectator_outlines@);
    k11
}

fn write_from_key_drop(
    out: &mut Vec<(String, String)>,
    client: &ClientOptions,
    flags: VersionFlags,
)
    ensures
        final(out).deep_view() == keys_from_key_drop(old(out).deep_view(), client, flags),
{
    put(out, "key_key.drop", client.control.keys.drop.clone());
    put(out, "key_key.inventory", client.control.keys.inventory.clone());
    put(out, "key_key.chat", client.control.keys.chat.clone());
    put(out, "key_key.playerlist", client.control.keys.playerlist.clone());
    put(out, "key_key.pickItem", client.control.keys.pick_item.clone());
    put(out, "key_key.command", client.control.keys.command.clone());
    put(out, "key_key.socialInteractions", client.control.keys.social_interactions.clone());
    put(out, "key_key.screenshot", client.control.keys.screenshot.clone());
    put(out, "key_key.togglePerspective", client.control.keys.toggle_perspective.clone());
    put(out, "key_key.smoothCamera", client.control.keys.smooth_camera.clone());
    put(out, "key_key.fullscreen", client.control.keys.fullscreen.clone());
    put(out, "key_key.spectatorOutlines", client.control.keys.spectator_outlines.clone());
}

/// The keys `keys` followed by the keys from `key_key.swapOffhand` to `key_key.hotbar.8`.
pub open spec fn keys_from_key_swap_offhand(
    keys: Seq<(Seq<char>, Seq<char>)>,
    client: &ClientOptions,
    flags: VersionFlags,
) -> Seq<(Seq<char>, Seq<char>)> {
    let k0 = with_key(keys, true, "key_key.swapOffhand"@, client.control.keys.swap_offhand@);
    let k1 = with_key(k0, flags.after_17w06a, "key_key.saveToolbarActivator"@, client.control.keys.save_toolbar@);
    let k2 = with_key(k1, flags.after_17w06a, "key_key.loadToolbarActivator"@, client.control.keys.load_toolbar@);
    let k3 = with_key(k2, flags.after_17w06a, "key_key.advancements"@, client.control.keys.advancements@);
    let k4 = with_key(k3, true, "key_key.hotbar.1"@, client.control.keys.hotbar_1@);
    let k5 = with_key(k4, true, "key_key.hotbar.2"@, client.control.keys.hotbar_2@);
    let k6 = with_key(k5, true, "key_key.hotbar.3"@, client.control.keys.hotbar_3@);
    let k7 = with_key(k6, true, "key_key.hotbar.4"@, client.control.keys.hotbar_4@);
    let k8 = with_key(k7, true, "key_key.hotbar.5"@, client.control.keys.hotbar_5@);
    let k9 = with_key(k8, true, "key_key.hotbar.6"@, client.control.keys.hotbar_6@);
    let k10 = with_key(k9, true, "key_key.hotbar.7"@, client.control.keys.hotbar_7@);
    let k11 = with_key(k10, true, "key_key.hotbar.8"@, client.control.keys.hotbar_8@);
    k11
}

fn write_from_key_swap_offhand(
    out: &mut Vec<(String, String)>,
    client: &ClientOptions,
    flags: VersionFlags,
)
    ensures
        final(out).deep_view() == keys_from_key_swap_offhand(old(out).deep_view(), client, flags),
{
    put(out, "key_key.swapOffhand", client.control.keys.swap_offhand.clone());
    if flags.after_17w06a {
        put(out, "key_key.saveToolbarActivator", client.control.keys.save_toolbar.clone());
    }
    if flags.after_17w06a {
        put(out, "key_key.loadToolbarActivator", client.control.keys.load_toolbar.clone());
    }
    if flags.after_17w06a {
        put(out, "key_key.advancements", client.control.keys.advancements.clone());
    }
    put(out, "key_key.hotbar.1", client.control.keys.hotbar_1.clone());
    put(out, "key_key.hotbar.2", client.control.keys.hotbar_2.clone());
    put(out, "key_key.hotbar.3", client.control.keys.hotbar_3.clone());
    put(out, "key_key.hotbar.4", client.control.keys.hotbar_4.clone());
    put(out, "key_key.hotbar.5", client.control.keys.hotbar_5.clone());
    put(out, "key_key.hotbar.6", client.control.keys.hotbar_6.clone());
    put(out, "key_key.hotbar.7", client.control.keys.hotbar_7.clone());
    put(out, "key_key.hotbar.8", client.control.keys.hotbar_8.clone());
}

/// The keys `keys` followed by the keys from `key_key.hotbar.9` to `modelPart_cape`.
pub open spec fn keys_from_key_hotbar_9(
    keys: Seq<(Seq<char>, Seq<char>)>,
    client: &ClientOptions,
    flags: VersionFlags,
) -> Seq<(Seq<char>, Seq<char>)> {
    let k0 = with_key(keys, true, "key_key.hotbar.9"@, client.control.keys.hotbar_9@);
    let k1 = with_key(k0, true, "soundCategory_master"@, client.sound.volume.master@);
    let k2 = with_key(k1, true, "soundCategory_music"@, client.sound.volume.music@);
    let k3 = with_key(k2, true, "soundCategory_record"@, client.sound.volume.record@);
    let k4 = with_key(k3, true, "soundCategory_weather"@, client.sound.volume.weather@);
    let k5 = with_key(k4, true, "soundCategory_block"@, client.sound.volume.block@);
    let k6 = with_key(k5, true, "soundCategory_hostile"@, client.sound.volume.hostile@);
    let k7 = with_key(k6, true, "soundCategory_neutral"@, client.sound.volume.neutral@);
    let k8 = with_key(k7, true, "soundCategory_player"@, client.sound.volume.player@);
    let k9 = with_key(k8, true, "soundCategory_ambient"@, client.sound.volume.ambient@);
    let k10 = with_key(k9, true, "soundCategory_voice"@, client.sound.volume.voice@);
    let k11 = with_key(k10, true, "modelPart_cape"@, bool_text(client.skin.cape));
    k11
}

fn write_from_key_hotbar_9(
    out: &mut Vec<(String, String)>,
    client: &ClientOptions,
    flags: VersionFlags,
)
    ensures
        final(out).deep_view() == keys_from_key_hotbar_9(old(out).deep_view(), client, flags),
{
    put(out, "key_key.hotbar.9", client.control.keys.hotbar_9.clone());
    put(out, "soundCategory_master", client.sound.volume.master.clone());
    put(out, "soundCategory_music", client.sound.volume.music.clone());
    put(out, "soundCategory_record", client.sound.volume.record.clone());
    put(out, "soundCategory_weather", client.sound.volume.weather.clone());
    put(out, "soundCategory_block", client.sound.volume.block.clone());
    put(out, "soundCategory_hostile", client.sound.volume.hostile.clone());
    put(out, "soundCategory_neutral", client.sound.volume.neutral.clone());
    put(out, "soundCategory_player", client.sound.volume.player.clone());
    put(out, "soundCategory_ambient", client.sound.volume.ambient.clone());
    put(out, "soundCategory_voice", client.sound.volume.voice.clone());
    put(out, "modelPart_cape", bool_string(client.skin.cape));
}

/// The keys `keys` followed by the keys from `modelPart_jacket` to `fullscreenResolution`.
pub open spec fn keys_from_model_part_jacket(
    keys: Seq<(Seq<char>, Seq<char>)>,
    client: &ClientOptions,
    flags: VersionFlags,
) -> Seq<(Seq<char>, Seq<char>)> {
    let k0 = with_key(keys, true, "modelPart_jacket"@, bool_text(client.skin.jacket));
    let k1 = with_key(k0, true, "modelPart_left_sleeve"@, bool_text(client.skin.left_sleeve));
    let k2 = with_key(k1, true, "modelPart_right_sleeve"@, bool_text(client.skin.right_sleeve));
    let k3 = with_key(k2, true, "modelPart_left_pants_leg"@, bool_text(client.skin.left_pants));
    let k4 = with_key(k3, true, "modelPart_right_pants_leg"@, bool_text(client.skin.right_pants));
    let k5 = with_key(k4, true, "modelPart_hat"@, bool_text(client.skin.hat));
    let k6 = with_key(k5, flags.after_14w28a && flags.before_15w31a, "allowBlockAlternatives"@, bool_text(client.video.allow_block_alternatives));
    let k7 = with_key(k6, (client.video.fullscreen_resolution is Some), "fullscreenResolution"@, client.video.fullscreen_resolution->0.text());
    k7
}

fn write_from_model_part_jacket(
    out: &mut Vec<(String, String)>,
    client: &ClientOptions,
    flags: VersionFlags,
)
    ensures
        final(out).deep_view() == keys_from_model_part_jacket(old(out).deep_view(), client, flags),
{
    put(out, "modelPart_jacket", bool_string(client.skin.jacket));
    put(out, "modelPart_left_sleeve", bool_string(client.skin.left_sleeve));
    put(out, "modelPart_right_sleeve", bool_string(client.skin.right_sleeve));
    put(out, "modelPart_left_pants_leg", bool_string(client.skin.left_pants));
    put(out, "modelPart_right_pants_leg", bool_string(client.skin.right_pants));
    put(out, "modelPart_hat", bool_string(client.skin.hat));
    if flags.after_14w28a && flags.before_15w31a {
        put(out, "allowBlockAlternatives", bool_string(client.video.allow_block_alternatives));
    }
    if let Some(resolution) = &client.video.fullscreen_resolution {
        put(out, "fullscreenResolution", write_fullscreen_resolution(resolution));
    }
}

/// The keys that the options are written with for a version of the game,
/// in the order in which they are written.
pub open spec fn option_keys(
    client: &ClientOptions,
    version: Seq<char>,
    versions: Seq<Seq<char>>,
) -> Seq<(Seq<char>, Seq<char>)> {
    let flags = flags_of(version, versions);
    let k0 = keys_from_version(Seq::empty(), client, flags);
    let k1 = keys_from_reduced_debug_info(k0, client, flags);
    let k2 = keys_from_fov(k1, client, flags);
    let k3 = keys_from_graphics_mode(k2, client, flags);
    let k4 = keys_from_hide_server_address(k3, client, flags);
    let k5 = keys_from_use_native_transport(k4, client, flags);
    let k6 = keys_from_sync_chunk_writes(k5, client, flags);
    let k7 = keys_from_key_drop(k6, client, flags);
    let k8 = keys_from_key_swap_offhand(k7, client, flags);
    let k9 = keys_from_key_hotbar_9(k8, client, flags);
    let k10 = keys_from_model_part_jacket(k9, client, flags);
    k10
}

/// Write options to a list of keys.
pub fn write_keys(client: &ClientOptions, version: &str, versions: &Vec<String>) -> (r: Vec<
    (String, String),
>)
    ensures
        r.deep_view() == option_keys(client, version@, versions.deep_view()),
{
    let flags = version_flags(version, versions);
    let mut out: Vec<(String, String)> = Vec::new();
    assert(out.deep_view() =~= Seq::empty());
    write_from_version(&mut out, client, flags);
    write_from_reduced_debug_info(&mut out, client, flags);
    write_from_fov(&mut out, client, flags);
    write_from_graphics_mode(&mut out, client, flags);
    write_from_hide_server_address(&mut out, client, flags);
    write_from_use_native_transport(&mut out, client, flags);
    write_from_sync_chunk_writes(&mut out, client, flags);
    write_from_key_drop(&mut out, client, flags);
    write_from_key_swap_offhand(&mut out, client, flags);
    write_from_key_hotbar_9(&mut out, client, flags);
    write_from_model_part_jacket(&mut out, client, flags);
    out
}

} // verus!
