//! Options of the game client, with their defaults and the lines that
//! write them.

use vstd::prelude::*;
use crate::text::{nat_text, push_nat};

verus! {

/// An option that is given by one of its modes or by the number of a mode.
#[derive(Debug, PartialEq, Eq)]
pub enum OptionsEnum<T> {
    Mode(T),
    Number(i32),
}

/// How elaborate the graphics are.
#[derive(Debug, Clone, Copy, PartialEq, Eq, Structural)]
pub enum GraphicsMode {
    Fast,
    Fancy,
    Fabulous,
}

impl GraphicsMode {
    /// The number that the option files write this mode as.
    pub open spec fn number(self) -> i32 {
        match self {
            GraphicsMode::Fast => 0,
            GraphicsMode::Fancy => 1,
            GraphicsMode::Fabulous => 2,
        }
    }

    /// The number that the option files write this mode as.
    pub fn to_int(&self) -> (r: i32)
        ensures
            r == self.number(),
    {
        match self {
            Self::Fast => 0,
            Self::Fancy => 1,
            Self::Fabulous => 2,
        }
    }
}

impl OptionsEnum<GraphicsMode> {
    /// The number that the option files write this option as.
    pub open spec fn number(self) -> i32 {
        match self {
            OptionsEnum::Mode(mode) => mode.number(),
            OptionsEnum::Number(number) => number,
        }
    }

    /// The number that the option files write this option as.
    pub fn to_int(&self) -> (r: i32)
        ensures
            r == self.number(),
    {
        match self {
            OptionsEnum::Mode(mode) => mode.to_int(),
            OptionsEnum::Number(number) => *number,
        }
    }
}

/// How many particles are shown.
#[derive(Debug, Clone, Copy, PartialEq, Eq, Structural)]
pub enum ParticlesMode {
    All,
    Decreased,
    Minimal,
}

impl ParticlesMode {
    /// The number that the option files write this mode as.
    pub open spec fn number(self) -> i32 {
        match self {
            ParticlesMode::All => 0,
            ParticlesMode::Decreased => 1,
            ParticlesMode::Minimal => 2,
        }
    }

    /// The number that the option files write this mode as.
    pub fn to_int(&self) -> (r: i32)
        ensures
            r == self.number(),
    {
        match self {
            Self::All => 0,
            Self::Decreased => 1,
            Self::Minimal => 2,
        }
    }
}

impl OptionsEnum<ParticlesMode> {
    /// The number that the option files write this option as.
    pub open spec fn number(self) -> i32 {
        match self {
            OptionsEnum::Mode(mode) => mode.number(),
            OptionsEnum::Number(number) => number,
        }
    }

    /// The number that the option files write this option as.
    pub fn to_int(&self) -> (r: i32)
        ensures
            r == self.number(),
    {
        match self {
            OptionsEnum::Mode(mode) => mode.to_int(),
            OptionsEnum::Number(number) => *number,
        }
    }
}

/// The difficulty of the game.
#[derive(Debug, Clone, Copy, PartialEq, Eq, Structural)]
pub enum Difficulty {
    Peaceful,
    Easy,
    Normal,
    Hard,
}

impl Difficulty {
    /// The number that the option files write this mode as.
    pub open spec fn number(self) -> i32 {
        match self {
            Difficulty::Peaceful => 0,
            Difficulty::Easy => 1,
            Difficulty::Normal => 2,
            Difficulty::Hard => 3,
        }
    }

    /// The number that the option files write this mode as.
    pub fn to_int(&self) -> (r: i32)
        ensures
            r == self.number(),
    {
        match self {
            Self::Peaceful => 0,
            Self::Easy => 1,
            Self::Normal => 2,
            Self::Hard => 3,
        }
    }
}

impl OptionsEnum<Difficulty> {
    /// The number that the option files write this option as.
    pub open spec fn number(self) -> i32 {
        match self {
            OptionsEnum::Mode(mode) => mode.number(),
            OptionsEnum::Number(number) => number,
        }
    }

    /// The number that the option files write this option as.
    pub fn to_int(&self) -> (r: i32)
        ensures
            r == self.number(),
    {
        match self {
            OptionsEnum::Mode(mode) => mode.to_int(),
            OptionsEnum::Number(number) => *number,
        }
    }
}

/// How chunk updates are scheduled.
#[derive(Debug, Clone, Copy, PartialEq, Eq, Structural)]
pub enum ChunkUpdatesMode {
    Threaded,
    SemiBlocking,
    FullyBlocking,
}

impl ChunkUpdatesMode {
    /// The number that the option files write this mode as.
    pub open spec fn number(self) -> i32 {
        match self {
            ChunkUpdatesMode::Threaded => 0,
            ChunkUpdatesMode::SemiBlocking => 1,
            ChunkUpdatesMode::FullyBlocking => 2,
        }
    }

    /// The number that the option files write this mode as.
    pub fn to_int(&self) -> (r: i32)
        ensures
            r == self.number(),
    {
        match self {
            Self::Threaded => 0,
            Self::SemiBlocking => 1,
            Self::FullyBlocking => 2,
        }
    }
}

impl OptionsEnum<ChunkUpdatesMode> {
    /// The number that the option files write this option as.
    pub open spec fn number(self) -> i32 {
        match self {
            OptionsEnum::Mode(mode) => mode.number(),
            OptionsEnum::Number(number) => number,
        }
    }

    /// The number that the option files write this option as.
    pub fn to_int(&self) -> (r: i32)
        ensures
            r == self.number(),
    {
        match self {
            OptionsEnum::Mode(mode) => mode.to_int(),
            OptionsEnum::Number(number) => *number,
        }
    }
}

/// What of the chat is shown.
#[derive(Debug, Clone, Copy, PartialEq, Eq, Structural)]
pub enum ChatVisibility {
    Shown,
    CommandsOnly,
    Hidden,
}

impl ChatVisibility {
    /// The number that the option files write this mode as.
    pub open spec fn number(self) -> i32 {
        match self {
            ChatVisibility::Shown => 0,
            ChatVisibility::CommandsOnly => 1,
            ChatVisibility::Hidden => 2,
        }
    }

    /// The number that the option files write this mode as.
    pub fn to_int(&self) -> (r: i32)
        ensures
            r == self.number(),
    {
        match self {
            Self::Shown => 0,
            Self::CommandsOnly => 1,
            Self::Hidden => 2,
        }
    }
}

impl OptionsEnum<ChatVisibility> {
    /// The number that the option files write this option as.
    pub open spec fn number(self) -> i32 {
        match self {
            OptionsEnum::Mode(mode) => mode.number(),
            OptionsEnum::Number(number) => number,
        }
    }

    /// The number that the option files write this option as.
    pub fn to_int(&self) -> (r: i32)
        ensures
            r == self.number(),
    {
        match self {
            OptionsEnum::Mode(mode) => mode.to_int(),
            OptionsEnum::Number(number) => *number,
        }
    }
}

/// Where the attack indicator is shown.
#[derive(Debug, Clone, Copy, PartialEq, Eq, Structural)]
pub enum AttackIndicatorMode {
    Off,
    Crosshair,
    Hotbar,
}

impl AttackIndicatorMode {
    /// The number that the option files write this mode as.
    pub open spec fn number(self) -> i32 {
        match self {
            AttackIndicatorMode::Off => 0,
            AttackIndicatorMode::Crosshair => 1,
            AttackIndicatorMode::Hotbar => 2,
        }
    }

    /// The number that the option files write this mode as.
    pub fn to_int(&self) -> (r: i32)
        ensures
            r == self.number(),
    {
        match self {
            Self::Off => 0,
            Self::Crosshair => 1,
            Self::Hotbar => 2,
        }
    }
}

impl OptionsEnum<AttackIndicatorMode> {
    /// The number that the option files write this option as.
    pub open spec fn number(self) -> i32 {
        match self {
            OptionsEnum::Mode(mode) => mode.number(),
            OptionsEnum::Number(number) => number,
        }
    }

    /// The number that the option files write this option as.
    pub fn to_int(&self) -> (r: i32)
        ensures
            r == self.number(),
    {
        match self {
            OptionsEnum::Mode(mode) => mode.to_int(),
            OptionsEnum::Number(number) => *number,
        }
    }
}

/// What the narrator reads.
#[derive(Debug, Clone, Copy, PartialEq, Eq, Structural)]
pub enum NarratorMode {
    Off,
    All,
    Chat,
    System,
}

impl NarratorMode {
    /// The number that the option files write this mode as.
    pub open spec fn number(self) -> i32 {
        match self {
            NarratorMode::Off => 0,
            NarratorMode::All => 1,
            NarratorMode::Chat => 2,
            NarratorMode::System => 3,
        }
    }

    /// The number that the option files write this mode as.
    pub fn to_int(&self) -> (r: i32)
        ensures
            r == self.number(),
    {
        match self {
            Self::Off => 0,
            Self::All => 1,
            Self::Chat => 2,
            Self::System => 3,
        }
    }
}

impl OptionsEnum<NarratorMode> {
    /// The number that the option files write this option as.
    pub open spec fn number(self) -> i32 {
        match self {
            OptionsEnum::Mode(mode) => mode.number(),
            OptionsEnum::Number(number) => number,
        }
    }

    /// The number that the option files write this option as.
    pub fn to_int(&self) -> (r: i32)
        ensures
            r == self.number(),
    {
        match self {
            OptionsEnum::Mode(mode) => mode.to_int(),
            OptionsEnum::Number(number) => *number,
        }
    }
}

/// How much the graphics debug log reports.
#[derive(Debug, Clone, Copy, PartialEq, Eq, Structural)]
pub enum LogLevel {
    /// Nothing is reported.
    Silent,
    High,
    Medium,
    Low,
    Notification,
}

impl LogLevel {
    /// The number that the option files write this mode as.
    pub open spec fn number(self) -> i32 {
        match self {
            LogLevel::Silent => 0,
            LogLevel::High => 1,
            LogLevel::Medium => 2,
            LogLevel::Low => 3,
            LogLevel::Notification => 4,
        }
    }

    /// The number that the option files write this mode as.
    pub fn to_int(&self) -> (r: i32)
        ensures
            r == self.number(),
    {
        match self {
            Self::Silent => 0,
            Self::High => 1,
            Self::Medium => 2,
            Self::Low => 3,
            Self::Notification => 4,
        }
    }
}

impl OptionsEnum<LogLevel> {
    /// The number that the option files write this option as.
    pub open spec fn number(self) -> i32 {
        match self {
            OptionsEnum::Mode(mode) => mode.number(),
            OptionsEnum::Number(number) => number,
        }
    }

    /// The number that the option files write this option as.
    pub fn to_int(&self) -> (r: i32)
        ensures
            r == self.number(),
    {
        match self {
            OptionsEnum::Mode(mode) => mode.to_int(),
            OptionsEnum::Number(number) => *number,
        }
    }
}

/// How clouds are rendered.
#[derive(Debug, Clone, Copy, PartialEq, Eq, Structural)]
pub enum CloudRenderMode {
    Fancy,
    Off,
    Fast,
}

impl CloudRenderMode {
    /// The text that the option files write this value as.
    pub open spec fn text(self) -> Seq<char> {
        match self {
            CloudRenderMode::Fancy => "true"@,
            CloudRenderMode::Off => "false"@,
            CloudRenderMode::Fast => "fast"@,
        }
    }

    /// The text that the option files write this value as.
    pub fn to_string(&self) -> (r: String)
        ensures
            r@ == self.text(),
    {
        match self {
            Self::Fancy => "true".to_owned(),
            Self::Off => "false".to_owned(),
            Self::Fast => "fast".to_owned(),
        }
    }
}

/// The hand that holds items.
#[derive(Debug, Clone, Copy, PartialEq, Eq, Structural)]
pub enum MainHand {
    Left,
    Right,
}

impl MainHand {
    /// The text that the option files write this value as.
    pub open spec fn text(self) -> Seq<char> {
        match self {
            MainHand::Left => "left"@,
            MainHand::Right => "right"@,
        }
    }

    /// The text that the option files write this value as.
    pub fn to_string(&self) -> (r: String)
        ensures
            r@ == self.text(),
    {
        match self {
            Self::Left => "left".to_owned(),
            Self::Right => "right".to_owned(),
        }
    }
}

/// The step of the tutorial that the player is at.
#[derive(Debug, Clone, Copy, PartialEq, Eq, Structural)]
pub enum TutorialStep {
    Movement,
    FindTree,
    PunchTree,
    OpenInventory,
    CraftPlanks,
    /// The tutorial is over.
    Finished,
}

impl TutorialStep {
    /// The text that the option files write this value as.
    pub open spec fn text(self) -> Seq<char> {
        match self {
            TutorialStep::Movement => "movement"@,
            TutorialStep::FindTree => "find_tree"@,
            TutorialStep::PunchTree => "punch_tree"@,
            TutorialStep::OpenInventory => "open_inventory"@,
            TutorialStep::CraftPlanks => "craft_planks"@,
            TutorialStep::Finished => "none"@,
        }
    }

    /// The text that the option files write this value as.
    pub fn to_string(&self) -> (r: String)
        ensures
            r@ == self.text(),
    {
        match self {
            Self::Movement => "movement".to_owned(),
            Self::FindTree => "find_tree".to_owned(),
            Self::PunchTree => "punch_tree".to_owned(),
            Self::OpenInventory => "open_inventory".to_owned(),
            Self::CraftPlanks => "craft_planks".to_owned(),
            Self::Finished => "none".to_owned(),
        }
    }
}

/// The resolution of the screen in fullscreen mode.
#[derive(Debug, Clone, Copy, PartialEq, Eq, Structural)]
pub struct FullscreenResolution {
    pub width: u32,
    pub height: u32,
    pub refresh_rate: u32,
    pub color_bits: u32,
}

impl FullscreenResolution {
    /// The text that the option files write a resolution as:
    /// `width x height @ refresh rate : color bits`, without the spaces.
    pub open spec fn text(self) -> Seq<char> {
        nat_text(self.width as nat) + "x"@ + nat_text(self.height as nat) + "@"@ + nat_text(
            self.refresh_rate as nat,
        ) + ":"@ + nat_text(self.color_bits as nat)
    }
}

/// Creates the string for fullscreen resolution.
pub fn write_fullscreen_resolution(resolution: &FullscreenResolution) -> (r: String)
    ensures
        r@ == resolution.text(),
{
    let mut out = String::new();
    push_nat(&mut out, resolution.width as u64);
    out.append("x");
    push_nat(&mut out, resolution.height as u64);
    out.append("@");
    push_nat(&mut out, resolution.refresh_rate as u64);
    out.append(":");
    push_nat(&mut out, resolution.color_bits as u64);
    assert(out@ =~= resolution.text());
    out
}

/// The names of resource packs as the option files list them: each one in
/// quotes and followed by a comma.
pub open spec fn quoted_names(packs: Seq<Seq<char>>) -> Seq<char>
    decreases packs.len(),
{
    if packs.len() == 0 {
        Seq::empty()
    } else {
        quoted_names(packs.drop_last()) + "\""@ + packs.last() + "\","@
    }
}

/// Creates the string for the list of resource packs.
pub fn write_resource_packs(resource_packs: &Vec<String>) -> (r: String)
    ensures
        r@ == "["@ + quoted_names(resource_packs.deep_view()) + "]"@,
{
    let ghost all = resource_packs.deep_view();
    let mut out = "[".to_owned();
    let mut i: usize = 0;
    assert(all.take(0) =~= Seq::empty());
    assert(out@ =~= "["@ + quoted_names(all.take(0)));
    while i < resource_packs.len()
        invariant
            i <= resource_packs.len(),
            all == resource_packs.deep_view(),
            out@ == "["@ + quoted_names(all.take(i as int)),
        decreases resource_packs.len() - i,
    {
        proof {
            assert(all.take(i + 1).drop_last() =~= all.take(i as int));
            assert(all.take(i + 1).last() == resource_packs[i as int]@);
        }
        out.append("\"");
        out.append(resource_packs[i].as_str());
        out.append("\",");
        assert(out@ =~= "["@ + quoted_names(all.take(i + 1)));
        i += 1;
    }
    assert(all.take(resource_packs.len() as int) =~= all);
    out.append("]");
    out
}

/// The line that writes an option: the key, a colon, the value and a
/// newline.
pub open spec fn key_line(key: Seq<char>, value: Seq<char>) -> Seq<char> {
    key + ":"@ + value + "\n"@
}

/// Write an options key as a line of an options file.
pub fn write_key(key: &str, value: &str) -> (r: String)
    ensures
        r@ == key_line(key@, value@),
{
    let mut out = key.to_owned();
    out.append(":");
    out.append(value);
    out.append("\n");
    out
}

/// The keys that controls are bound to.
#[derive(Debug, PartialEq, Eq)]
pub struct KeyOptions {
    pub attack: String,
    pub use_item: String,
    pub forward: String,
    pub left: String,
    pub back: String,
    pub right: String,
    pub jump: String,
    pub sneak: String,
    pub sprint: String,
    pub drop: String,
    pub inventory: String,
    pub chat: String,
    pub playerlist: String,
    pub pick_item: String,
    pub command: String,
    pub social_interactions: String,
    pub screenshot: String,
    pub toggle_perspective: String,
    pub smooth_camera: String,
    pub fullscreen: String,
    pub spectator_outlines: String,
    pub swap_offhand: String,
    pub save_toolbar: String,
    pub load_toolbar: String,
    pub advancements: String,
    pub hotbar_1: String,
    pub hotbar_2: String,
    pub hotbar_3: String,
    pub hotbar_4: String,
    pub hotbar_5: String,
    pub hotbar_6: String,
    pub hotbar_7: String,
    pub hotbar_8: String,
    pub hotbar_9: String,
}

impl KeyOptions {
    /// Whether these are the default keys.
    pub open spec fn is_default(&self) -> bool {
        &&& self.attack@ == "key.mouse.left"@
        &&& self.use_item@ == "key.mouse.right"@
        &&& self.forward@ == "key.keyboard.w"@
        &&& self.left@ == "key.keyboard.a"@
        &&& self.back@ == "key.keyboard.s"@
        &&& self.right@ == "key.keyboard.d"@
        &&& self.jump@ == "key.keyboard.space"@
        &&& self.sneak@ == "key.keyboard.left.control"@
        &&& self.sprint@ == "key.keyboard.left.shift"@
        &&& self.drop@ == "key.keyboard.q"@
        &&& self.inventory@ == "key.keyboard.e"@
        &&& self.chat@ == "key.keyboard.t"@
        &&& self.playerlist@ == "key.keyboard.tab"@
        &&& self.pick_item@ == "key.mouse.middle"@
        &&& self.command@ == "key.keyboard.slash"@
        &&& self.social_interactions@ == "key.keyboard.p"@
        &&& self.screenshot@ == "key.keyboard.f2"@
        &&& self.toggle_perspective@ == "key.keyboard.f5"@
        &&& self.smooth_camera@ == "key.keyboard.unknown"@
        &&& self.fullscreen@ == "key.keyboard.f11"@
        &&& self.spectator_outlines@ == "key.keyboard.unknown"@
        &&& self.swap_offhand@ == "key.keyboard.f"@
        &&& self.save_toolbar@ == "key.keyboard.c"@
        &&& self.load_toolbar@ == "key.keyboard.x"@
        &&& self.advancements@ == "key.keyboard.l"@
        &&& self.hotbar_1@ == "key.keyboard.1"@
        &&& self.hotbar_2@ == "key.keyboard.2"@
        &&& self.hotbar_3@ == "key.keyboard.3"@
        &&& self.hotbar_4@ == "key.keyboard.4"@
        &&& self.hotbar_5@ == "key.keyboard.5"@
        &&& self.hotbar_6@ == "key.keyboard.6"@
        &&& self.hotbar_7@ == "key.keyboard.7"@
        &&& self.hotbar_8@ == "key.keyboard.8"@
        &&& self.hotbar_9@ == "key.keyboard.9"@
    }
}

impl Default for KeyOptions {
    fn default() -> (r: Self)
        ensures
            r.is_default(),
    {
        Self {
            attack: default_key_attack(),
            use_item: default_key_use(),
            forward: default_key_forward(),
            left: default_key_left(),
            back: default_key_back(),
            right: default_key_right(),
            jump: default_key_jump(),
            sneak: default_key_sneak(),
            sprint: default_key_sprint(),
            drop: default_key_drop(),
            inventory: default_key_inventory(),
            chat: default_key_chat(),
            playerlist: default_key_playerlist(),
            pick_item: default_key_pick_item(),
            command: default_key_command(),
            social_interactions: default_key_social_interactions(),
            screenshot: default_key_screenshot(),
            toggle_perspective: default_key_toggle_perspective(),
            smooth_camera: default_key_smooth_camera(),
            fullscreen: default_key_fullscreen(),
            spectator_outlines: default_key_spectator_outlines(),
            swap_offhand: default_key_swap_offhand(),
            save_toolbar: default_key_save_toolbar(),
            load_toolbar: default_key_load_toolbar(),
            advancements: default_key_advancements(),
            hotbar_1: default_key_hotbar_1(),
            hotbar_2: default_key_hotbar_2(),
            hotbar_3: default_key_hotbar_3(),
            hotbar_4: default_key_hotbar_4(),
            hotbar_5: default_key_hotbar_5(),
            hotbar_6: default_key_hotbar_6(),
            hotbar_7: default_key_hotbar_7(),
            hotbar_8: default_key_hotbar_8(),
            hotbar_9: default_key_hotbar_9(),
        }
    }
}

/// The parts of the skin that are shown.
#[derive(Debug, Clone, Copy, PartialEq, Eq, Structural)]
pub struct SkinOptions {
    pub cape: bool,
    pub jacket: bool,
    pub left_sleeve: bool,
    pub right_sleeve: bool,
    pub left_pants: bool,
    pub right_pants: bool,
    pub hat: bool,
}

impl Default for SkinOptions {
    fn default() -> (r: Self)
        ensures
            r == (SkinOptions {
                cape: true,
                jacket: true,
                left_sleeve: true,
                right_sleeve: true,
                left_pants: true,
                right_pants: true,
                hat: true,
            }),
    {
        Self {
            cape: default_skin_part(),
            jacket: default_skin_part(),
            left_sleeve: default_skin_part(),
            right_sleeve: default_skin_part(),
            left_pants: default_skin_part(),
            right_pants: default_skin_part(),
            hat: default_skin_part(),
        }
    }
}

pub fn default_skin_part() -> (r: bool)
    ensures
        r == true,
{
    true
}

pub fn default_data_version() -> (r: i16)
    ensures
        r == 3337,
{
    3337
}

pub fn default_auto_jump() -> (r: bool)
    ensures
        r == true,
{
    true
}

pub fn default_auto_command_suggestions() -> (r: bool)
    ensures
        r == true,
{
    true
}

pub fn default_enable_chat_colors() -> (r: bool)
    ensures
        r == true,
{
    true
}

pub fn default_enable_chat_links() -> (r: bool)
    ensures
        r == true,
{
    true
}

pub fn default_prompt_links() -> (r: bool)
    ensures
        r == true,
{
    true
}

pub fn default_vsync() -> (r: bool)
    ensures
        r == true,
{
    true
}

pub fn default_entity_shadows() -> (r: bool)
    ensures
        r == true,
{
    true
}

pub fn default_force_unicode() -> (r: bool)
    ensures
        r == false,
{
    false
}

pub fn default_discrete_mouse_scroll() -> (r: bool)
    ensures
        r == false,
{
    false
}

pub fn default_invert_mouse_y() -> (r: bool)
    ensures
        r == false,
{
    false
}

pub fn default_realms_notifications() -> (r: bool)
    ensures
        r == true,
{
    true
}

pub fn default_reduced_debug_info() -> (r: bool)
    ensures
        r == false,
{
    false
}

pub fn default_show_subtitles() -> (r: bool)
    ensures
        r == false,
{
    false
}

pub fn default_directional_audio() -> (r: bool)
    ensures
        r == false,
{
    false
}

pub fn default_enable_touchscreen() -> (r: bool)
    ensures
        r == false,
{
    false
}

pub fn default_fullscreen() -> (r: bool)
    ensures
        r == false,
{
    false
}

pub fn default_view_bobbing() -> (r: bool)
    ensures
        r == true,
{
    true
}

pub fn default_toggle_sprint() -> (r: bool)
    ensures
        r == false,
{
    false
}

pub fn default_toggle_crouch() -> (r: bool)
    ensures
        r == false,
{
    false
}

pub fn default_dark_mojang_background() -> (r: bool)
    ensures
        r == false,
{
    false
}

pub fn default_hide_lightning_flashes() -> (r: bool)
    ensures
        r == false,
{
    false
}

pub fn default_fov() -> (r: u8)
    ensures
        r == 0,
{
    0
}

pub fn default_gui_scale() -> (r: u8)
    ensures
        r == 0,
{
    0
}

pub fn default_particles() -> (r: OptionsEnum<ParticlesMode>)
    ensures
        r == OptionsEnum::Mode(ParticlesMode::All),
{
    OptionsEnum::Mode(ParticlesMode::All)
}

pub fn default_max_fps() -> (r: u8)
    ensures
        r == 120,
{
    120
}

pub fn default_difficulty() -> (r: OptionsEnum<Difficulty>)
    ensures
        r == OptionsEnum::Mode(Difficulty::Normal),
{
    OptionsEnum::Mode(Difficulty::Normal)
}

pub fn default_graphics_mode() -> (r: OptionsEnum<GraphicsMode>)
    ensures
        r == OptionsEnum::Mode(GraphicsMode::Fancy),
{
    OptionsEnum::Mode(GraphicsMode::Fancy)
}

pub fn default_smooth_lighting() -> (r: bool)
    ensures
        r == true,
{
    true
}

pub fn default_chunk_updates_mode() -> (r: OptionsEnum<ChunkUpdatesMode>)
    ensures
        r == OptionsEnum::Mode(ChunkUpdatesMode::Threaded),
{
    OptionsEnum::Mode(ChunkUpdatesMode::Threaded)
}

pub fn default_biome_blend() -> (r: u8)
    ensures
        r == 2,
{
    2
}

pub fn default_clouds() -> (r: CloudRenderMode)
    ensures
        r == CloudRenderMode::Fancy,
{
    CloudRenderMode::Fancy
}

pub fn default_resource_packs() -> (r: Vec<String>)
    ensures
        r@.len() == 0,
{
    Vec::new()
}

pub fn default_language() -> (r: String)
    ensures
        r@ == "en_us"@,
{
    "en_us".to_owned()
}

pub fn default_sound_device() -> (r: Option<String>)
    ensures
        r is None,
{
    None
}

pub fn default_chat_visibility() -> (r: OptionsEnum<ChatVisibility>)
    ensures
        r == OptionsEnum::Mode(ChatVisibility::Shown),
{
    OptionsEnum::Mode(ChatVisibility::Shown)
}

pub fn default_background_for_chat_only() -> (r: bool)
    ensures
        r == true,
{
    true
}

pub fn default_hide_server_address() -> (r: bool)
    ensures
        r == false,
{
    false
}

pub fn default_advanced_item_tooltips() -> (r: bool)
    ensures
        r == false,
{
    false
}

pub fn default_pause_on_lost_focus() -> (r: bool)
    ensures
        r == false,
{
    false
}

pub fn default_window_width() -> (r: u16)
    ensures
        r == 0,
{
    0
}

pub fn default_window_height() -> (r: u16)
    ensures
        r == 0,
{
    0
}

pub fn default_held_item_tooltips() -> (r: bool)
    ensures
        r == true,
{
    true
}

pub fn default_mipmap_levels() -> (r: u8)
    ensures
        r == 4,
{
    4
}

pub fn default_use_native_transport() -> (r: bool)
    ensures
        r == true,
{
    true
}

pub fn default_main_hand() -> (r: MainHand)
    ensures
        r == MainHand::Right,
{
    MainHand::Right
}

pub fn default_attack_indicator() -> (r: OptionsEnum<AttackIndicatorMode>)
    ensures
        r == OptionsEnum::Mode(AttackIndicatorMode::Crosshair),
{
    OptionsEnum::Mode(AttackIndicatorMode::Crosshair)
}

pub fn default_narrator_mode() -> (r: OptionsEnum<NarratorMode>)
    ensures
        r == OptionsEnum::Mode(NarratorMode::Off),
{
    OptionsEnum::Mode(NarratorMode::Off)
}

pub fn default_tutorial_step() -> (r: TutorialStep)
    ensures
        r == TutorialStep::Finished,
{
    TutorialStep::Finished
}

pub fn default_raw_mouse_input() -> (r: bool)
    ensures
        r == true,
{
    true
}

pub fn default_log_level() -> (r: OptionsEnum<LogLevel>)
    ensures
        r == OptionsEnum::Mode(LogLevel::High),
{
    OptionsEnum::Mode(LogLevel::High)
}

pub fn default_skip_multiplayer_warning() -> (r: bool)
    ensures
        r == true,
{
    true
}

pub fn default_skip_realms_32_bit_warning() -> (r: bool)
    ensures
        r == true,
{
    true
}

pub fn default_hide_matched_names() -> (r: bool)
    ensures
        r == true,
{
    true
}

pub fn default_joined_server() -> (r: bool)
    ensures
        r == true,
{
    true
}

pub fn default_hide_bundle_tutorial() -> (r: bool)
    ensures
        r == true,
{
    true
}

pub fn default_show_autosave_indicator() -> (r: bool)
    ensures
        r == true,
{
    true
}

pub fn default_allow_server_listing() -> (r: bool)
    ensures
        r == true,
{
    true
}

pub fn default_fullscreen_resolution() -> (r: Option<FullscreenResolution>)
    ensures
        r is None,
{
    None
}

pub fn default_key_attack() -> (r: String)
    ensures
        r@ == "key.mouse.left"@,
{
    "key.mouse.left".to_owned()
}

pub fn default_key_use() -> (r: String)
    ensures
        r@ == "key.mouse.right"@,
{
    "key.mouse.right".to_owned()
}

pub fn default_key_forward() -> (r: String)
    ensures
        r@ == "key.keyboard.w"@,
{
    "key.keyboard.w".to_owned()
}

pub fn default_key_left() -> (r: String)
    ensures
        r@ == "key.keyboard.a"@,
{
    "key.keyboard.a".to_owned()
}

pub fn default_key_back() -> (r: String)
    ensures
        r@ == "key.keyboard.s"@,
{
    "key.keyboard.s".to_owned()
}

pub fn default_key_right() -> (r: String)
    ensures
        r@ == "key.keyboard.d"@,
{
    "key.keyboard.d".to_owned()
}

pub fn default_key_jump() -> (r: String)
    ensures
        r@ == "key.keyboard.space"@,
{
    "key.keyboard.space".to_owned()
}

pub fn default_key_sneak() -> (r: String)
    ensures
        r@ == "key.keyboard.left.control"@,
{
    "key.keyboard.left.control".to_owned()
}

pub fn default_key_sprint() -> (r: String)
    ensures
        r@ == "key.keyboard.left.shift"@,
{
    "key.keyboard.left.shift".to_owned()
}

pub fn default_key_drop() -> (r: String)
    ensures
        r@ == "key.keyboard.q"@,
{
    "key.keyboard.q".to_owned()
}

pub fn default_key_inventory() -> (r: String)
    ensures
        r@ == "key.keyboard.e"@,
{
    "key.keyboard.e".to_owned()
}

pub fn default_key_chat() -> (r: String)
    ensures
        r@ == "key.keyboard.t"@,
{
    "key.keyboard.t".to_owned()
}

pub fn default_key_playerlist() -> (r: String)
    ensures
        r@ == "key.keyboard.tab"@,
{
    "key.keyboard.tab".to_owned()
}

pub fn default_key_pick_item() -> (r: String)
    ensures
        r@ == "key.mouse.middle"@,
{
    "key.mouse.middle".to_owned()
}

pub fn default_key_command() -> (r: String)
    ensures
        r@ == "key.keyboard.slash"@,
{
    "key.keyboard.slash".to_owned()
}

pub fn default_key_social_interactions() -> (r: String)
    ensures
        r@ == "key.keyboard.p"@,
{
    "key.keyboard.p".to_owned()
}

pub fn default_key_screenshot() -> (r: String)
    ensures
        r@ == "key.keyboard.f2"@,
{
    "key.keyboard.f2".to_owned()
}

pub fn default_key_toggle_perspective() -> (r: String)
    ensures
        r@ == "key.keyboard.f5"@,
{
    "key.keyboard.f5".to_owned()
}

pub fn default_key_smooth_camera() -> (r: String)
    ensures
        r@ == "key.keyboard.unknown"@,
{
    "key.keyboard.unknown".to_owned()
}

pub fn default_key_fullscreen() -> (r: String)
    ensures
        r@ == "key.keyboard.f11"@,
{
    "key.keyboard.f11".to_owned()
}

pub fn default_key_spectator_outlines() -> (r: String)
    ensures
        r@ == "key.keyboard.unknown"@,
{
    "key.keyboard.unknown".to_owned()
}

pub fn default_key_swap_offhand() -> (r: String)
    ensures
        r@ == "key.keyboard.f"@,
{
    "key.keyboard.f".to_owned()
}

pub fn default_key_save_toolbar() -> (r: String)
    ensures
        r@ == "key.keyboard.c"@,
{
    "key.keyboard.c".to_owned()
}

pub fn default_key_load_toolbar() -> (r: String)
    ensures
        r@ == "key.keyboard.x"@,
{
    "key.keyboard.x".to_owned()
}

pub fn default_key_advancements() -> (r: String)
    ensures
        r@ == "key.keyboard.l"@,
{
    "key.keyboard.l".to_owned()
}

pub fn default_key_hotbar_1() -> (r: String)
    ensures
        r@ == "key.keyboard.1"@,
{
    "key.keyboard.1".to_owned()
}

pub fn default_key_hotbar_2() -> (r: String)
    ensures
        r@ == "key.keyboard.2"@,
{
    "key.keyboard.2".to_owned()
}

pub fn default_key_hotbar_3() -> (r: String)
    ensures
        r@ == "key.keyboard.3"@,
{
    "key.keyboard.3".to_owned()
}

pub fn default_key_hotbar_4() -> (r: String)
    ensures
        r@ == "key.keyboard.4"@,
{
    "key.keyboard.4".to_owned()
}

pub fn default_key_hotbar_5() -> (r: String)
    ensures
        r@ == "key.keyboard.5"@,
{
    "key.keyboard.5".to_owned()
}

pub fn default_key_hotbar_6() -> (r: String)
    ensures
        r@ == "key.keyboard.6"@,
{
    "key.keyboard.6".to_owned()
}

pub fn default_key_hotbar_7() -> (r: String)
    ensures
        r@ == "key.keyboard.7"@,
{
    "key.keyboard.7".to_owned()
}

pub fn default_key_hotbar_8() -> (r: String)
    ensures
        r@ == "key.keyboard.8"@,
{
    "key.keyboard.8".to_owned()
}

pub fn default_key_hotbar_9() -> (r: String)
    ensures
        r@ == "key.keyboard.9"@,
{
    "key.keyboard.9".to_owned()
}

pub fn default_allow_block_alternatives() -> (r: bool)
    ensures
        r == true,
{
    true
}

/// The default render distance, which is larger on 64-bit targets.
pub fn default_render_distance(target_64_bit: bool) -> (r: u8)
    ensures
        r == if target_64_bit {
            12u8
        } else {
            8u8
        },
{
    if target_64_bit {
        12
    } else {
        8
    }
}

/// The default simulation distance, which is the default render distance.
pub fn default_simulation_distance(target_64_bit: bool) -> (r: u8)
    ensures
        r == if target_64_bit {
            12u8
        } else {
            8u8
        },
{
    default_render_distance(target_64_bit)
}

/// Whether chunk writes are synchronous by default: everywhere but on
/// Windows.
pub fn default_sync_chunk_writes(windows: bool) -> (r: bool)
    ensures
        r == !windows,
{
    if windows {
        false
    } else {
        true
    }
}

} // verus!
