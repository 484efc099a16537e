use vstd::prelude::*;
use crate::bones::{all_bones, spec_all_bones, spec_toggle_bone, toggle_bone, Bones};
use crate::color::Color;

verus! {

/// How a hotkey drives a feature.
#[derive(Clone, Copy, Debug, PartialEq, Eq, Structural)]
pub enum KeyMode {
    Hold,
    Toggle,
}

/// How the aimbot picks among several targets.
#[derive(Clone, Copy, Debug, PartialEq, Eq, Structural)]
pub enum TargetingMode {
    Fov,
    Distance,
}

/// How the box around a player is drawn.
#[derive(Clone, Copy, Debug, PartialEq, Eq, Structural)]
pub enum DrawMode {
    Off,
    Health,
    Color,
}

/// Which aim settings a popup edits: the global ones or those of one weapon.
#[derive(Clone, Copy, Debug, PartialEq, Eq, Structural)]
pub enum AimbotTab {
    Global,
    Weapon,
}

/// Aimbot settings of one scope (global or one weapon); the settings held
/// in floating point (FOV, smoothing) are kept beside this by the front end.
#[derive(Clone, Debug)]
pub struct AimbotConfig {
    pub enabled: bool,
    pub enable_override: bool,
    pub mode: KeyMode,
    pub start_bullet: i32,
    pub target_friendlies: bool,
    pub distance_adjusted_fov: bool,
    pub visibility_check: bool,
    pub flash_check: bool,
    pub targeting_mode: TargetingMode,
    pub bones: Vec<Bones>,
}

/// Triggerbot settings of one scope; the delay is the range
/// `delay_start..=delay_end` in milliseconds.
#[derive(Clone, Debug)]
pub struct TriggerbotConfig {
    pub enabled: bool,
    pub enable_override: bool,
    pub delay_start: u64,
    pub delay_end: u64,
    pub mode: KeyMode,
    pub head_only: bool,
    pub flash_check: bool,
    pub scope_check: bool,
    pub velocity_check: bool,
}

/// Recoil control settings of one scope; the strengths, in floating point,
/// are kept beside this by the front end.
#[derive(Clone, Debug)]
pub struct RcsConfig {
    pub enabled: bool,
    pub enable_override: bool,
}

/// The aim settings of one scope.
#[derive(Clone, Debug)]
pub struct WeaponConfig {
    pub aimbot: AimbotConfig,
    pub triggerbot: TriggerbotConfig,
    pub rcs: RcsConfig,
}

/// All aim settings: the hotkeys (by the name of their key), the global
/// settings and one entry for each weapon, indexed by the weapon's slot.
#[derive(Clone, Debug)]
pub struct AimConfig {
    pub aimbot_hotkey: String,
    pub triggerbot_hotkey: String,
    pub global: WeaponConfig,
    pub weapons: Vec<WeaponConfig>,
}

/// Sound ESP settings.
#[derive(Clone, Debug)]
pub struct SoundConfig {
    pub enabled: bool,
    pub show_visible: bool,
}

/// Player ESP settings.
#[derive(Clone, Debug)]
pub struct PlayerConfig {
    pub enabled: bool,
    pub esp_hotkey: String,
    pub show_friendlies: bool,
    pub head_circle: bool,
    pub visible_only: bool,
    pub offscreen_arrows: bool,
    pub draw_box: DrawMode,
    pub health_bar: bool,
    pub armor_bar: bool,
    pub player_name: bool,
    pub weapon_icon: bool,
    pub tags: bool,
    pub sound: SoundConfig,
}

/// Sniper crosshair settings.
#[derive(Clone, Debug)]
pub struct SniperCrosshairConfig {
    pub enabled: bool,
}

/// HUD settings.
#[derive(Clone, Debug)]
pub struct HudConfig {
    pub bomb_timer: bool,
    pub fov_circle: bool,
    pub dropped_weapons: bool,
    pub keybind_list: bool,
    pub spectator_list: bool,
    pub grenade_trails: bool,
    pub grenade_predict: bool,
    pub text_outline: bool,
    pub sniper_crosshair: SniperCrosshairConfig,
}

/// Settings of the features that write to the game.
#[derive(Clone, Debug)]
pub struct MiscConfig {
    pub glow_enabled: bool,
    pub glow_color: Color,
    pub no_flash: bool,
    pub fov_changer: bool,
    pub desired_fov: u32,
    pub no_smoke: bool,
    pub change_smoke_color: bool,
}

/// The configuration the menu edits and sends to the game thread.
#[derive(Clone, Debug)]
pub struct Config {
    pub aim: AimConfig,
    pub player: PlayerConfig,
    pub hud: HudConfig,
    pub misc: MiscConfig,
    pub accent_color: Color,
}

/// The index of a key mode in the mode drop-down ("Hold", "Toggle").
pub open spec fn spec_key_mode_index(mode: KeyMode) -> nat {
    match mode {
        KeyMode::Hold => 0,
        KeyMode::Toggle => 1,
    }
}

/// The key mode chosen at an index of the mode drop-down.
pub open spec fn spec_key_mode_from_index(i: usize) -> KeyMode {
    if i == 0 {
        KeyMode::Hold
    } else {
        KeyMode::Toggle
    }
}

/// The index of a targeting mode in its drop-down ("FOV", "Distance").
pub open spec fn spec_targeting_mode_index(mode: TargetingMode) -> nat {
    match mode {
        TargetingMode::Fov => 0,
        TargetingMode::Distance => 1,
    }
}

/// The targeting mode chosen at an index of its drop-down.
pub open spec fn spec_targeting_mode_from_index(i: usize) -> TargetingMode {
    if i == 0 {
        TargetingMode::Fov
    } else {
        TargetingMode::Distance
    }
}

/// The index of a box mode in its drop-down ("None", "Health", "Color").
pub open spec fn spec_draw_mode_index(mode: DrawMode) -> nat {
    match mode {
        DrawMode::Off => 0,
        DrawMode::Health => 1,
        DrawMode::Color => 2,
    }
}

/// The box mode chosen at an index of its drop-down.
pub open spec fn spec_draw_mode_from_index(i: usize) -> DrawMode {
    if i == 0 {
        DrawMode::Off
    } else if i == 1 {
        DrawMode::Health
    } else {
        DrawMode::Color
    }
}

/// The index of a scope in the scope drop-down ("Global", "Per-Weapon").
pub open spec fn spec_scope_index(tab: AimbotTab) -> nat {
    match tab {
        AimbotTab::Global => 0,
        AimbotTab::Weapon => 1,
    }
}

/// The scope chosen at an index of the scope drop-down.
pub open spec fn spec_scope_from_index(i: usize) -> AimbotTab {
    if i == 0 {
        AimbotTab::Global
    } else {
        AimbotTab::Weapon
    }
}

/// The index of `mode` in the mode drop-down.
pub fn key_mode_index(mode: KeyMode) -> (i: usize)
    ensures
        i == spec_key_mode_index(mode),
{
    if mode == KeyMode::Hold {
        0
    } else {
        1
    }
}

/// The key mode picked at index `i` of the mode drop-down.
pub fn key_mode_from_index(i: usize) -> (mode: KeyMode)
    ensures
        mode == spec_key_mode_from_index(i),
{
    if i == 0 {
        KeyMode::Hold
    } else {
        KeyMode::Toggle
    }
}

/// The index of `mode` in the targeting drop-down.
pub fn targeting_mode_index(mode: TargetingMode) -> (i: usize)
    ensures
        i == spec_targeting_mode_index(mode),
{
    if mode == TargetingMode::Fov {
        0
    } else {
        1
    }
}

/// The targeting mode picked at index `i` of its drop-down.
pub fn targeting_mode_from_index(i: usize) -> (mode: TargetingMode)
    ensures
        mode == spec_targeting_mode_from_index(i),
{
    if i == 0 {
        TargetingMode::Fov
    } else {
        TargetingMode::Distance
    }
}

/// The index of `mode` in the box drop-down.
pub fn draw_mode_index(mode: DrawMode) -> (i: usize)
    ensures
        i == spec_draw_mode_index(mode),
{
    match mode {
        DrawMode::Off => 0,
        DrawMode::Health => 1,
        DrawMode::Color => 2,
    }
}

/// The box mode picked at index `i` of its drop-down.
pub fn draw_mode_from_index(i: usize) -> (mode: DrawMode)
    ensures
        mode == spec_draw_mode_from_index(i),
{
    match i {
        0 => DrawMode::Off,
        1 => DrawMode::Health,
        _ => DrawMode::Color,
    }
}

/// The index of `tab` in the scope drop-down.
pub fn scope_index(tab: AimbotTab) -> (i: usize)
    ensures
        i == spec_scope_index(tab),
{
    if tab == AimbotTab::Global {
        0
    } else {
        1
    }
}

/// The scope picked at index `i` of the scope drop-down.
pub fn scope_from_index(i: usize) -> (tab: AimbotTab)
    ensures
        tab == spec_scope_from_index(i),
{
    if i == 0 {
        AimbotTab::Global
    } else {
        AimbotTab::Weapon
    }
}

/// Each drop-down gives back the choice whose index it shows.
pub proof fn law_drop_down_round_trip(k: KeyMode, t: TargetingMode, d: DrawMode, s: AimbotTab)
    ensures
        spec_key_mode_from_index(spec_key_mode_index(k) as usize) == k,
        spec_targeting_mode_from_index(spec_targeting_mode_index(t) as usize) == t,
        spec_draw_mode_from_index(spec_draw_mode_index(d) as usize) == d,
        spec_scope_from_index(spec_scope_index(s) as usize) == s,
{
}


/// Each drop-down lists its choices in the order they are declared (Hold,
/// Toggle; FOV, Distance; None, Health, Color; Global, Per-Weapon): a
/// choice's index is its declaration position, and picking an index gives
/// the choice declared there, the last one for any later index.
pub proof fn law_drop_down_positions(k: KeyMode, t: TargetingMode, d: DrawMode, s: AimbotTab, i: usize)
    ensures
        spec_key_mode_index(k) == k as int,
        spec_targeting_mode_index(t) == t as int,
        spec_draw_mode_index(d) == d as int,
        spec_scope_index(s) == s as int,
        spec_key_mode_from_index(i) as int == if i < 1 { i as int } else { 1 },
        spec_targeting_mode_from_index(i) as int == if i < 1 { i as int } else { 1 },
        spec_draw_mode_from_index(i) as int == if i < 2 { i as int } else { 2 },
        spec_scope_from_index(i) as int == if i < 1 { i as int } else { 1 },
{
}

/// The triggerbot delay as the editor stores it: the two ends in order.
pub open spec fn spec_normalize_delay(start: u64, end: u64) -> (u64, u64) {
    if start > end {
        (end, start)
    } else {
        (start, end)
    }
}

/// Orders the two ends of an edited delay range.
pub fn normalize_delay(start: u64, end: u64) -> (r: (u64, u64))
    ensures
        r == spec_normalize_delay(start, end),
{
    let mut start = start;
    let mut end = end;
    if start > end {
        std::mem::swap(&mut start, &mut end);
    }
    (start, end)
}

/// The stored delay range is never empty, holds the two edited ends, and
/// storing it again changes nothing.
pub proof fn law_normalize_delay(start: u64, end: u64)
    ensures
        spec_normalize_delay(start, end).0 <= spec_normalize_delay(start, end).1,
        (spec_normalize_delay(start, end) == (start, end) || spec_normalize_delay(start, end) == (end, start)),
        spec_normalize_delay(spec_normalize_delay(start, end).0, spec_normalize_delay(start, end).1)
            == spec_normalize_delay(start, end),
{
}

/// Of a global value and one value for each weapon slot, the one that the
/// scope `tab` with the weapon slot `weapon` selects, to be changed in place.
pub fn select_scope_mut<'a, T>(tab: AimbotTab, weapon: usize, global: &'a mut T, weapons: &'a mut Vec<T>) -> (v: &'a mut T)
    requires
        tab == AimbotTab::Weapon ==> weapon < old(weapons)@.len(),
    ensures
        tab == AimbotTab::Weapon ==> *v == old(weapons)@[weapon as int] && *final(global) == *old(global)
            && final(weapons)@ == old(weapons)@.update(weapon as int, *final(v)),
        tab != AimbotTab::Weapon ==> *v == *old(global) && *final(global) == *final(v) && final(weapons)@
            == old(weapons)@,
{
    if tab == AimbotTab::Weapon {
        &mut weapons[weapon]
    } else {
        global
    }
}

impl AimConfig {
    /// The scope a popup edits is known: a weapon slot exists where the
    /// per-weapon scope is chosen.
    pub open spec fn scope_exists(&self, tab: AimbotTab, weapon: usize) -> bool {
        tab == AimbotTab::Weapon ==> weapon < self.weapons@.len()
    }

    /// The settings a popup edits: those of the weapon in the per-weapon
    /// scope, the global ones otherwise.
    pub open spec fn spec_scoped(&self, tab: AimbotTab, weapon: usize) -> WeaponConfig {
        if tab == AimbotTab::Weapon {
            self.weapons@[weapon as int]
        } else {
            self.global
        }
    }

    /// The settings the popup for `tab` and `weapon` edits.
    pub fn scoped(&self, tab: AimbotTab, weapon: usize) -> (cfg: &WeaponConfig)
        requires
            self.scope_exists(tab, weapon),
        ensures
            *cfg == self.spec_scoped(tab, weapon),
    {
        if tab == AimbotTab::Weapon {
            &self.weapons[weapon]
        } else {
            &self.global
        }
    }


    /// The settings the popup for `tab` and `weapon` edits, to be changed in
    /// place: whatever is written through the result lands in that scope,
    /// and nothing else changes.
    pub fn scoped_mut(&mut self, tab: AimbotTab, weapon: usize) -> (cfg: &mut WeaponConfig)
        requires
            old(self).scope_exists(tab, weapon),
        ensures
            *cfg == old(self).spec_scoped(tab, weapon),
            final(self).aimbot_hotkey == old(self).aimbot_hotkey,
            final(self).triggerbot_hotkey == old(self).triggerbot_hotkey,
            tab == AimbotTab::Weapon ==> final(self).global == old(self).global && final(self).weapons@
                == old(self).weapons@.update(weapon as int, *final(cfg)),
            tab != AimbotTab::Weapon ==> final(self).global == *final(cfg) && final(self).weapons@
                == old(self).weapons@,
    {
        select_scope_mut(tab, weapon, &mut self.global, &mut self.weapons)
    }

    /// A click on `bone` in the bone selector of the scope for `tab` and
    /// `weapon`: only that scope's bone list changes.
    pub fn toggle_scoped_bone(&mut self, tab: AimbotTab, weapon: usize, bone: Bones)
        requires
            old(self).scope_exists(tab, weapon),
        ensures
            final(self).spec_scoped(tab, weapon).aimbot.bones@ == spec_toggle_bone(
                old(self).spec_scoped(tab, weapon).aimbot.bones@,
                bone,
            ),
            final(self).scope_exists(tab, weapon),
            final(self).only_bones_changed(*old(self), tab, weapon),
    {
        if tab == AimbotTab::Weapon {
            let mut cfg = self.global.clone();
            self.weapons.set_and_swap(weapon, &mut cfg);
            toggle_bone(&mut cfg.aimbot.bones, bone);
            self.weapons.set(weapon, cfg);
        } else {
            toggle_bone(&mut self.global.aimbot.bones, bone);
        }
    }

    /// "All" in the bone selector of a scope: every bone, in layout order.
    pub fn select_all_scoped_bones(&mut self, tab: AimbotTab, weapon: usize)
        requires
            old(self).scope_exists(tab, weapon),
        ensures
            final(self).spec_scoped(tab, weapon).aimbot.bones@ == spec_all_bones(),
            final(self).scope_exists(tab, weapon),
            final(self).only_bones_changed(*old(self), tab, weapon),
    {
        if tab == AimbotTab::Weapon {
            let mut cfg = self.global.clone();
            self.weapons.set_and_swap(weapon, &mut cfg);
            cfg.aimbot.bones = all_bones();
            self.weapons.set(weapon, cfg);
        } else {
            self.global.aimbot.bones = all_bones();
        }
    }

    /// "None" in the bone selector of a scope: no bone.
    pub fn clear_scoped_bones(&mut self, tab: AimbotTab, weapon: usize)
        requires
            old(self).scope_exists(tab, weapon),
        ensures
            final(self).spec_scoped(tab, weapon).aimbot.bones@ == Seq::<Bones>::empty(),
            final(self).scope_exists(tab, weapon),
            final(self).only_bones_changed(*old(self), tab, weapon),
    {
        if tab == AimbotTab::Weapon {
            let mut cfg = self.global.clone();
            self.weapons.set_and_swap(weapon, &mut cfg);
            cfg.aimbot.bones.clear();
            self.weapons.set(weapon, cfg);
        } else {
            self.global.aimbot.bones.clear();
        }
    }

    /// Compared with `before`, nothing but the bone list of the scope for
    /// `tab` and `weapon` differs.
    pub open spec fn only_bones_changed(&self, before: AimConfig, tab: AimbotTab, weapon: usize) -> bool {
        &&& self.aimbot_hotkey@ == before.aimbot_hotkey@
        &&& self.triggerbot_hotkey@ == before.triggerbot_hotkey@
        &&& self.weapons@.len() == before.weapons@.len()
        &&& forall|i: int|
            0 <= i < self.weapons@.len() && !(tab == AimbotTab::Weapon && i == weapon) ==> #[trigger] self.weapons@[i]
                == before.weapons@[i]
        &&& (tab == AimbotTab::Weapon ==> self.global == before.global)
        &&& same_but_bones(self.spec_scoped(tab, weapon), before.spec_scoped(tab, weapon))
    }
}

/// The two scopes' settings agree on everything but the bone list.
pub open spec fn same_but_bones(a: WeaponConfig, b: WeaponConfig) -> bool {
    &&& a.triggerbot == b.triggerbot
    &&& a.rcs == b.rcs
    &&& a.aimbot.enabled == b.aimbot.enabled
    &&& a.aimbot.enable_override == b.aimbot.enable_override
    &&& a.aimbot.mode == b.aimbot.mode
    &&& a.aimbot.start_bullet == b.aimbot.start_bullet
    &&& a.aimbot.target_friendlies == b.aimbot.target_friendlies
    &&& a.aimbot.distance_adjusted_fov == b.aimbot.distance_adjusted_fov
    &&& a.aimbot.visibility_check == b.aimbot.visibility_check
    &&& a.aimbot.flash_check == b.aimbot.flash_check
    &&& a.aimbot.targeting_mode == b.aimbot.targeting_mode
}

} // verus!
