use vstd::prelude::*;
use crate::config::{
    AimConfig, AimbotConfig, Config, HudConfig, MiscConfig, PlayerConfig, RcsConfig,
    SniperCrosshairConfig, SoundConfig, TriggerbotConfig, WeaponConfig,
};

verus! {

/// The tabs of the menu, in the order of the tab bar.
#[derive(Clone, Copy, Debug, PartialEq, Eq, Structural)]
pub enum Tab {
    Aim,
    Player,
    HUD,
    Misc,
}

/// The features of the menu, each shown as a card in one tab.
#[derive(Clone, Copy, Debug, PartialEq, Eq, Hash, Structural)]
pub enum ModuleId {
    Aimbot,
    Triggerbot,
    Rcs,
    PlayerEsp,
    SoundEsp,
    Hud,
    BombTimer,
    FovCircle,
    SniperCrosshair,
    GrenadeTrails,
    Glow,
    NoFlash,
    FovChanger,
    NoSmoke,
}

/// Every tab, in the order of the tab bar.
pub open spec fn spec_tabs() -> Seq<Tab> {
    seq![Tab::Aim, Tab::Player, Tab::HUD, Tab::Misc]
}

/// A tab's label.
pub open spec fn spec_tab_name(tab: Tab) -> Seq<char> {
    match tab {
        Tab::Aim => "Aim"@,
        Tab::Player => "Player"@,
        Tab::HUD => "HUD"@,
        Tab::Misc => "Misc"@,
    }
}

/// A tab's position in the tab bar.
pub open spec fn spec_tab_index(tab: Tab) -> nat {
    match tab {
        Tab::Aim => 0,
        Tab::Player => 1,
        Tab::HUD => 2,
        Tab::Misc => 3,
    }
}

/// The modules whose cards a tab shows, in order.
pub open spec fn spec_tab_modules(tab: Tab) -> Seq<ModuleId> {
    match tab {
        Tab::Aim => seq![ModuleId::Aimbot, ModuleId::Triggerbot, ModuleId::Rcs],
        Tab::Player => seq![ModuleId::PlayerEsp, ModuleId::SoundEsp],
        Tab::HUD => seq![ModuleId::Hud, ModuleId::BombTimer, ModuleId::SniperCrosshair],
        Tab::Misc => seq![ModuleId::GrenadeTrails, ModuleId::FovCircle, ModuleId::Glow, ModuleId::NoFlash, ModuleId::FovChanger, ModuleId::NoSmoke],
    }
}

/// The tab that shows a module's card.
pub open spec fn spec_module_tab(id: ModuleId) -> Tab {
    match id {
        ModuleId::Aimbot => Tab::Aim,
        ModuleId::Triggerbot => Tab::Aim,
        ModuleId::Rcs => Tab::Aim,
        ModuleId::PlayerEsp => Tab::Player,
        ModuleId::SoundEsp => Tab::Player,
        ModuleId::Hud => Tab::HUD,
        ModuleId::BombTimer => Tab::HUD,
        ModuleId::SniperCrosshair => Tab::HUD,
        ModuleId::GrenadeTrails => Tab::Misc,
        ModuleId::FovCircle => Tab::Misc,
        ModuleId::Glow => Tab::Misc,
        ModuleId::NoFlash => Tab::Misc,
        ModuleId::FovChanger => Tab::Misc,
        ModuleId::NoSmoke => Tab::Misc,
    }
}

/// The name a module's card and popup are shown under.
pub open spec fn spec_module_display_name(id: ModuleId) -> Seq<char> {
    match id {
        ModuleId::Aimbot => "AimBot"@,
        ModuleId::Triggerbot => "Triggerbot"@,
        ModuleId::Rcs => "RCS"@,
        ModuleId::PlayerEsp => "ESP"@,
        ModuleId::SoundEsp => "Sound ESP"@,
        ModuleId::Hud => "HUD"@,
        ModuleId::BombTimer => "Bomb Timer"@,
        ModuleId::FovCircle => "FOV Circle"@,
        ModuleId::SniperCrosshair => "Sniper Crosshair"@,
        ModuleId::GrenadeTrails => "Grenade Trails"@,
        ModuleId::Glow => "Glow"@,
        ModuleId::NoFlash => "No Flash"@,
        ModuleId::FovChanger => "FOV Changer"@,
        ModuleId::NoSmoke => "No Smoke"@,
    }
}

/// Whether a module is switched on in a configuration; the HUD card is
/// always on.
pub open spec fn spec_module_enabled(c: Config, id: ModuleId) -> bool {
    match id {
        ModuleId::Aimbot => c.aim.global.aimbot.enabled,
        ModuleId::Triggerbot => c.aim.global.triggerbot.enabled,
        ModuleId::Rcs => c.aim.global.rcs.enabled,
        ModuleId::PlayerEsp => c.player.enabled,
        ModuleId::SoundEsp => c.player.sound.enabled,
        ModuleId::Hud => true,
        ModuleId::BombTimer => c.hud.bomb_timer,
        ModuleId::FovCircle => c.hud.fov_circle,
        ModuleId::SniperCrosshair => c.hud.sniper_crosshair.enabled,
        ModuleId::GrenadeTrails => c.hud.grenade_trails,
        ModuleId::Glow => c.misc.glow_enabled,
        ModuleId::NoFlash => c.misc.no_flash,
        ModuleId::FovChanger => c.misc.fov_changer,
        ModuleId::NoSmoke => c.misc.no_smoke,
    }
}

/// The aim settings after a click on the card of an aim module.
pub open spec fn spec_toggle_aim(a: AimConfig, id: ModuleId) -> AimConfig {
    let g = a.global;
    match id {
        ModuleId::Aimbot => AimConfig {
            global: WeaponConfig { aimbot: AimbotConfig { enabled: !g.aimbot.enabled, ..g.aimbot }, ..g },
            ..a
        },
        ModuleId::Triggerbot => AimConfig {
            global: WeaponConfig {
                triggerbot: TriggerbotConfig { enabled: !g.triggerbot.enabled, ..g.triggerbot },
                ..g
            },
            ..a
        },
        _ => AimConfig {
            global: WeaponConfig { rcs: RcsConfig { enabled: !g.rcs.enabled, ..g.rcs }, ..g },
            ..a
        },
    }
}

/// The player settings after a click on the card of an ESP module.
pub open spec fn spec_toggle_player(p: PlayerConfig, id: ModuleId) -> PlayerConfig {
    match id {
        ModuleId::PlayerEsp => PlayerConfig { enabled: !p.enabled, ..p },
        _ => PlayerConfig { sound: SoundConfig { enabled: !p.sound.enabled, ..p.sound }, ..p },
    }
}

/// The HUD settings after a click on the card of a HUD module.
pub open spec fn spec_toggle_hud(h: HudConfig, id: ModuleId) -> HudConfig {
    match id {
        ModuleId::BombTimer => HudConfig { bomb_timer: !h.bomb_timer, ..h },
        ModuleId::FovCircle => HudConfig { fov_circle: !h.fov_circle, ..h },
        ModuleId::SniperCrosshair => HudConfig {
            sniper_crosshair: SniperCrosshairConfig { enabled: !h.sniper_crosshair.enabled },
            ..h
        },
        _ => HudConfig { grenade_trails: !h.grenade_trails, ..h },
    }
}

/// The settings of the game-writing features after a click on one's card.
pub open spec fn spec_toggle_misc(m: MiscConfig, id: ModuleId) -> MiscConfig {
    match id {
        ModuleId::Glow => MiscConfig { glow_enabled: !m.glow_enabled, ..m },
        ModuleId::NoFlash => MiscConfig { no_flash: !m.no_flash, ..m },
        ModuleId::FovChanger => MiscConfig { fov_changer: !m.fov_changer, ..m },
        _ => MiscConfig { no_smoke: !m.no_smoke, ..m },
    }
}

/// The configuration after a click on a module's card: the module's switch
/// flipped, the rest as it was; the HUD card has no switch.
pub open spec fn spec_toggle_module(c: Config, id: ModuleId) -> Config {
    match id {
        ModuleId::Aimbot | ModuleId::Triggerbot | ModuleId::Rcs => Config { aim: spec_toggle_aim(c.aim, id), ..c },
        ModuleId::PlayerEsp | ModuleId::SoundEsp => Config { player: spec_toggle_player(c.player, id), ..c },
        ModuleId::Hud => c,
        ModuleId::BombTimer | ModuleId::FovCircle | ModuleId::SniperCrosshair | ModuleId::GrenadeTrails => Config {
            hud: spec_toggle_hud(c.hud, id),
            ..c
        },
        _ => Config { misc: spec_toggle_misc(c.misc, id), ..c },
    }
}

/// Whether a module's card shows the key bound to it.
pub open spec fn has_keybind(id: ModuleId) -> bool {
    id == ModuleId::Aimbot || id == ModuleId::Triggerbot || id == ModuleId::PlayerEsp
}

/// The name of the key bound to a module, for the modules that have one.
pub open spec fn spec_module_keybind(c: Config, id: ModuleId) -> Seq<char> {
    match id {
        ModuleId::Aimbot => c.aim.aimbot_hotkey@,
        ModuleId::Triggerbot => c.aim.triggerbot_hotkey@,
        _ => c.player.esp_hotkey@,
    }
}

/// The tabs with their labels, in the order of the tab bar.
pub fn tab_names() -> (v: &'static [(Tab, &'static str)])
    ensures
        v@.len() == 4,
        forall|i: int| 0 <= i < 4 ==> (#[trigger] v@[i]).0 == spec_tabs()[i] && v@[i].1@ == spec_tab_name(v@[i].0),
{
    &[(Tab::Aim, "Aim"), (Tab::Player, "Player"), (Tab::HUD, "HUD"), (Tab::Misc, "Misc")]
}

/// The position of `tab` in the tab bar, where its underline is drawn.
pub fn tab_index(tab: Tab) -> (i: usize)
    ensures
        i == spec_tab_index(tab),
        i < 4,
        spec_tabs()[i as int] == tab,
{
    match tab {
        Tab::Aim => 0,
        Tab::Player => 1,
        Tab::HUD => 2,
        Tab::Misc => 3,
    }
}

/// The cards a tab shows, each module with its name, in order.
pub fn tab_modules(tab: &Tab) -> (v: &'static [(ModuleId, &'static str)])
    ensures
        v@.len() == spec_tab_modules(*tab).len(),
        forall|i: int|
            0 <= i < v@.len() ==> (#[trigger] v@[i]).0 == spec_tab_modules(*tab)[i] && v@[i].1@
                == spec_module_display_name(v@[i].0),
{
    match tab {
        Tab::Aim => &[(ModuleId::Aimbot, "AimBot"), (ModuleId::Triggerbot, "Triggerbot"), (ModuleId::Rcs, "RCS")],
        Tab::Player => &[(ModuleId::PlayerEsp, "ESP"), (ModuleId::SoundEsp, "Sound ESP")],
        Tab::HUD => &[
            (ModuleId::Hud, "HUD"),
            (ModuleId::BombTimer, "Bomb Timer"),
            (ModuleId::SniperCrosshair, "Sniper Crosshair"),
        ],
        Tab::Misc => &[
            (ModuleId::GrenadeTrails, "Grenade Trails"),
            (ModuleId::FovCircle, "FOV Circle"),
            (ModuleId::Glow, "Glow"),
            (ModuleId::NoFlash, "No Flash"),
            (ModuleId::FovChanger, "FOV Changer"),
            (ModuleId::NoSmoke, "No Smoke"),
        ],
    }
}

/// A place in the grid of module cards: a card, or an empty place where the
/// card of a detached module would be.
#[derive(Clone, Copy, Debug, PartialEq, Eq, Structural)]
pub enum CardSlot {
    Card(ModuleId),
    Placeholder,
}

/// The place of a module's card in the grid.
pub open spec fn spec_card_slot(id: ModuleId, detached: Option<ModuleId>) -> CardSlot {
    if detached == Some(id) {
        CardSlot::Placeholder
    } else {
        CardSlot::Card(id)
    }
}

/// The grid of cards a tab shows, three to a row in the tab's order; the
/// detached module's card is left out, its place kept empty.
pub fn card_grid(tab: Tab, detached: Option<ModuleId>) -> (rows: Vec<Vec<CardSlot>>)
    ensures
        rows@.len() == (spec_tab_modules(tab).len() + 2) / 3,
        forall|r: int|
            0 <= r < rows@.len() ==> (#[trigger] rows@[r])@.len() == if spec_tab_modules(tab).len() - 3 * r
                >= 3 {
                3
            } else {
                spec_tab_modules(tab).len() - 3 * r
            },
        forall|r: int, c: int|
            0 <= r < rows@.len() && 0 <= c < rows@[r]@.len() ==> #[trigger] rows@[r]@[c] == spec_card_slot(
                spec_tab_modules(tab)[3 * r + c],
                detached,
            ),
        forall|r: int, c: int|
            0 <= r < rows@.len() && 0 <= c < rows@[r]@.len() ==> (#[trigger] rows@[r]@[c] == CardSlot::Placeholder
                <==> detached == Some(spec_tab_modules(tab)[3 * r + c])) && (detached != Some(
                spec_tab_modules(tab)[3 * r + c],
            ) ==> rows@[r]@[c] == CardSlot::Card(spec_tab_modules(tab)[3 * r + c])),
{
    let modules = tab_modules(&tab);
    let ghost m = spec_tab_modules(tab);
    let n = modules.len();
    let mut rows: Vec<Vec<CardSlot>> = Vec::new();
    let mut i: usize = 0;
    while i < n
        invariant
            n == modules@.len(),
            n == m.len(),
            n <= 6,
            forall|k: int| 0 <= k < n ==> (#[trigger] modules@[k]).0 == m[k],
            i % 3 == 0,
            i <= n + 2,
            rows@.len() == i / 3,
            i < n ==> rows@.len() * 3 == i,
            i >= n ==> rows@.len() == (n + 2) / 3,
            forall|r: int|
                0 <= r < rows@.len() ==> (#[trigger] rows@[r])@.len() == if n - 3 * r >= 3 {
                    3
                } else {
                    n - 3 * r
                },
            forall|r: int, c: int|
                0 <= r < rows@.len() && 0 <= c < rows@[r]@.len() ==> #[trigger] rows@[r]@[c] == spec_card_slot(
                    m[3 * r + c],
                    detached,
                ),
        decreases n + 2 - i,
    {
        let mut row: Vec<CardSlot> = Vec::new();
        let mut k: usize = 0;
        while k < 3
            invariant
                n == modules@.len(),
                n == m.len(),
                n <= 6,
                i < n,
                forall|j: int| 0 <= j < n ==> (#[trigger] modules@[j]).0 == m[j],
                k <= 3,
                row@.len() == if n - i >= k {
                    k as int
                } else {
                    n - i
                },
                forall|c: int| 0 <= c < row@.len() ==> #[trigger] row@[c] == spec_card_slot(m[i + c], detached),
            decreases 3 - k,
        {
            if i + k < n {
                let id = modules[i + k].0;
                let slot = if detached == Some(id) {
                    CardSlot::Placeholder
                } else {
                    CardSlot::Card(id)
                };
                row.push(slot);
            }
            k = k + 1;
        }
        rows.push(row);
        i = i + 3;
    }
    assert forall|r: int, c: int| 0 <= r < rows@.len() && 0 <= c < rows@[r]@.len() implies (#[trigger] rows@[r]@[c]
        == CardSlot::Placeholder <==> detached == Some(m[3 * r + c])) && (detached != Some(m[3 * r + c])
        ==> rows@[r]@[c] == CardSlot::Card(m[3 * r + c])) by {
        law_card_slot(m[3 * r + c], detached);
    }
    rows
}

/// Whether the card of `id` is shown as switched on.
pub fn module_enabled(config: &Config, id: ModuleId) -> (b: bool)
    ensures
        b == spec_module_enabled(*config, id),
{
    match id {
        ModuleId::Aimbot => config.aim.global.aimbot.enabled,
        ModuleId::Triggerbot => config.aim.global.triggerbot.enabled,
        ModuleId::Rcs => config.aim.global.rcs.enabled,
        ModuleId::PlayerEsp => config.player.enabled,
        ModuleId::SoundEsp => config.player.sound.enabled,
        ModuleId::Hud => true,
        ModuleId::BombTimer => config.hud.bomb_timer,
        ModuleId::FovCircle => config.hud.fov_circle,
        ModuleId::SniperCrosshair => config.hud.sniper_crosshair.enabled,
        ModuleId::GrenadeTrails => config.hud.grenade_trails,
        ModuleId::Glow => config.misc.glow_enabled,
        ModuleId::NoFlash => config.misc.no_flash,
        ModuleId::FovChanger => config.misc.fov_changer,
        ModuleId::NoSmoke => config.misc.no_smoke,
    }
}

fn toggle_aim(aim: &mut AimConfig, id: ModuleId)
    requires
        id == ModuleId::Aimbot || id == ModuleId::Triggerbot || id == ModuleId::Rcs,
    ensures
        *final(aim) == spec_toggle_aim(*old(aim), id),
{
    match id {
        ModuleId::Aimbot => {
            aim.global.aimbot.enabled = !aim.global.aimbot.enabled;
        },
        ModuleId::Triggerbot => {
            aim.global.triggerbot.enabled = !aim.global.triggerbot.enabled;
        },
        _ => {
            aim.global.rcs.enabled = !aim.global.rcs.enabled;
        },
    }
}

fn toggle_player(player: &mut PlayerConfig, id: ModuleId)
    ensures
        *final(player) == spec_toggle_player(*old(player), id),
{
    match id {
        ModuleId::PlayerEsp => {
            player.enabled = !player.enabled;
        },
        _ => {
            player.sound.enabled = !player.sound.enabled;
        },
    }
}

fn toggle_hud(hud: &mut HudConfig, id: ModuleId)
    ensures
        *final(hud) == spec_toggle_hud(*old(hud), id),
{
    match id {
        ModuleId::BombTimer => {
            hud.bomb_timer = !hud.bomb_timer;
        },
        ModuleId::FovCircle => {
            hud.fov_circle = !hud.fov_circle;
        },
        ModuleId::SniperCrosshair => {
            hud.sniper_crosshair.enabled = !hud.sniper_crosshair.enabled;
        },
        _ => {
            hud.grenade_trails = !hud.grenade_trails;
        },
    }
}

fn toggle_misc(misc: &mut MiscConfig, id: ModuleId)
    ensures
        *final(misc) == spec_toggle_misc(*old(misc), id),
{
    match id {
        ModuleId::Glow => {
            misc.glow_enabled = !misc.glow_enabled;
        },
        ModuleId::NoFlash => {
            misc.no_flash = !misc.no_flash;
        },
        ModuleId::FovChanger => {
            misc.fov_changer = !misc.fov_changer;
        },
        _ => {
            misc.no_smoke = !misc.no_smoke;
        },
    }
}

/// A click on the card of `id`: flips the module's switch.
pub fn toggle_module(config: &mut Config, id: ModuleId)
    ensures
        *final(config) == spec_toggle_module(*old(config), id),
{
    match id {
        ModuleId::Aimbot | ModuleId::Triggerbot | ModuleId::Rcs => toggle_aim(&mut config.aim, id),
        ModuleId::PlayerEsp | ModuleId::SoundEsp => toggle_player(&mut config.player, id),
        ModuleId::Hud => {},
        ModuleId::BombTimer | ModuleId::FovCircle | ModuleId::SniperCrosshair | ModuleId::GrenadeTrails => {
            toggle_hud(&mut config.hud, id)
        },
        _ => toggle_misc(&mut config.misc, id),
    }
}

/// The name of the key bound to `id`, shown on its card, for the modules
/// that have a hotkey.
pub fn module_keybind(config: &Config, id: ModuleId) -> (k: Option<String>)
    ensures
        k is Some <==> has_keybind(id),
        k matches Some(s) ==> s@ == spec_module_keybind(*config, id),
{
    match id {
        ModuleId::Aimbot => Some(config.aim.aimbot_hotkey.clone()),
        ModuleId::Triggerbot => Some(config.aim.triggerbot_hotkey.clone()),
        ModuleId::PlayerEsp => Some(config.player.esp_hotkey.clone()),
        _ => None,
    }
}

/// The name shown on the card and popup of `id`.
pub fn module_display_name(id: ModuleId) -> (s: &'static str)
    ensures
        s@ == spec_module_display_name(id),
{
    match id {
        ModuleId::Aimbot => "AimBot",
        ModuleId::Triggerbot => "Triggerbot",
        ModuleId::Rcs => "RCS",
        ModuleId::PlayerEsp => "ESP",
        ModuleId::SoundEsp => "Sound ESP",
        ModuleId::Hud => "HUD",
        ModuleId::BombTimer => "Bomb Timer",
        ModuleId::FovCircle => "FOV Circle",
        ModuleId::SniperCrosshair => "Sniper Crosshair",
        ModuleId::GrenadeTrails => "Grenade Trails",
        ModuleId::Glow => "Glow",
        ModuleId::NoFlash => "No Flash",
        ModuleId::FovChanger => "FOV Changer",
        ModuleId::NoSmoke => "No Smoke",
    }
}


proof fn lemma_toggle_aim_twice(a: AimConfig, id: ModuleId)
    ensures
        spec_toggle_aim(spec_toggle_aim(a, id), id) == a,
{
    let t = spec_toggle_aim(spec_toggle_aim(a, id), id);
    if id == ModuleId::Aimbot {
        assert(t.global.aimbot == a.global.aimbot);
    } else if id == ModuleId::Triggerbot {
        assert(t.global.triggerbot == a.global.triggerbot);
    } else {
        assert(t.global.rcs == a.global.rcs);
    }
    assert(t.global == a.global);
}

proof fn lemma_toggle_player_twice(p: PlayerConfig, id: ModuleId)
    ensures
        spec_toggle_player(spec_toggle_player(p, id), id) == p,
{
    let t = spec_toggle_player(spec_toggle_player(p, id), id);
    assert(t.sound == p.sound);
}

proof fn lemma_toggle_hud_twice(h: HudConfig, id: ModuleId)
    ensures
        spec_toggle_hud(spec_toggle_hud(h, id), id) == h,
{
    let t = spec_toggle_hud(spec_toggle_hud(h, id), id);
    assert(t.sniper_crosshair == h.sniper_crosshair);
}

/// Two clicks on the same card give back the configuration as it was.
#[verifier::spinoff_prover]
pub proof fn law_toggle_module_twice(c: Config, id: ModuleId)
    ensures
        spec_toggle_module(spec_toggle_module(c, id), id) == c,
{
    match id {
        ModuleId::Aimbot | ModuleId::Triggerbot | ModuleId::Rcs => {
            lemma_toggle_aim_twice(c.aim, id);
        },
        ModuleId::PlayerEsp | ModuleId::SoundEsp => {
            lemma_toggle_player_twice(c.player, id);
        },
        ModuleId::Hud => {},
        ModuleId::BombTimer | ModuleId::FovCircle | ModuleId::SniperCrosshair | ModuleId::GrenadeTrails => {
            lemma_toggle_hud_twice(c.hud, id);
        },
        _ => {
            assert(spec_toggle_misc(spec_toggle_misc(c.misc, id), id) == c.misc);
        },
    }
}

/// A click on a card flips that module's switch; the HUD card stays on and
/// its click changes nothing.
pub proof fn law_toggle_module_flips(c: Config, id: ModuleId)
    ensures
        id != ModuleId::Hud ==> spec_module_enabled(spec_toggle_module(c, id), id) == !spec_module_enabled(c, id),
        spec_module_enabled(c, ModuleId::Hud),
        spec_toggle_module(c, ModuleId::Hud) == c,
{
}

/// A click on one card leaves every other module's switch as it was.
pub proof fn law_toggle_module_isolated(c: Config, id: ModuleId, other: ModuleId)
    requires
        other != id,
    ensures
        spec_module_enabled(spec_toggle_module(c, id), other) == spec_module_enabled(c, other),
{
}

/// A click on a card changes no hotkey.
pub proof fn law_toggle_module_keeps_keybinds(c: Config, id: ModuleId, other: ModuleId)
    ensures
        spec_module_keybind(spec_toggle_module(c, id), other) == spec_module_keybind(c, other),
{
}

/// Every module has its card in exactly one tab, once.
pub proof fn law_module_in_one_tab(id: ModuleId, tab: Tab)
    ensures
        spec_tab_modules(tab).contains(id) <==> spec_module_tab(id) == tab,
        forall|i: int, j: int|
            0 <= i < j < spec_tab_modules(tab).len() ==> spec_tab_modules(tab)[i] != spec_tab_modules(tab)[j],
{
    let s = spec_tab_modules(tab);
    if spec_module_tab(id) == tab {
        assert(exists|k: int| 0 <= k < s.len() && s[k] == id) by {
            match id {
                ModuleId::Aimbot => assert(s[0] == id),
                ModuleId::Triggerbot => assert(s[1] == id),
                ModuleId::Rcs => assert(s[2] == id),
                ModuleId::PlayerEsp => assert(s[0] == id),
                ModuleId::SoundEsp => assert(s[1] == id),
                ModuleId::Hud => assert(s[0] == id),
                ModuleId::BombTimer => assert(s[1] == id),
                ModuleId::SniperCrosshair => assert(s[2] == id),
                ModuleId::GrenadeTrails => assert(s[0] == id),
                ModuleId::FovCircle => assert(s[1] == id),
                ModuleId::Glow => assert(s[2] == id),
                ModuleId::NoFlash => assert(s[3] == id),
                ModuleId::FovChanger => assert(s[4] == id),
                ModuleId::NoSmoke => assert(s[5] == id),
            }
        }
    }
    if s.contains(id) {
        let k = choose|k: int| 0 <= k < s.len() && s[k] == id;
        assert(spec_module_tab(s[k]) == tab);
    }
}


/// Each card shows and switches the setting it is named for: the card of a
/// module reads that module's own field of the configuration, and a click
/// on it negates exactly that field (every other module's field is kept,
/// by `law_toggle_module_isolated`).
pub proof fn law_module_fields(c: Config)
    ensures
        spec_module_enabled(c, ModuleId::Aimbot) == c.aim.global.aimbot.enabled,
        spec_toggle_module(c, ModuleId::Aimbot).aim.global.aimbot.enabled == !c.aim.global.aimbot.enabled,
        spec_module_enabled(c, ModuleId::Triggerbot) == c.aim.global.triggerbot.enabled,
        spec_toggle_module(c, ModuleId::Triggerbot).aim.global.triggerbot.enabled == !c.aim.global.triggerbot.enabled,
        spec_module_enabled(c, ModuleId::Rcs) == c.aim.global.rcs.enabled,
        spec_toggle_module(c, ModuleId::Rcs).aim.global.rcs.enabled == !c.aim.global.rcs.enabled,
        spec_module_enabled(c, ModuleId::PlayerEsp) == c.player.enabled,
        spec_toggle_module(c, ModuleId::PlayerEsp).player.enabled == !c.player.enabled,
        spec_module_enabled(c, ModuleId::SoundEsp) == c.player.sound.enabled,
        spec_toggle_module(c, ModuleId::SoundEsp).player.sound.enabled == !c.player.sound.enabled,
        spec_module_enabled(c, ModuleId::BombTimer) == c.hud.bomb_timer,
        spec_toggle_module(c, ModuleId::BombTimer).hud.bomb_timer == !c.hud.bomb_timer,
        spec_module_enabled(c, ModuleId::FovCircle) == c.hud.fov_circle,
        spec_toggle_module(c, ModuleId::FovCircle).hud.fov_circle == !c.hud.fov_circle,
        spec_module_enabled(c, ModuleId::SniperCrosshair) == c.hud.sniper_crosshair.enabled,
        spec_toggle_module(c, ModuleId::SniperCrosshair).hud.sniper_crosshair.enabled == !c.hud.sniper_crosshair.enabled,
        spec_module_enabled(c, ModuleId::GrenadeTrails) == c.hud.grenade_trails,
        spec_toggle_module(c, ModuleId::GrenadeTrails).hud.grenade_trails == !c.hud.grenade_trails,
        spec_module_enabled(c, ModuleId::Glow) == c.misc.glow_enabled,
        spec_toggle_module(c, ModuleId::Glow).misc.glow_enabled == !c.misc.glow_enabled,
        spec_module_enabled(c, ModuleId::NoFlash) == c.misc.no_flash,
        spec_toggle_module(c, ModuleId::NoFlash).misc.no_flash == !c.misc.no_flash,
        spec_module_enabled(c, ModuleId::FovChanger) == c.misc.fov_changer,
        spec_toggle_module(c, ModuleId::FovChanger).misc.fov_changer == !c.misc.fov_changer,
        spec_module_enabled(c, ModuleId::NoSmoke) == c.misc.no_smoke,
        spec_toggle_module(c, ModuleId::NoSmoke).misc.no_smoke == !c.misc.no_smoke,
        spec_module_enabled(c, ModuleId::Hud),
        spec_toggle_module(c, ModuleId::Hud) == c,
{
}

/// In the grid, a module's place is empty exactly when that module is the
/// detached one, and holds that module's own card otherwise; no module is
/// exempt.
pub proof fn law_card_slot(id: ModuleId, detached: Option<ModuleId>)
    ensures
        (spec_card_slot(id, detached) == CardSlot::Placeholder) <==> detached == Some(id),
        detached != Some(id) ==> spec_card_slot(id, detached) == CardSlot::Card(id),
{
}

/// The tab bar lists the tabs in the order they are declared.
pub proof fn law_tab_declaration_order(tab: Tab)
    ensures
        spec_tab_index(tab) == tab as int,
        spec_tabs()[tab as int] == tab,
{
}


/// A card's hotkey badge shows the hotkey of its own module: the aimbot's,
/// the triggerbot's and the ESP's.
pub proof fn law_keybind_fields(c: Config)
    ensures
        spec_module_keybind(c, ModuleId::Aimbot) == c.aim.aimbot_hotkey@,
        spec_module_keybind(c, ModuleId::Triggerbot) == c.aim.triggerbot_hotkey@,
        spec_module_keybind(c, ModuleId::PlayerEsp) == c.player.esp_hotkey@,
        forall|id: ModuleId| #[trigger] has_keybind(id) <==> (id == ModuleId::Aimbot || id == ModuleId::Triggerbot || id
            == ModuleId::PlayerEsp),
{
}

/// The names of the modules, in the order the modules are declared.
pub open spec fn module_names_in_order() -> Seq<Seq<char>> {
    seq!["AimBot"@, "Triggerbot"@, "RCS"@, "ESP"@, "Sound ESP"@, "HUD"@, "Bomb Timer"@, "FOV Circle"@, "Sniper Crosshair"@, "Grenade Trails"@, "Glow"@, "No Flash"@, "FOV Changer"@, "No Smoke"@]
}

/// Each module is shown under the name at its declaration position.
pub proof fn law_display_names(id: ModuleId)
    ensures
        spec_module_display_name(id) == module_names_in_order()[id as int],
{
}

/// The tab bar lists each tab once, at its position.
pub proof fn law_tab_positions(tab: Tab)
    ensures
        spec_tabs()[spec_tab_index(tab) as int] == tab,
        spec_tab_index(tab) < spec_tabs().len(),
{
}

} // verus!
