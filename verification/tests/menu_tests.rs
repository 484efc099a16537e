use deadlocked::bones::Bones;
use deadlocked::color::Color;
use deadlocked::config::{
    AimConfig, AimbotConfig, AimbotTab, Config, DrawMode, HudConfig, KeyMode, MiscConfig, PlayerConfig,
    RcsConfig, SniperCrosshairConfig, SoundConfig, TargetingMode, TriggerbotConfig, WeaponConfig,
};
use deadlocked::menu::{
    module_display_name, module_enabled, module_keybind, tab_index, tab_modules, tab_names, toggle_module,
    ModuleId, Tab,
};

fn weapon_config() -> WeaponConfig {
    WeaponConfig {
        aimbot: AimbotConfig {
            enabled: false,
            enable_override: false,
            mode: KeyMode::Hold,
            start_bullet: 0,
            target_friendlies: false,
            distance_adjusted_fov: false,
            visibility_check: true,
            flash_check: true,
            targeting_mode: TargetingMode::Fov,
            bones: vec![Bones::Head],
        },
        triggerbot: TriggerbotConfig {
            enabled: false,
            enable_override: false,
            delay_start: 10,
            delay_end: 20,
            mode: KeyMode::Hold,
            head_only: false,
            flash_check: true,
            scope_check: true,
            velocity_check: true,
        },
        rcs: RcsConfig { enabled: false, enable_override: false },
    }
}

fn config() -> Config {
    Config {
        aim: AimConfig {
            aimbot_hotkey: "Mouse5".to_string(),
            triggerbot_hotkey: "Mouse4".to_string(),
            global: weapon_config(),
            weapons: vec![weapon_config(), weapon_config()],
        },
        player: PlayerConfig {
            enabled: false,
            esp_hotkey: "KeyE".to_string(),
            show_friendlies: false,
            head_circle: false,
            visible_only: false,
            offscreen_arrows: false,
            draw_box: DrawMode::Color,
            health_bar: true,
            armor_bar: false,
            player_name: true,
            weapon_icon: true,
            tags: false,
            sound: SoundConfig { enabled: false, show_visible: false },
        },
        hud: HudConfig {
            bomb_timer: false,
            fov_circle: false,
            dropped_weapons: false,
            keybind_list: false,
            spectator_list: false,
            grenade_trails: false,
            grenade_predict: false,
            text_outline: true,
            sniper_crosshair: SniperCrosshairConfig { enabled: false },
        },
        misc: MiscConfig {
            glow_enabled: false,
            glow_color: Color { r: 255, g: 0, b: 0, a: 255 },
            no_flash: false,
            fov_changer: false,
            desired_fov: 90,
            no_smoke: false,
            change_smoke_color: false,
        },
        accent_color: Color { r: 155, g: 81, b: 224, a: 255 },
    }
}

const ALL: [ModuleId; 14] = [
    ModuleId::Aimbot,
    ModuleId::Triggerbot,
    ModuleId::Rcs,
    ModuleId::PlayerEsp,
    ModuleId::SoundEsp,
    ModuleId::Hud,
    ModuleId::BombTimer,
    ModuleId::FovCircle,
    ModuleId::SniperCrosshair,
    ModuleId::GrenadeTrails,
    ModuleId::Glow,
    ModuleId::NoFlash,
    ModuleId::FovChanger,
    ModuleId::NoSmoke,
];

#[test]
fn tab_bar_lists_tabs_in_order() {
    let names = tab_names();
    assert_eq!(names.to_vec(), vec![(Tab::Aim, "Aim"), (Tab::Player, "Player"), (Tab::HUD, "HUD"), (Tab::Misc, "Misc")]);
    for (i, (tab, _)) in names.iter().enumerate() {
        assert_eq!(tab_index(*tab), i);
    }
}

#[test]
fn tabs_show_their_cards() {
    assert_eq!(
        tab_modules(&Tab::Aim).to_vec(),
        vec![(ModuleId::Aimbot, "AimBot"), (ModuleId::Triggerbot, "Triggerbot"), (ModuleId::Rcs, "RCS")]
    );
    assert_eq!(tab_modules(&Tab::Player).to_vec(), vec![(ModuleId::PlayerEsp, "ESP"), (ModuleId::SoundEsp, "Sound ESP")]);
    assert_eq!(
        tab_modules(&Tab::HUD).to_vec(),
        vec![
            (ModuleId::Hud, "HUD"),
            (ModuleId::BombTimer, "Bomb Timer"),
            (ModuleId::SniperCrosshair, "Sniper Crosshair")
        ]
    );
    assert_eq!(
        tab_modules(&Tab::Misc).to_vec(),
        vec![
            (ModuleId::GrenadeTrails, "Grenade Trails"),
            (ModuleId::FovCircle, "FOV Circle"),
            (ModuleId::Glow, "Glow"),
            (ModuleId::NoFlash, "No Flash"),
            (ModuleId::FovChanger, "FOV Changer"),
            (ModuleId::NoSmoke, "No Smoke")
        ]
    );
}

#[test]
fn every_module_in_exactly_one_tab() {
    for id in ALL {
        let mut count = 0;
        for (tab, _) in tab_names().iter().copied() {
            for (m, name) in tab_modules(&tab).iter().copied() {
                if m == id {
                    count += 1;
                    assert_eq!(name, module_display_name(id));
                }
            }
        }
        assert_eq!(count, 1, "{:?}", id);
    }
}

#[test]
fn toggle_flips_only_its_module() {
    for id in ALL {
        let mut c = config();
        let before: Vec<bool> = ALL.iter().map(|m| module_enabled(&c, *m)).collect();
        toggle_module(&mut c, id);
        for (k, m) in ALL.iter().enumerate() {
            let now = module_enabled(&c, *m);
            if *m == id && id != ModuleId::Hud {
                assert_eq!(now, !before[k]);
            } else {
                assert_eq!(now, before[k]);
            }
        }
    }
}

#[test]
fn toggle_twice_restores() {
    for id in ALL {
        let mut c = config();
        toggle_module(&mut c, id);
        toggle_module(&mut c, id);
        let fresh = config();
        for m in ALL {
            assert_eq!(module_enabled(&c, m), module_enabled(&fresh, m));
        }
    }
}

#[test]
fn toggle_glow_sets_glow_field() {
    let mut c = config();
    toggle_module(&mut c, ModuleId::Glow);
    assert!(c.misc.glow_enabled);
    toggle_module(&mut c, ModuleId::SniperCrosshair);
    assert!(c.hud.sniper_crosshair.enabled);
    toggle_module(&mut c, ModuleId::Rcs);
    assert!(c.aim.global.rcs.enabled);
    assert!(!c.aim.weapons[0].rcs.enabled);
}

#[test]
fn hud_card_always_on() {
    let mut c = config();
    assert!(module_enabled(&c, ModuleId::Hud));
    toggle_module(&mut c, ModuleId::Hud);
    assert!(module_enabled(&c, ModuleId::Hud));
}

#[test]
fn keybinds_of_hotkey_modules() {
    let c = config();
    assert_eq!(module_keybind(&c, ModuleId::Aimbot), Some("Mouse5".to_string()));
    assert_eq!(module_keybind(&c, ModuleId::Triggerbot), Some("Mouse4".to_string()));
    assert_eq!(module_keybind(&c, ModuleId::PlayerEsp), Some("KeyE".to_string()));
    for id in ALL {
        if !matches!(id, ModuleId::Aimbot | ModuleId::Triggerbot | ModuleId::PlayerEsp) {
            assert_eq!(module_keybind(&c, id), None);
        }
    }
}

#[test]
fn display_names() {
    assert_eq!(module_display_name(ModuleId::Aimbot), "AimBot");
    assert_eq!(module_display_name(ModuleId::PlayerEsp), "ESP");
    assert_eq!(module_display_name(ModuleId::FovChanger), "FOV Changer");
    assert_eq!(module_display_name(ModuleId::NoSmoke), "No Smoke");
}

#[test]
fn scoped_bones_edit_only_their_scope() {
    let mut c = config();
    c.aim.toggle_scoped_bone(AimbotTab::Weapon, 1, Bones::Neck);
    assert_eq!(c.aim.weapons[1].aimbot.bones, vec![Bones::Head, Bones::Neck]);
    assert_eq!(c.aim.weapons[0].aimbot.bones, vec![Bones::Head]);
    assert_eq!(c.aim.global.aimbot.bones, vec![Bones::Head]);
    c.aim.toggle_scoped_bone(AimbotTab::Global, 1, Bones::Head);
    assert_eq!(c.aim.global.aimbot.bones, Vec::<Bones>::new());
    c.aim.select_all_scoped_bones(AimbotTab::Weapon, 0);
    assert_eq!(c.aim.weapons[0].aimbot.bones.len(), 19);
    assert_eq!(c.aim.weapons[0].aimbot.bones[18], Bones::RightFoot);
    c.aim.clear_scoped_bones(AimbotTab::Weapon, 0);
    assert!(c.aim.weapons[0].aimbot.bones.is_empty());
    assert_eq!(c.aim.weapons[1].aimbot.bones, vec![Bones::Head, Bones::Neck]);
    assert!(c.aim.scoped(AimbotTab::Weapon, 1).aimbot.bones.len() == 2);
    assert!(c.aim.scoped(AimbotTab::Global, 7).aimbot.bones.is_empty());
}

use deadlocked::menu::{card_grid, CardSlot};
use deadlocked::state::{CardAction, MenuState, PointerButton};
use deadlocked::style::{bone_marker, card_style, close_color, gear_color, tab_label_color, BoneMarker};

#[test]
fn grid_three_per_row() {
    let rows = card_grid(Tab::Misc, None);
    assert_eq!(rows.len(), 2);
    assert_eq!(
        rows[0],
        vec![CardSlot::Card(ModuleId::GrenadeTrails), CardSlot::Card(ModuleId::FovCircle), CardSlot::Card(ModuleId::Glow)]
    );
    assert_eq!(rows[1].len(), 3);
    let rows = card_grid(Tab::Player, Some(ModuleId::SoundEsp));
    assert_eq!(rows, vec![vec![CardSlot::Card(ModuleId::PlayerEsp), CardSlot::Placeholder]]);
    let rows = card_grid(Tab::Aim, Some(ModuleId::Glow));
    assert_eq!(rows.len(), 1);
    assert_eq!(rows[0][2], CardSlot::Card(ModuleId::Rcs));
}

#[test]
fn card_clicks() {
    let mut s = MenuState::new(0);
    let mut c = config();
    assert_eq!(s.click_card(&mut c, ModuleId::NoFlash, PointerButton::Primary), CardAction::SendConfig);
    assert!(c.misc.no_flash);
    assert_eq!(s.detached_module, None);
    assert_eq!(s.click_card(&mut c, ModuleId::NoFlash, PointerButton::Secondary), CardAction::Detached);
    assert_eq!(s.detached_module, Some(ModuleId::NoFlash));
    assert!(c.misc.no_flash);
    assert_eq!(s.click_card(&mut c, ModuleId::Glow, PointerButton::Other), CardAction::Nothing);
    assert!(!c.misc.glow_enabled);
}

#[test]
fn styles() {
    let accent = Color { r: 155, g: 81, b: 224, a: 255 };
    let text = Color { r: 255, g: 255, b: 255, a: 255 };
    let dim = Color { r: 136, g: 136, b: 136, a: 255 };
    assert_eq!(tab_label_color(true, true), accent);
    assert_eq!(tab_label_color(false, true), text);
    assert_eq!(tab_label_color(false, false), dim);
    assert_eq!(gear_color(true), text);
    assert_eq!(close_color(true), Color { r: 255, g: 68, b: 68, a: 255 });
    assert_eq!(close_color(false), dim);
    let s = card_style(true, false);
    assert_eq!(s.border, accent);
    assert_eq!(s.background, Color { r: 30, g: 30, b: 35, a: 77 });
    assert_eq!(s.bind_text, Color { r: 170, g: 170, b: 170, a: 255 });
    let s = card_style(false, true);
    assert_eq!(s.background, Color { r: 45, g: 45, b: 50, a: 102 });
    assert_eq!(s.text, dim);
    assert_eq!(bone_marker(true), BoneMarker::Filled(accent));
    assert_eq!(bone_marker(false), BoneMarker::Ring(dim));
}
