use deadlocked::bones::Bones;
use deadlocked::color::Color;
use deadlocked::config::{
    AimConfig, AimbotConfig, Config, DrawMode, HudConfig, KeyMode, MiscConfig, PlayerConfig, RcsConfig,
    SniperCrosshairConfig, SoundConfig, TargetingMode, TriggerbotConfig, WeaponConfig,
};
use deadlocked::menu::{module_enabled, toggle_module, ModuleId};
use deadlocked::glow::{color_override, GlowOffsets, GlowValue, GlowWrite, Offsets, Player, CS2};

fn weapon_config() -> WeaponConfig {
    WeaponConfig {
        aimbot: AimbotConfig {
            enabled: false,
            enable_override: false,
            mode: KeyMode::Hold,
            start_bullet: 0,
            target_friendlies: false,
            distance_adjusted_fov: false,
            visibility_check: true,
            flash_check: true,
            targeting_mode: TargetingMode::Fov,
            bones: vec![Bones::Head],
        },
        triggerbot: TriggerbotConfig {
            enabled: false,
            enable_override: false,
            delay_start: 0,
            delay_end: 0,
            mode: KeyMode::Toggle,
            head_only: false,
            flash_check: false,
            scope_check: false,
            velocity_check: false,
        },
        rcs: RcsConfig { enabled: false, enable_override: false },
    }
}

fn config(glow: bool, show_friendlies: bool, color: Color) -> Config {
    Config {
        aim: AimConfig {
            aimbot_hotkey: "Mouse5".to_string(),
            triggerbot_hotkey: "Mouse4".to_string(),
            global: weapon_config(),
            weapons: Vec::new(),
        },
        player: PlayerConfig {
            enabled: true,
            esp_hotkey: "KeyE".to_string(),
            show_friendlies,
            head_circle: false,
            visible_only: false,
            offscreen_arrows: false,
            draw_box: DrawMode::Health,
            health_bar: true,
            armor_bar: false,
            player_name: true,
            weapon_icon: true,
            tags: false,
            sound: SoundConfig { enabled: false, show_visible: false },
        },
        hud: HudConfig {
            bomb_timer: false,
            fov_circle: false,
            dropped_weapons: false,
            keybind_list: false,
            spectator_list: false,
            grenade_trails: false,
            grenade_predict: false,
            text_outline: true,
            sniper_crosshair: SniperCrosshairConfig { enabled: false },
        },
        misc: MiscConfig {
            glow_enabled: glow,
            glow_color: color,
            no_flash: false,
            fov_changer: false,
            desired_fov: 90,
            no_smoke: false,
            change_smoke_color: false,
        },
        accent_color: Color { r: 155, g: 81, b: 224, a: 255 },
    }
}

fn offsets() -> Offsets {
    Offsets {
        glow: GlowOffsets {
            m_glow: 0xC00,
            glow_color: 0x8,
            glowing: 0x51,
            glow_range: 0x34,
            glow_type: 0x30,
            glow_color_override: 0x40,
        },
    }
}

fn game(local_team: Option<u8>) -> CS2 {
    CS2 {
        offsets: offsets(),
        players: vec![
            Player { pawn: 0x1000_0000, valid: true, team: 2 },
            Player { pawn: 0x2000_0000, valid: true, team: 3 },
            Player { pawn: 0x3000_0000, valid: false, team: 3 },
            Player { pawn: 0x4000_0000, valid: true, team: 3 },
        ],
        local_team,
    }
}

#[test]
fn override_packs_channels() {
    assert_eq!(color_override(Color { r: 255, g: 0, b: 0, a: 255 }), -65536);
    assert_eq!(color_override(Color { r: 155, g: 81, b: 224, a: 255 }), -6598176);
    assert_eq!(color_override(Color { r: 10, g: 20, b: 30, a: 0 }), -16116706);
    let v = color_override(Color { r: 1, g: 2, b: 3, a: 4 }) as u32;
    assert_eq!(v >> 24, 255);
    assert_eq!((v >> 16) & 0xFF, 1);
    assert_eq!((v >> 8) & 0xFF, 2);
    assert_eq!(v & 0xFF, 3);
}

#[test]
fn glow_off_writes_nothing() {
    let red = Color { r: 255, g: 0, b: 0, a: 255 };
    assert!(game(Some(2)).glow(&config(false, true, red)).is_empty());
    assert!(game(None).glow(&config(true, true, red)).is_empty());
}

#[test]
fn glow_marks_valid_enemies() {
    let red = Color { r: 255, g: 0, b: 0, a: 255 };
    let writes = game(Some(2)).glow(&config(true, false, red));
    let mut expected = Vec::new();
    for pawn in [0x2000_0000u64, 0x4000_0000u64] {
        let base = pawn + 0xC00;
        expected.push(GlowWrite { address: base + 0x51, value: GlowValue::Byte(1) });
        expected.push(GlowWrite { address: base + 0x34, value: GlowValue::Word(0xFFFF) });
        expected.push(GlowWrite { address: base + 0x30, value: GlowValue::Int(0) });
        expected.push(GlowWrite { address: base + 0x8, value: GlowValue::Rgb(255, 0, 0) });
        expected.push(GlowWrite { address: base + 0x40, value: GlowValue::Int(-65536) });
    }
    assert_eq!(writes, expected);
}

#[test]
fn glow_includes_friendlies_when_shown() {
    let c = Color { r: 10, g: 20, b: 30, a: 255 };
    let writes = game(Some(2)).glow(&config(true, true, c));
    assert_eq!(writes.len(), 15);
    assert_eq!(writes[0], GlowWrite { address: 0x1000_0000 + 0xC00 + 0x51, value: GlowValue::Byte(1) });
    assert_eq!(writes[4], GlowWrite { address: 0x1000_0C40, value: GlowValue::Int(-16116706) });
    assert!(writes.iter().all(|w| w.address < 0x3000_0000 || w.address >= 0x4000_0000));
}

#[test]
fn glow_hides_own_team() {
    let c = Color { r: 0, g: 255, b: 0, a: 255 };
    let writes = game(Some(3)).glow(&config(true, false, c));
    assert_eq!(writes.len(), 5);
    assert!(writes.iter().all(|w| (0x1000_0000..0x1000_1000).contains(&w.address)));
    assert_eq!(writes[3].value, GlowValue::Rgb(0, 255, 0));
}

#[test]
fn glow_address_check() {
    let red = Color { r: 255, g: 0, b: 0, a: 255 };
    assert!(game(Some(2)).glow_addresses_fit(&config(true, false, red)));
    let mut g = game(Some(2));
    g.players.push(Player { pawn: u64::MAX - 0x10, valid: true, team: 3 });
    assert!(!g.glow_addresses_fit(&config(true, false, red)));
    assert!(g.glow_addresses_fit(&config(false, false, red)));
    g.players[4].team = 2;
    assert!(g.glow_addresses_fit(&config(true, false, red)));
    assert!(!g.glow_addresses_fit(&config(true, true, red)));
}

#[test]
fn glow_card_stops_writes() {
    let mut c = config(true, true, Color { r: 1, g: 2, b: 3, a: 255 });
    assert!(module_enabled(&c, ModuleId::Glow));
    assert_eq!(game(Some(2)).glow(&c).len(), 15);
    toggle_module(&mut c, ModuleId::Glow);
    assert!(game(Some(2)).glow(&c).is_empty());
}
