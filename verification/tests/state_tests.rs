use deadlocked::color::{Color, Colors};
use deadlocked::config::{
    draw_mode_from_index, draw_mode_index, key_mode_from_index, key_mode_index, normalize_delay, scope_from_index,
    scope_index, targeting_mode_from_index, targeting_mode_index, AimbotTab, DrawMode, KeyMode, TargetingMode,
};
use deadlocked::menu::{ModuleId, Tab};
use deadlocked::state::{
    next_frame_deadline, stacktraces_suppressed, KeyOutcome, MenuState, Modifier, NamedKey,
};

#[test]
fn drop_downs_round_trip() {
    for m in [KeyMode::Hold, KeyMode::Toggle] {
        assert_eq!(key_mode_from_index(key_mode_index(m)), m);
    }
    for m in [TargetingMode::Fov, TargetingMode::Distance] {
        assert_eq!(targeting_mode_from_index(targeting_mode_index(m)), m);
    }
    for m in [DrawMode::Off, DrawMode::Health, DrawMode::Color] {
        assert_eq!(draw_mode_from_index(draw_mode_index(m)), m);
    }
    for t in [AimbotTab::Global, AimbotTab::Weapon] {
        assert_eq!(scope_from_index(scope_index(t)), t);
    }
    assert_eq!(draw_mode_index(DrawMode::Color), 2);
    assert_eq!(draw_mode_from_index(7), DrawMode::Color);
    assert_eq!(key_mode_from_index(5), KeyMode::Toggle);
    assert_eq!(scope_index(AimbotTab::Weapon), 1);
}

#[test]
fn delay_is_ordered() {
    assert_eq!(normalize_delay(300, 100), (100, 300));
    assert_eq!(normalize_delay(100, 300), (100, 300));
    assert_eq!(normalize_delay(50, 50), (50, 50));
}

#[test]
fn frame_deadline() {
    assert_eq!(next_frame_deadline(1_000, 1_005, 16), 1_016);
    assert_eq!(next_frame_deadline(1_000, 2_000, 16), 2_016);
    assert_eq!(next_frame_deadline(1_000, 1_016, 16), 1_016);
}

#[test]
fn stacktrace_choice() {
    assert!(stacktraces_suppressed(false, false));
    assert!(!stacktraces_suppressed(true, false));
    assert!(!stacktraces_suppressed(false, true));
}

#[test]
fn insert_toggles_menu() {
    let mut s = MenuState::new(0);
    assert!(!s.forwards_events());
    let out = s.on_key(Some(NamedKey::Insert), true, false, false);
    assert!(s.show_menu);
    assert_eq!(out, KeyOutcome { modifier: None, forward: true });
    let out = s.on_key(Some(NamedKey::Insert), true, true, false);
    assert!(s.show_menu);
    assert!(out.forward);
    let out = s.on_key(Some(NamedKey::Insert), false, false, false);
    assert!(s.show_menu && out.forward);
    let out = s.on_key(Some(NamedKey::Insert), true, false, true);
    assert!(s.show_menu && out.forward);
    s.on_key(Some(NamedKey::Insert), true, false, false);
    assert!(!s.show_menu);
    s.on_toggle_menu();
    assert!(s.show_menu);
}

#[test]
fn modifiers_passed_on() {
    let mut s = MenuState::new(3);
    let out = s.on_key(Some(NamedKey::Control), true, false, false);
    assert_eq!(out, KeyOutcome { modifier: Some(Modifier::Ctrl), forward: false });
    assert_eq!(s.on_key(Some(NamedKey::Shift), false, false, false).modifier, Some(Modifier::Shift));
    assert_eq!(s.on_key(Some(NamedKey::Alt), true, true, false).modifier, Some(Modifier::Alt));
    assert_eq!(s.on_key(Some(NamedKey::Alt), true, false, true).modifier, None);
    assert_eq!(s.on_key(Some(NamedKey::Other), true, false, false).modifier, None);
    assert_eq!(s.on_key(None, true, false, false).modifier, None);
    assert_eq!(s.aimbot_weapon, 3);
}

#[test]
fn settings_popup_flow() {
    let mut s = MenuState::new(0);
    s.toggle_settings();
    assert!(s.show_settings_popup && !s.settings_popup_initialized);
    assert!(s.settings_popup_shown());
    assert!(!s.settings_popup_shown());
    s.toggle_settings();
    assert!(!s.show_settings_popup && s.settings_popup_initialized);
    s.toggle_settings();
    assert!(s.settings_popup_shown());
    s.open_about();
    assert!(s.show_about && !s.show_settings_popup);
    s.select_tab(Tab::Misc);
    assert_eq!(s.current_tab, Tab::Misc);
    s.open_bone_selector();
    assert!(s.show_bone_selector);
    s.close_bone_selector();
    assert!(!s.show_bone_selector);
    s.detached_module = Some(ModuleId::Glow);
    s.close_detached();
    assert_eq!(s.detached_module, None);
}

#[test]
fn palette() {
    assert_eq!(Colors::backdrop(), Color { r: 24, g: 24, b: 32, a: 255 });
    assert_eq!(Colors::window_bg(), Color { r: 15, g: 15, b: 18, a: 210 });
    assert_eq!(Colors::card_border(), Color { r: 255, g: 255, b: 255, a: 13 });
    assert_eq!(Colors::tab_active(), Colors::accent());
    let accents = Colors::accent_colors();
    assert_eq!(accents.len(), 7);
    assert_eq!(accents[0], ("Red", Color::from_rgb(240, 100, 100)));
    assert_eq!(accents[6], ("Purple", Color::from_rgb(180, 120, 240)));
    let c = Color::from_rgba_premultiplied(1, 2, 3, 4);
    assert_eq!((c.r(), c.g(), c.b(), c.a()), (1, 2, 3, 4));
}
