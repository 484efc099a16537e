use vstd::prelude::*;
use crate::config::{AimbotTab, Config};
use crate::menu::{
    law_toggle_module_isolated, law_toggle_module_twice, spec_module_enabled, spec_toggle_module, toggle_module,
    ModuleId, Tab,
};

verus! {

/// The named keys the overlay reacts to; every other named key is `Other`.
#[derive(Clone, Copy, Debug, PartialEq, Eq, Structural)]
pub enum NamedKey {
    Control,
    Shift,
    Alt,
    Insert,
    Other,
}

/// A modifier key whose state is passed on to the menu's input.
#[derive(Clone, Copy, Debug, PartialEq, Eq, Structural)]
pub enum Modifier {
    Ctrl,
    Shift,
    Alt,
}

/// A mouse button that clicked a module card.
#[derive(Clone, Copy, Debug, PartialEq, Eq, Structural)]
pub enum PointerButton {
    Primary,
    Secondary,
    Other,
}

/// What the overlay does with a keyboard event: the modifier whose state it
/// passes on, if any, and whether the event goes on to the menu.
#[derive(Clone, Copy, Debug, PartialEq, Eq, Structural)]
pub struct KeyOutcome {
    pub modifier: Option<Modifier>,
    pub forward: bool,
}

/// What a click on a module card asks of the front end.
#[derive(Clone, Copy, Debug, PartialEq, Eq, Structural)]
pub enum CardAction {
    /// Nothing to do.
    Nothing,
    /// The module's popup was detached: place it beside the menu.
    Detached,
    /// The module was switched: send the configuration to the game and save it.
    SendConfig,
}

/// The state of the menu that its decisions read and change; positions and
/// sizes, held in floating point, are kept by the front end.
#[derive(Clone, Copy, Debug, PartialEq, Eq, Structural)]
pub struct MenuState {
    pub show_menu: bool,
    pub show_about: bool,
    pub show_settings_popup: bool,
    pub settings_popup_initialized: bool,
    pub show_bone_selector: bool,
    pub current_tab: Tab,
    pub detached_module: Option<ModuleId>,
    pub aimbot_tab: AimbotTab,
    pub triggerbot_tab: AimbotTab,
    pub rcs_tab: AimbotTab,
    pub aimbot_weapon: usize,
    pub triggerbot_weapon: usize,
    pub rcs_weapon: usize,
}

/// The modifier that a named key stands for.
pub open spec fn spec_key_modifier(key: NamedKey) -> Option<Modifier> {
    match key {
        NamedKey::Control => Some(Modifier::Ctrl),
        NamedKey::Shift => Some(Modifier::Shift),
        NamedKey::Alt => Some(Modifier::Alt),
        _ => None,
    }
}

/// Whether a keyboard event opens or closes the menu: a real press of
/// Insert that is not a repeat.
pub open spec fn toggles_menu(key: Option<NamedKey>, pressed: bool, repeat: bool, synthetic: bool) -> bool {
    !synthetic && key == Some(NamedKey::Insert) && pressed && !repeat
}

/// When the next frame is due: one frame after the last deadline, or one
/// frame from now when that deadline has already passed.
pub open spec fn spec_next_deadline(next: u64, now: u64, frame: u64) -> int {
    if next + frame < now {
        now + frame
    } else {
        next + frame
    }
}

/// Whether crash stack traces are held back at start: the user has already
/// been asked and said no.
pub open spec fn spec_stacktraces_suppressed(first_launch: bool, send_stacktraces: bool) -> bool {
    !first_launch && !send_stacktraces
}

/// Whether crash stack traces are held back at start.
pub fn stacktraces_suppressed(first_launch: bool, send_stacktraces: bool) -> (b: bool)
    ensures
        b == spec_stacktraces_suppressed(first_launch, send_stacktraces),
{
    !first_launch && !send_stacktraces
}

/// The deadline of the next frame, in nanoseconds of a monotonic clock,
/// after the frame due at `next` was drawn at `now`.
pub fn next_frame_deadline(next: u64, now: u64, frame: u64) -> (d: u64)
    requires
        next + frame <= u64::MAX,
        now + frame <= u64::MAX,
    ensures
        d == spec_next_deadline(next, now, frame),
{
    let d = next + frame;
    if d < now {
        now + frame
    } else {
        d
    }
}

/// The next frame is never due before now, nor earlier than one frame after
/// the last deadline: on time, frames keep their cadence one frame apart;
/// late, the cadence restarts one frame from now.
pub proof fn law_next_deadline(next: u64, now: u64, frame: u64)
    ensures
        spec_next_deadline(next, now, frame) >= now,
        spec_next_deadline(next, now, frame) >= next + frame,
        next + frame >= now ==> spec_next_deadline(next, now, frame) - next == frame,
        next + frame < now ==> spec_next_deadline(next, now, frame) - now == frame,
{
}

impl MenuState {
    /// The state at start: menu hidden, the aim tab and global scopes
    /// chosen, and `weapon` picked in each per-weapon scope.
    pub fn new(weapon: usize) -> (s: MenuState)
        ensures
            !s.show_menu && !s.show_about && !s.show_settings_popup && !s.settings_popup_initialized,
            !s.show_bone_selector,
            s.current_tab == Tab::Aim,
            s.detached_module is None,
            s.aimbot_tab == AimbotTab::Global && s.triggerbot_tab == AimbotTab::Global && s.rcs_tab
                == AimbotTab::Global,
            s.aimbot_weapon == weapon && s.triggerbot_weapon == weapon && s.rcs_weapon == weapon,
    {
        MenuState {
            show_menu: false,
            show_about: false,
            show_settings_popup: false,
            settings_popup_initialized: false,
            show_bone_selector: false,
            current_tab: Tab::Aim,
            detached_module: None,
            aimbot_tab: AimbotTab::Global,
            triggerbot_tab: AimbotTab::Global,
            rcs_tab: AimbotTab::Global,
            aimbot_weapon: weapon,
            triggerbot_weapon: weapon,
            rcs_weapon: weapon,
        }
    }

    /// The game thread asked to open or close the menu.
    pub fn on_toggle_menu(&mut self)
        ensures
            *final(self) == (MenuState { show_menu: !old(self).show_menu, ..*old(self) }),
    {
        self.show_menu = !self.show_menu;
    }

    /// A keyboard event of the overlay window: `key` is the named key, if
    /// the key has a name. Insert opens or closes the menu; Control, Shift
    /// and Alt are passed on as modifiers; while the menu is shown, the
    /// event goes on to it.
    pub fn on_key(&mut self, key: Option<NamedKey>, pressed: bool, repeat: bool, synthetic: bool) -> (out: KeyOutcome)
        ensures
            *final(self) == (MenuState {
                show_menu: old(self).show_menu != toggles_menu(key, pressed, repeat, synthetic),
                ..*old(self)
            }),
            out.modifier == (if !synthetic && key is Some {
                spec_key_modifier(key.unwrap())
            } else {
                None
            }),
            out.forward == final(self).show_menu,
    {
        let mut modifier: Option<Modifier> = None;
        if !synthetic {
            match key {
                Some(NamedKey::Control) => {
                    modifier = Some(Modifier::Ctrl);
                },
                Some(NamedKey::Shift) => {
                    modifier = Some(Modifier::Shift);
                },
                Some(NamedKey::Alt) => {
                    modifier = Some(Modifier::Alt);
                },
                Some(NamedKey::Insert) => {
                    if pressed && !repeat {
                        self.show_menu = !self.show_menu;
                    }
                },
                _ => {},
            }
        }
        KeyOutcome { modifier, forward: self.show_menu }
    }

    /// Whether an event of the overlay window other than a key goes on to
    /// the menu: only while it is shown.
    pub fn forwards_events(&self) -> (b: bool)
        ensures
            b == self.show_menu,
    {
        self.show_menu
    }

    /// A click on a tab of the tab bar.
    pub fn select_tab(&mut self, tab: Tab)
        ensures
            *final(self) == (MenuState { current_tab: tab, ..*old(self) }),
    {
        self.current_tab = tab;
    }

    /// A click on the settings gear in the footer: opens or closes the
    /// settings popup; an opened popup is placed anew.
    pub fn toggle_settings(&mut self)
        ensures
            *final(self) == (MenuState {
                show_settings_popup: !old(self).show_settings_popup,
                settings_popup_initialized: if !old(self).show_settings_popup {
                    false
                } else {
                    old(self).settings_popup_initialized
                },
                ..*old(self)
            }),
    {
        self.show_settings_popup = !self.show_settings_popup;
        if self.show_settings_popup {
            self.settings_popup_initialized = false;
        }
    }

    /// The settings popup is drawn this frame: returns whether it must be
    /// placed beside the menu first, which happens once after it opens.
    pub fn settings_popup_shown(&mut self) -> (place: bool)
        requires
            old(self).show_settings_popup,
        ensures
            place == !old(self).settings_popup_initialized,
            *final(self) == (MenuState { settings_popup_initialized: true, ..*old(self) }),
    {
        if !self.settings_popup_initialized {
            self.settings_popup_initialized = true;
            true
        } else {
            false
        }
    }

    /// The close button of the settings popup.
    pub fn close_settings(&mut self)
        ensures
            *final(self) == (MenuState { show_settings_popup: false, ..*old(self) }),
    {
        self.show_settings_popup = false;
    }

    /// "About" in the settings popup: shows the about window instead.
    pub fn open_about(&mut self)
        ensures
            *final(self) == (MenuState { show_about: true, show_settings_popup: false, ..*old(self) }),
    {
        self.show_about = true;
        self.show_settings_popup = false;
    }

    /// "Select" in the aimbot popup opens the bone selector.
    pub fn open_bone_selector(&mut self)
        ensures
            *final(self) == (MenuState { show_bone_selector: true, ..*old(self) }),
    {
        self.show_bone_selector = true;
    }

    /// The close button of the bone selector.
    pub fn close_bone_selector(&mut self)
        ensures
            *final(self) == (MenuState { show_bone_selector: false, ..*old(self) }),
    {
        self.show_bone_selector = false;
    }

    /// The close button of a detached module popup.
    pub fn close_detached(&mut self)
        ensures
            *final(self) == (MenuState { detached_module: None, ..*old(self) }),
    {
        self.detached_module = None;
    }

    /// A click on the card of `id`: the secondary button detaches the
    /// module's popup, the primary button switches the module.
    pub fn click_card(&mut self, config: &mut Config, id: ModuleId, button: PointerButton) -> (action: CardAction)
        ensures
            button == PointerButton::Secondary ==> *final(self) == (MenuState {
                detached_module: Some(id),
                ..*old(self)
            }) && *final(config) == *old(config) && action == CardAction::Detached,
            button == PointerButton::Primary ==> *final(self) == *old(self) && *final(config)
                == spec_toggle_module(*old(config), id) && action == CardAction::SendConfig,
            button == PointerButton::Other ==> *final(self) == *old(self) && *final(config) == *old(config)
                && action == CardAction::Nothing,
    {
        match button {
            PointerButton::Secondary => {
                self.detached_module = Some(id);
                CardAction::Detached
            },
            PointerButton::Primary => {
                toggle_module(config, id);
                CardAction::SendConfig
            },
            PointerButton::Other => CardAction::Nothing,
        }
    }
}


/// Two primary clicks on the same card give back the configuration, and a
/// card click never touches another module's switch.
pub proof fn law_card_click_twice(c: Config, id: ModuleId, other: ModuleId)
    ensures
        spec_toggle_module(spec_toggle_module(c, id), id) == c,
        other != id ==> spec_module_enabled(spec_toggle_module(c, id), other) == spec_module_enabled(c, other),
{
    law_toggle_module_twice(c, id);
    if other != id {
        law_toggle_module_isolated(c, id, other);
    }
}

/// Insert pressed twice (without repeats) leaves the menu as it was, and
/// nothing but Insert opens or closes it.
pub proof fn law_insert_twice(s: MenuState, key: Option<NamedKey>, pressed: bool, repeat: bool, synthetic: bool)
    ensures
        ((s.show_menu != toggles_menu(key, pressed, repeat, synthetic)) != toggles_menu(
            key,
            pressed,
            repeat,
            synthetic,
        )) == s.show_menu,
        key != Some(NamedKey::Insert) ==> !toggles_menu(key, pressed, repeat, synthetic),
{
}

} // verus!
