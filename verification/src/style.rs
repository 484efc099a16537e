use vstd::prelude::*;
use crate::color::{rgb, rgba, Color, Colors};

verus! {

/// How a module card is painted.
#[derive(Clone, Copy, Debug, PartialEq, Eq, Structural)]
pub struct CardStyle {
    pub background: Color,
    pub border: Color,
    pub text: Color,
    pub bind_text: Color,
}

/// How a bone is marked in the bone selector: a filled dot when it is
/// selected, a ring otherwise.
#[derive(Clone, Copy, Debug, PartialEq, Eq, Structural)]
pub enum BoneMarker {
    Filled(Color),
    Ring(Color),
}

/// The colour of a tab's label: the accent for the active tab, full text
/// under the pointer, dimmed otherwise.
pub open spec fn spec_tab_label_color(active: bool, hovered: bool) -> Color {
    if active {
        rgb(155, 81, 224)
    } else if hovered {
        rgb(255, 255, 255)
    } else {
        rgb(136, 136, 136)
    }
}

/// The colour of a gear under or away from the pointer.
pub open spec fn spec_gear_color(hovered: bool) -> Color {
    if hovered {
        rgb(255, 255, 255)
    } else {
        rgb(136, 136, 136)
    }
}

/// The colour of a close button under or away from the pointer.
pub open spec fn spec_close_color(hovered: bool) -> Color {
    if hovered {
        rgb(255, 68, 68)
    } else {
        rgb(136, 136, 136)
    }
}

/// How a module card is painted, by whether its module is on and whether it
/// is under the pointer.
pub open spec fn spec_card_style(enabled: bool, hovered: bool) -> CardStyle {
    CardStyle {
        background: if hovered {
            rgba(45, 45, 50, 102)
        } else {
            rgba(30, 30, 35, 77)
        },
        border: if enabled {
            rgb(155, 81, 224)
        } else {
            rgba(255, 255, 255, 13)
        },
        text: if enabled {
            rgb(255, 255, 255)
        } else {
            rgb(136, 136, 136)
        },
        bind_text: if enabled {
            rgb(170, 170, 170)
        } else {
            rgb(136, 136, 136)
        },
    }
}

/// The colour of a tab's label in the tab bar.
pub fn tab_label_color(active: bool, hovered: bool) -> (c: Color)
    ensures
        c == spec_tab_label_color(active, hovered),
{
    if active {
        Colors::tab_active()
    } else if hovered {
        Colors::text()
    } else {
        Colors::text_disabled()
    }
}

/// The colour of a settings gear.
pub fn gear_color(hovered: bool) -> (c: Color)
    ensures
        c == spec_gear_color(hovered),
{
    if hovered {
        Colors::text()
    } else {
        Colors::text_disabled()
    }
}

/// The colour of a popup's close button.
pub fn close_color(hovered: bool) -> (c: Color)
    ensures
        c == spec_close_color(hovered),
{
    if hovered {
        Colors::close_hover()
    } else {
        Colors::text_disabled()
    }
}

/// How the card of a module is painted.
pub fn card_style(enabled: bool, hovered: bool) -> (s: CardStyle)
    ensures
        s == spec_card_style(enabled, hovered),
{
    CardStyle {
        background: if hovered {
            Colors::card_hover()
        } else {
            Colors::card_bg()
        },
        border: if enabled {
            Colors::card_border_active()
        } else {
            Colors::card_border()
        },
        text: if enabled {
            Colors::text()
        } else {
            Colors::text_disabled()
        },
        bind_text: if enabled {
            Colors::bind_text()
        } else {
            Colors::text_disabled()
        },
    }
}

/// How a bone is marked in the bone selector.
pub fn bone_marker(selected: bool) -> (m: BoneMarker)
    ensures
        m == (if selected {
            BoneMarker::Filled(rgb(155, 81, 224))
        } else {
            BoneMarker::Ring(rgb(136, 136, 136))
        }),
{
    if selected {
        BoneMarker::Filled(Colors::tab_active())
    } else {
        BoneMarker::Ring(Colors::text_disabled())
    }
}

} // verus!
