use vstd::prelude::*;

verus! {

/// A colour as four 8-bit channels: red, green, blue and alpha, with the colour
/// channels already multiplied by alpha.
#[derive(Clone, Copy, Debug, PartialEq, Eq, Structural)]
pub struct Color {
    pub r: u8,
    pub g: u8,
    pub b: u8,
    pub a: u8,
}

/// The opaque colour with the given channels.
pub open spec fn rgb(r: u8, g: u8, b: u8) -> Color {
    Color { r, g, b, a: 255 }
}

/// The colour with the given premultiplied channels.
pub open spec fn rgba(r: u8, g: u8, b: u8, a: u8) -> Color {
    Color { r, g, b, a }
}

impl Color {
    /// An opaque colour from its red, green and blue channels.
    pub fn from_rgb(r: u8, g: u8, b: u8) -> (c: Color)
        ensures
            c == rgb(r, g, b),
    {
        Color { r, g, b, a: 255 }
    }

    /// A colour from channels that are already multiplied by alpha; they are kept as given.
    pub fn from_rgba_premultiplied(r: u8, g: u8, b: u8, a: u8) -> (c: Color)
        ensures
            c == rgba(r, g, b, a),
    {
        Color { r, g, b, a }
    }

    /// The red channel.
    pub fn r(&self) -> (v: u8)
        ensures
            v == self.r,
    {
        self.r
    }

    /// The green channel.
    pub fn g(&self) -> (v: u8)
        ensures
            v == self.g,
    {
        self.g
    }

    /// The blue channel.
    pub fn b(&self) -> (v: u8)
        ensures
            v == self.b,
    {
        self.b
    }

    /// The alpha channel.
    pub fn a(&self) -> (v: u8)
        ensures
            v == self.a,
    {
        self.a
    }
}

/// The menu's palette.
pub struct Colors;

impl Colors {
    /// The backdrop behind every panel.
    pub fn backdrop() -> (c: Color)
        ensures
            c == rgb(24, 24, 32),
    {
        Color::from_rgb(24, 24, 32)
    }
    /// The base panel colour.
    pub fn base() -> (c: Color)
        ensures
            c == rgb(30, 30, 40),
    {
        Color::from_rgb(30, 30, 40)
    }
    /// The highlight of a focused element.
    pub fn highlight() -> (c: Color)
        ensures
            c == rgb(50, 50, 70),
    {
        Color::from_rgb(50, 50, 70)
    }
    /// Secondary text.
    pub fn subtext() -> (c: Color)
        ensures
            c == rgb(180, 180, 180),
    {
        Color::from_rgb(180, 180, 180)
    }
    /// Primary text.
    pub fn text() -> (c: Color)
        ensures
            c == rgb(255, 255, 255),
    {
        Color::from_rgb(255, 255, 255)
    }
    /// The red accent choice.
    pub fn red() -> (c: Color)
        ensures
            c == rgb(240, 100, 100),
    {
        Color::from_rgb(240, 100, 100)
    }
    /// The orange accent choice.
    pub fn orange() -> (c: Color)
        ensures
            c == rgb(240, 140, 90),
    {
        Color::from_rgb(240, 140, 90)
    }
    /// The yellow accent choice.
    pub fn yellow() -> (c: Color)
        ensures
            c == rgb(240, 200, 120),
    {
        Color::from_rgb(240, 200, 120)
    }
    /// The green accent choice.
    pub fn green() -> (c: Color)
        ensures
            c == rgb(160, 240, 130),
    {
        Color::from_rgb(160, 240, 130)
    }
    /// The teal accent choice.
    pub fn teal() -> (c: Color)
        ensures
            c == rgb(80, 200, 200),
    {
        Color::from_rgb(80, 200, 200)
    }
    /// The blue accent choice.
    pub fn blue() -> (c: Color)
        ensures
            c == rgb(100, 150, 240),
    {
        Color::from_rgb(100, 150, 240)
    }
    /// The purple accent choice.
    pub fn purple() -> (c: Color)
        ensures
            c == rgb(180, 120, 240),
    {
        Color::from_rgb(180, 120, 240)
    }

    /// The accent colours a user can pick, each with its name, in menu order.
    pub fn accent_colors() -> (list: &'static [(&'static str, Color)])
        ensures
            list@.len() == 7,
            list@[0].0@ == "Red"@ && list@[0].1 == rgb(240, 100, 100),
            list@[1].0@ == "Orange"@ && list@[1].1 == rgb(240, 140, 90),
            list@[2].0@ == "Yellow"@ && list@[2].1 == rgb(240, 200, 120),
            list@[3].0@ == "Green"@ && list@[3].1 == rgb(160, 240, 130),
            list@[4].0@ == "Teal"@ && list@[4].1 == rgb(80, 200, 200),
            list@[5].0@ == "Blue"@ && list@[5].1 == rgb(100, 150, 240),
            list@[6].0@ == "Purple"@ && list@[6].1 == rgb(180, 120, 240),
    {
        &[
            ("Red", Color { r: 240, g: 100, b: 100, a: 255 }),
            ("Orange", Color { r: 240, g: 140, b: 90, a: 255 }),
            ("Yellow", Color { r: 240, g: 200, b: 120, a: 255 }),
            ("Green", Color { r: 160, g: 240, b: 130, a: 255 }),
            ("Teal", Color { r: 80, g: 200, b: 200, a: 255 }),
            ("Blue", Color { r: 100, g: 150, b: 240, a: 255 }),
            ("Purple", Color { r: 180, g: 120, b: 240, a: 255 }),
        ]
    }

    /// The translucent window background.
    pub fn window_bg() -> (c: Color)
        ensures
            c == rgba(15, 15, 18, 210),
    {
        Color::from_rgba_premultiplied(15, 15, 18, 210)
    }
    /// The accent of the menu.
    pub fn accent() -> (c: Color)
        ensures
            c == rgb(155, 81, 224),
    {
        Color::from_rgb(155, 81, 224)
    }
    /// A module card's background.
    pub fn card_bg() -> (c: Color)
        ensures
            c == rgba(30, 30, 35, 77),
    {
        Color::from_rgba_premultiplied(30, 30, 35, 77)
    }
    /// A module card's background under the pointer.
    pub fn card_hover() -> (c: Color)
        ensures
            c == rgba(45, 45, 50, 102),
    {
        Color::from_rgba_premultiplied(45, 45, 50, 102)
    }
    /// The border of a disabled module card.
    pub fn card_border() -> (c: Color)
        ensures
            c == rgba(255, 255, 255, 13),
    {
        Color::from_rgba_premultiplied(255, 255, 255, 13)
    }
    /// The border of an enabled module card and of every window.
    pub fn card_border_active() -> (c: Color)
        ensures
            c == rgb(155, 81, 224),
    {
        Color::from_rgb(155, 81, 224)
    }
    /// Text of a disabled element.
    pub fn text_disabled() -> (c: Color)
        ensures
            c == rgb(136, 136, 136),
    {
        Color::from_rgb(136, 136, 136)
    }
    /// The line under the tab bar and above the footer.
    pub fn tab_divider() -> (c: Color)
        ensures
            c == rgba(255, 255, 255, 26),
    {
        Color::from_rgba_premultiplied(255, 255, 255, 26)
    }
    /// The label and underline of the active tab.
    pub fn tab_active() -> (c: Color)
        ensures
            c == rgb(155, 81, 224),
    {
        Color::from_rgb(155, 81, 224)
    }
    /// The background of a keybind badge.
    pub fn bind_bg() -> (c: Color)
        ensures
            c == rgba(255, 255, 255, 26),
    {
        Color::from_rgba_premultiplied(255, 255, 255, 26)
    }
    /// The text of a keybind badge.
    pub fn bind_text() -> (c: Color)
        ensures
            c == rgb(170, 170, 170),
    {
        Color::from_rgb(170, 170, 170)
    }
    /// A close button under the pointer.
    pub fn close_hover() -> (c: Color)
        ensures
            c == rgb(255, 68, 68),
    {
        Color::from_rgb(255, 68, 68)
    }
    /// The track of a slider.
    pub fn slider_bg() -> (c: Color)
        ensures
            c == rgba(255, 255, 255, 26),
    {
        Color::from_rgba_premultiplied(255, 255, 255, 26)
    }
    /// The filled part of a slider.
    pub fn slider_fill() -> (c: Color)
        ensures
            c == rgb(155, 81, 224),
    {
        Color::from_rgb(155, 81, 224)
    }
    /// The border of a check box.
    pub fn checkbox_border() -> (c: Color)
        ensures
            c == rgba(255, 255, 255, 51),
    {
        Color::from_rgba_premultiplied(255, 255, 255, 51)
    }
    /// The line under a popup's header.
    pub fn popup_header() -> (c: Color)
        ensures
            c == rgba(255, 255, 255, 26),
    {
        Color::from_rgba_premultiplied(255, 255, 255, 26)
    }
}

} // verus!
