//! Colours and the application theme, with its byte-triple form for storage.
use vstd::prelude::*;

verus! {

/// An opaque RGB colour.
#[derive(Clone, Copy, PartialEq, Eq, Structural, Debug)]
pub struct Color {
    pub r: u8,
    pub g: u8,
    pub b: u8,
}

impl Color {
    /// The colour with the given red, green and blue components.
    pub fn rgb(r: u8, g: u8, b: u8) -> (c: Color)
        ensures
            c.r == r,
            c.g == g,
            c.b == b,
    {
        Color { r, g, b }
    }

    /// The red component.
    pub fn r(&self) -> (v: u8)
        ensures
            v == self.r,
    {
        self.r
    }

    /// The green component.
    pub fn g(&self) -> (v: u8)
        ensures
            v == self.g,
    {
        self.g
    }

    /// The blue component.
    pub fn b(&self) -> (v: u8)
        ensures
            v == self.b,
    {
        self.b
    }
}

/// The colours the interface is drawn with.
#[derive(Clone, Copy, PartialEq, Eq, Structural, Debug)]
pub struct Theme {
    pub background: Color,
    pub background_light: Color,
    pub background_dark: Color,
    pub primary: Color,
    pub border: Color,
    pub text_primary: Color,
    pub text_secondary: Color,
    pub text_light: Color,
}

/// The colour `#rrggbb` for the given components.
pub open spec fn rgb(r: u8, g: u8, b: u8) -> Color {
    Color { r, g, b }
}

/// The colour the CSS name `gold` denotes.
pub open spec fn gold() -> Color {
    rgb(255, 215, 0)
}

/// The dark preset.
pub open spec fn spec_dark_theme() -> Theme {
    Theme {
        background: rgb(0x25, 0x25, 0x25),
        background_dark: rgb(0x15, 0x15, 0x15),
        background_light: rgb(0x2f, 0x2f, 0x2f),
        border: rgb(0x44, 0x44, 0x44),
        primary: gold(),
        text_primary: rgb(0xee, 0xee, 0xee),
        text_secondary: rgb(0xaa, 0xaa, 0xaa),
        text_light: rgb(0x57, 0x57, 0x57),
    }
}

/// The light preset.
pub open spec fn spec_light_theme() -> Theme {
    Theme {
        background: rgb(0xec, 0xec, 0xf0),
        background_dark: rgb(0xd9, 0xd9, 0xeb),
        background_light: rgb(0xfb, 0xfb, 0xfb),
        border: rgb(0xa0, 0xa0, 0xa0),
        primary: gold(),
        text_primary: rgb(0x1a, 0x1a, 0x1a),
        text_secondary: rgb(0x69, 0x69, 0x69),
        text_light: rgb(0xa9, 0xa9, 0xa9),
    }
}

impl Theme {
    /// The dark preset: `#252525` background, `#151515` dark and `#2f2f2f`
    /// light backgrounds, `#444444` border, gold primary, `#eeeeee`, `#aaaaaa`
    /// and `#575757` text.
    pub fn dark() -> (t: Theme)
        ensures
            t == spec_dark_theme(),
    {
        Theme {
            background: Color::rgb(0x25, 0x25, 0x25),
            background_dark: Color::rgb(0x15, 0x15, 0x15),
            background_light: Color::rgb(0x2f, 0x2f, 0x2f),
            border: Color::rgb(0x44, 0x44, 0x44),
            primary: Color::rgb(255, 215, 0),
            text_primary: Color::rgb(0xee, 0xee, 0xee),
            text_secondary: Color::rgb(0xaa, 0xaa, 0xaa),
            text_light: Color::rgb(0x57, 0x57, 0x57),
        }
    }

    /// The light preset: `#ececf0` background, `#d9d9eb` dark and `#fbfbfb`
    /// light backgrounds, `#a0a0a0` border, gold primary, `#1a1a1a`, `#696969`
    /// and `#a9a9a9` text.
    pub fn light() -> (t: Theme)
        ensures
            t == spec_light_theme(),
    {
        Theme {
            background: Color::rgb(0xec, 0xec, 0xf0),
            background_dark: Color::rgb(0xd9, 0xd9, 0xeb),
            background_light: Color::rgb(0xfb, 0xfb, 0xfb),
            border: Color::rgb(0xa0, 0xa0, 0xa0),
            primary: Color::rgb(255, 215, 0),
            text_primary: Color::rgb(0x1a, 0x1a, 0x1a),
            text_secondary: Color::rgb(0x69, 0x69, 0x69),
            text_light: Color::rgb(0xa9, 0xa9, 0xa9),
        }
    }

    /// The theme that a stored byte-triple form describes.
    pub fn from_proxy(value: &ThemeProxy) -> (t: Theme)
        ensures
            t == proxy_theme(*value),
    {
        Theme {
            background: tuple_to_color(value.background),
            background_light: tuple_to_color(value.background_light),
            background_dark: tuple_to_color(value.background_dark),
            primary: tuple_to_color(value.primary),
            border: tuple_to_color(value.border),
            text_primary: tuple_to_color(value.text_primary),
            text_secondary: tuple_to_color(value.text_secondary),
            text_light: tuple_to_color(value.text_light),
        }
    }
}

/// The stored form of a theme: every colour as a `(r, g, b)` triple.
#[derive(Clone, Copy, PartialEq, Eq, Debug)]
pub struct ThemeProxy {
    pub background: (u8, u8, u8),
    pub background_light: (u8, u8, u8),
    pub background_dark: (u8, u8, u8),
    pub primary: (u8, u8, u8),
    pub border: (u8, u8, u8),
    pub text_primary: (u8, u8, u8),
    pub text_secondary: (u8, u8, u8),
    pub text_light: (u8, u8, u8),
}

/// The triple of a colour's components.
pub open spec fn color_tuple(c: Color) -> (u8, u8, u8) {
    (c.r, c.g, c.b)
}

/// The colour of a component triple.
pub open spec fn tuple_color(t: (u8, u8, u8)) -> Color {
    Color { r: t.0, g: t.1, b: t.2 }
}

/// The stored form of a theme.
pub open spec fn theme_proxy(t: Theme) -> ThemeProxy {
    ThemeProxy {
        background: color_tuple(t.background),
        background_light: color_tuple(t.background_light),
        background_dark: color_tuple(t.background_dark),
        primary: color_tuple(t.primary),
        border: color_tuple(t.border),
        text_primary: color_tuple(t.text_primary),
        text_secondary: color_tuple(t.text_secondary),
        text_light: color_tuple(t.text_light),
    }
}

/// The theme a stored form describes.
pub open spec fn proxy_theme(p: ThemeProxy) -> Theme {
    Theme {
        background: tuple_color(p.background),
        background_light: tuple_color(p.background_light),
        background_dark: tuple_color(p.background_dark),
        primary: tuple_color(p.primary),
        border: tuple_color(p.border),
        text_primary: tuple_color(p.text_primary),
        text_secondary: tuple_color(p.text_secondary),
        text_light: tuple_color(p.text_light),
    }
}

impl ThemeProxy {
    /// The byte-triple form of a theme.
    pub fn from_theme(value: &Theme) -> (p: ThemeProxy)
        ensures
            p == theme_proxy(*value),
    {
        ThemeProxy {
            background: color_to_tuple(value.background),
            background_light: color_to_tuple(value.background_light),
            background_dark: color_to_tuple(value.background_dark),
            primary: color_to_tuple(value.primary),
            border: color_to_tuple(value.border),
            text_primary: color_to_tuple(value.text_primary),
            text_secondary: color_to_tuple(value.text_secondary),
            text_light: color_to_tuple(value.text_light),
        }
    }
}

/// A colour's `(r, g, b)` triple.
pub fn color_to_tuple(color: Color) -> (t: (u8, u8, u8))
    ensures
        t == color_tuple(color),
{
    (color.r(), color.g(), color.b())
}

/// The colour with the components of a `(r, g, b)` triple.
pub fn tuple_to_color(t: (u8, u8, u8)) -> (c: Color)
    ensures
        c == tuple_color(t),
{
    let (r, g, b) = t;
    Color::rgb(r, g, b)
}

/// A colour survives its conversion to a triple and back, and a triple its
/// conversion to a colour and back.
pub proof fn law_color_tuple_roundtrip(c: Color, t: (u8, u8, u8))
    ensures
        tuple_color(color_tuple(c)) == c,
        color_tuple(tuple_color(t)) == t,
{
}

/// A theme read back from its stored form is the theme that was stored, and a
/// stored form rebuilt from the theme it describes is the same stored form.
pub proof fn law_theme_proxy_roundtrip(t: Theme, p: ThemeProxy)
    ensures
        proxy_theme(theme_proxy(t)) == t,
        theme_proxy(proxy_theme(p)) == p,
{
}

} // verus!
