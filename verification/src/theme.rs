//! Colours.

use vstd::prelude::*;

verus! {

/// A colour with eight bits per channel; `a` is the opacity.
#[derive(Clone, Copy, PartialEq, Eq, Structural, Hash, Debug)]
pub struct Color {
    pub r: u8,
    pub g: u8,
    pub b: u8,
    pub a: u8,
}

impl Color {
    /// A fully opaque colour.
    pub fn rgb(r: u8, g: u8, b: u8) -> (colour: Color)
        ensures
            colour == (Color { r, g, b, a: 255 }),
    {
        Color { r, g, b, a: 255 }
    }
}

/// The colours of every part of the screen.
#[derive(Clone, Copy, PartialEq, Eq, Structural, Debug)]
pub struct Theme {
    pub active: Color,
    pub inactive: Color,
    pub tasks: Color,
    pub text: Color,
    pub cursor: Color,
    pub header: Color,
    pub selected: Color,
    pub scrollbar: Color,
    pub byte: Color,
    pub kilo: Color,
    pub mega: Color,
    pub giga: Color,
}

impl Theme {
    /// The palette the browser starts with.
    pub open spec fn standard() -> Theme {
        Theme {
            active: Color { r: 90, g: 90, b: 90, a: 255 },
            inactive: Color { r: 70, g: 70, b: 70, a: 255 },
            tasks: Color { r: 45, g: 200, b: 155, a: 255 },
            text: Color { r: 22, g: 255, b: 44, a: 255 },
            cursor: Color { r: 70, g: 50, b: 122, a: 255 },
            header: Color { r: 250, g: 250, b: 250, a: 255 },
            selected: Color { r: 250, g: 120, b: 0, a: 255 },
            scrollbar: Color { r: 180, g: 180, b: 180, a: 255 },
            byte: Color { r: 100, g: 160, b: 20, a: 255 },
            kilo: Color { r: 140, g: 160, b: 20, a: 255 },
            mega: Color { r: 180, g: 160, b: 20, a: 255 },
            giga: Color { r: 240, g: 160, b: 20, a: 255 },
        }
    }

    /// The colours that the browser starts with: see [`Theme::standard`].
    pub fn default() -> (theme: Theme)
        ensures
            theme == Theme::standard(),
    {
        Theme {
            active: Color::rgb(90, 90, 90),
            inactive: Color::rgb(70, 70, 70),
            tasks: Color::rgb(45, 200, 155),
            text: Color::rgb(22, 255, 44),
            cursor: Color::rgb(70, 50, 122),
            header: Color::rgb(250, 250, 250),
            selected: Color::rgb(250, 120, 0),
            scrollbar: Color::rgb(180, 180, 180),
            byte: Color::rgb(100, 160, 20),
            kilo: Color::rgb(140, 160, 20),
            mega: Color::rgb(180, 160, 20),
            giga: Color::rgb(240, 160, 20),
        }
    }
}

} // verus!
