//! Colours that follow the light/dark theme.

use vstd::prelude::*;

verus! {

/// A colour by its red, green and blue parts.
#[derive(Clone, Copy, Debug, PartialEq, Eq, Structural)]
pub struct Rgb {
    pub red: u8,
    pub green: u8,
    pub blue: u8,
}

/// A card's title: white on dark, near-black on light.
pub open spec fn title_rgb(dark_mode: bool) -> Rgb {
    if dark_mode {
        Rgb { red: 255, green: 255, blue: 255 }
    } else {
        Rgb { red: 3, green: 3, blue: 3 }
    }
}

/// A card's link: cyan on dark, red on light.
pub open spec fn link_rgb(dark_mode: bool) -> Rgb {
    if dark_mode {
        Rgb { red: 0, green: 255, blue: 255 }
    } else {
        Rgb { red: 255, green: 0, blue: 0 }
    }
}

pub fn title_colour(dark_mode: bool) -> (colour: Rgb)
    ensures
        colour == title_rgb(dark_mode),
{
    if dark_mode {
        Rgb { red: 255, green: 255, blue: 255 }
    } else {
        Rgb { red: 3, green: 3, blue: 3 }
    }
}

pub fn link_colour(dark_mode: bool) -> (colour: Rgb)
    ensures
        colour == link_rgb(dark_mode),
{
    if dark_mode {
        Rgb { red: 0, green: 255, blue: 255 }
    } else {
        Rgb { red: 255, green: 0, blue: 0 }
    }
}

} // verus!
