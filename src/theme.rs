use vstd::prelude::*;

verus! {

/// A colour by its red, green and blue levels.
#[derive(Debug, Clone, Copy, PartialEq, Eq, Structural)]
pub struct Rgb {
    pub r: u8,
    pub g: u8,
    pub b: u8,
}

/// The palette of the terminal view, after classic arcade games and DOS
/// terminals.
pub struct RetroTheme;

impl RetroTheme {
    /// Electric cyan.
    pub fn cyan() -> (c: Rgb)
        ensures
            c == (Rgb { r: 0, g: 255, b: 255 }),
    {
        Rgb { r: 0, g: 255, b: 255 }
    }

    /// Hot pink magenta.
    pub fn magenta() -> (c: Rgb)
        ensures
            c == (Rgb { r: 255, g: 0, b: 255 }),
    {
        Rgb { r: 255, g: 0, b: 255 }
    }

    /// Bright yellow.
    pub fn yellow() -> (c: Rgb)
        ensures
            c == (Rgb { r: 255, g: 255, b: 0 }),
    {
        Rgb { r: 255, g: 255, b: 0 }
    }

    /// Neon green.
    pub fn green() -> (c: Rgb)
        ensures
            c == (Rgb { r: 0, g: 255, b: 159 }),
    {
        Rgb { r: 0, g: 255, b: 159 }
    }

    /// Dark gray.
    pub fn dark_gray() -> (c: Rgb)
        ensures
            c == (Rgb { r: 64, g: 64, b: 64 }),
    {
        Rgb { r: 64, g: 64, b: 64 }
    }
}

} // verus!
