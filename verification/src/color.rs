//! The 16-color palette of the clock, the color configuration, and the
//! rainbow cycle.

use vstd::prelude::*;

verus! {

/// One of the 16 named ANSI colors (8 standard, 8 bright).
#[derive(Debug, Clone, Copy, PartialEq, Eq, Structural)]
pub enum Color {
    Black,
    Red,
    Green,
    Yellow,
    Blue,
    Magenta,
    Cyan,
    White,
    BrightBlack,
    BrightRed,
    BrightGreen,
    BrightYellow,
    BrightBlue,
    BrightMagenta,
    BrightCyan,
    BrightWhite,
}

/// The palette index of a color, in the standard ANSI order.
pub open spec fn color_index(c: Color) -> int {
    match c {
        Color::Black => 0,
        Color::Red => 1,
        Color::Green => 2,
        Color::Yellow => 3,
        Color::Blue => 4,
        Color::Magenta => 5,
        Color::Cyan => 6,
        Color::White => 7,
        Color::BrightBlack => 8,
        Color::BrightRed => 9,
        Color::BrightGreen => 10,
        Color::BrightYellow => 11,
        Color::BrightBlue => 12,
        Color::BrightMagenta => 13,
        Color::BrightCyan => 14,
        Color::BrightWhite => 15,
    }
}

impl Color {
    /// The palette index of this color.
    pub fn index(self) -> (r: u8)
        ensures
            r as int == color_index(self),
            r < 16,
    {
        match self {
            Color::Black => 0,
            Color::Red => 1,
            Color::Green => 2,
            Color::Yellow => 3,
            Color::Blue => 4,
            Color::Magenta => 5,
            Color::Cyan => 6,
            Color::White => 7,
            Color::BrightBlack => 8,
            Color::BrightRed => 9,
            Color::BrightGreen => 10,
            Color::BrightYellow => 11,
            Color::BrightBlue => 12,
            Color::BrightMagenta => 13,
            Color::BrightCyan => 14,
            Color::BrightWhite => 15,
        }
    }
}

impl Default for Color {
    fn default() -> (r: Self)
        ensures
            r == Color::White,
    {
        Color::White
    }
}

/// The six colors of the rainbow cycle, in the order they are handed out.
pub open spec fn rainbow_spec(i: int) -> Color {
    if i % 6 == 0 {
        Color::Red
    } else if i % 6 == 1 {
        Color::Yellow
    } else if i % 6 == 2 {
        Color::Green
    } else if i % 6 == 3 {
        Color::Cyan
    } else if i % 6 == 4 {
        Color::Blue
    } else {
        Color::Magenta
    }
}

/// The rainbow color for the `i`-th colored character, cycling through the
/// six-entry palette.
pub fn rainbow_color(i: usize) -> (c: Color)
    ensures
        c == rainbow_spec(i as int),
{
    let r: usize = i % 6;
    if r == 0 {
        Color::Red
    } else if r == 1 {
        Color::Yellow
    } else if r == 2 {
        Color::Green
    } else if r == 3 {
        Color::Cyan
    } else if r == 4 {
        Color::Blue
    } else {
        Color::Magenta
    }
}

/// How the clock is colored: one color for the digits, one for the `:`
/// delimiters, and an optional rainbow mode that overrides both.
#[derive(Debug, Clone, Copy, PartialEq, Eq, Structural)]
pub struct ColorConfig {
    pub number_color: Color,
    pub delimiter_color: Color,
    pub rainbow_mode: bool,
}

} // verus!
