//! Colors with four 8-bit channels.

use vstd::prelude::*;

verus! {

/// A color with red, green, blue and alpha channels.
#[derive(Debug, Clone, Copy, PartialEq, Eq, Structural)]
pub struct Color {
    pub r: u8,
    pub g: u8,
    pub b: u8,
    pub a: u8,
}

/// The upper-case hexadecimal digit for a value below 16.
pub open spec fn hex_digit(v: int) -> char {
    if v == 0 {
        '0'
    } else if v == 1 {
        '1'
    } else if v == 2 {
        '2'
    } else if v == 3 {
        '3'
    } else if v == 4 {
        '4'
    } else if v == 5 {
        '5'
    } else if v == 6 {
        '6'
    } else if v == 7 {
        '7'
    } else if v == 8 {
        '8'
    } else if v == 9 {
        '9'
    } else if v == 10 {
        'A'
    } else if v == 11 {
        'B'
    } else if v == 12 {
        'C'
    } else if v == 13 {
        'D'
    } else if v == 14 {
        'E'
    } else {
        'F'
    }
}

/// The two hexadecimal digits of a byte, most significant first.
pub open spec fn hex_byte(v: u8) -> Seq<char> {
    seq![hex_digit(v as int / 16), hex_digit(v as int % 16)]
}

/// The text `#RRGGBB` of a color; alpha does not appear in it.
pub open spec fn hex_string(c: Color) -> Seq<char> {
    seq!['#'] + hex_byte(c.r) + hex_byte(c.g) + hex_byte(c.b)
}

fn hex_digit_char(v: u8) -> (c: char)
    requires
        v < 16,
    ensures
        c == hex_digit(v as int),
{
    if v == 0 {
        '0'
    } else if v == 1 {
        '1'
    } else if v == 2 {
        '2'
    } else if v == 3 {
        '3'
    } else if v == 4 {
        '4'
    } else if v == 5 {
        '5'
    } else if v == 6 {
        '6'
    } else if v == 7 {
        '7'
    } else if v == 8 {
        '8'
    } else if v == 9 {
        '9'
    } else if v == 10 {
        'A'
    } else if v == 11 {
        'B'
    } else if v == 12 {
        'C'
    } else if v == 13 {
        'D'
    } else if v == 14 {
        'E'
    } else {
        'F'
    }
}

impl Color {
    /// An opaque color.
    pub fn new(r: u8, g: u8, b: u8) -> (c: Color)
        ensures
            c == (Color { r, g, b, a: 255 }),
    {
        Color { r, g, b, a: 255 }
    }

    /// A color with the given alpha.
    pub fn new_rgba(r: u8, g: u8, b: u8, a: u8) -> (c: Color)
        ensures
            c == (Color { r, g, b, a }),
    {
        Color { r, g, b, a }
    }

    /// Opaque black, the fill of every path of a two-level image.
    pub fn black() -> (c: Color)
        ensures
            c == (Color { r: 0, g: 0, b: 0, a: 255 }),
    {
        Color { r: 0, g: 0, b: 0, a: 255 }
    }

    /// Whether two colors agree in red, green and blue.
    pub open spec fn same_rgb(self, other: Color) -> bool {
        self.r == other.r && self.g == other.g && self.b == other.b
    }

    /// Whether every channel is zero: the value that stands for "no key color".
    pub open spec fn is_zero(self) -> bool {
        self.r == 0 && self.g == 0 && self.b == 0 && self.a == 0
    }

    /// Whether two colors agree in red, green and blue.
    pub fn has_same_rgb(&self, other: &Color) -> (same: bool)
        ensures
            same == self.same_rgb(*other),
    {
        self.r == other.r && self.g == other.g && self.b == other.b
    }

    /// The color as `#RRGGBB`.
    pub fn to_hex_string(&self) -> (s: String)
        ensures
            s@ == hex_string(*self),
    {
        let mut s = String::new();
        s.push('#');
        s.push(hex_digit_char(self.r / 16));
        s.push(hex_digit_char(self.r % 16));
        s.push(hex_digit_char(self.g / 16));
        s.push(hex_digit_char(self.g % 16));
        s.push(hex_digit_char(self.b / 16));
        s.push(hex_digit_char(self.b % 16));
        s
    }
}

impl Default for Color {
    /// The all-zero color.
    fn default() -> (c: Color)
        ensures
            c == (Color { r: 0, g: 0, b: 0, a: 0 }),
    {
        Color { r: 0, g: 0, b: 0, a: 0 }
    }
}

} // verus!
