//! The three colours of a tri-colour panel and their plane encoding.
//!
//! | Colour | black/white plane | red plane |
//! |--------|-------------------|-----------|
//! | Black  | 0                 | 0         |
//! | White  | 1                 | 0         |
//! | Red    | 1                 | 1         |

use vstd::prelude::*;

verus! {

/// A pixel colour.
#[derive(Clone, Copy, Debug, PartialEq, Eq, Structural)]
pub enum Color {
    /// Black pixel.
    Black,
    /// White pixel.
    White,
    /// Red pixel.
    Red,
}

impl Color {
    /// Whether the colour sets its bit in the black/white plane.
    pub open spec fn bw_bit(self) -> bool {
        self != Color::Black
    }

    /// Whether the colour sets its bit in the red plane.
    pub open spec fn red_bit(self) -> bool {
        self == Color::Red
    }

    /// The byte that fills eight pixels of the black/white plane with this
    /// colour.
    pub open spec fn spec_bw_byte(self) -> u8 {
        if self.bw_bit() {
            0xFF
        } else {
            0x00
        }
    }

    /// The byte that fills eight pixels of the red plane with this colour.
    pub open spec fn spec_red_byte(self) -> u8 {
        if self.red_bit() {
            0xFF
        } else {
            0x00
        }
    }

    /// The byte that fills eight pixels of the black/white plane with this
    /// colour.
    #[verifier::when_used_as_spec(spec_bw_byte)]
    pub fn bw_byte(self) -> (b: u8)
        ensures
            b == self.spec_bw_byte(),
    {
        match self {
            Color::Black => 0x00,
            Color::White => 0xFF,
            Color::Red => 0xFF,
        }
    }

    /// The byte that fills eight pixels of the red plane with this colour.
    #[verifier::when_used_as_spec(spec_red_byte)]
    pub fn red_byte(self) -> (b: u8)
        ensures
            b == self.spec_red_byte(),
    {
        match self {
            Color::Black => 0x00,
            Color::White => 0x00,
            Color::Red => 0xFF,
        }
    }
}

} // verus!
