//! The named colours of the game.

use vstd::prelude::*;

verus! {

/// A colour of the game's palette.
#[derive(Clone, Copy, Debug, PartialEq, Eq, Structural)]
pub enum Colour {
    Blue,
    Red,
    Green,
    Yellow,
    Magenta,
    Cyan,
    White,
    Black,
}

impl Colour {
    /// The red, green, blue and alpha channels of the colour, as the
    /// sequence of channel values the spec functions speak of.
    pub open spec fn rgba_spec(self) -> Seq<u8> {
        match self {
            Colour::Blue => seq![0u8, 0u8, 255u8, 255u8],
            Colour::Red => seq![255u8, 0u8, 0u8, 255u8],
            Colour::Green => seq![0u8, 255u8, 0u8, 255u8],
            Colour::Yellow => seq![255u8, 255u8, 0u8, 255u8],
            Colour::Magenta => seq![255u8, 0u8, 255u8, 255u8],
            Colour::Cyan => seq![0u8, 255u8, 255u8, 255u8],
            Colour::White => seq![255u8, 255u8, 255u8, 255u8],
            Colour::Black => seq![0u8, 0u8, 0u8, 255u8],
        }
    }

    /// The colour's channels, red, green, blue and alpha, each from 0 to 255.
    pub fn rgba(&self) -> (r: [u8; 4])
        ensures
            r@ == self.rgba_spec(),
    {
        let r: [u8; 4] = match self {
            Colour::Blue => [0, 0, 255, 255],
            Colour::Red => [255, 0, 0, 255],
            Colour::Green => [0, 255, 0, 255],
            Colour::Yellow => [255, 255, 0, 255],
            Colour::Magenta => [255, 0, 255, 255],
            Colour::Cyan => [0, 255, 255, 255],
            Colour::White => [255, 255, 255, 255],
            Colour::Black => [0, 0, 0, 255],
        };
        assert(r@ =~= self.rgba_spec());
        r
    }
}

} // verus!
