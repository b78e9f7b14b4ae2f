use vstd::prelude::*;

use crate::rng::random_byte;

verus! {

/// A colour for an LED slot.
///
/// RGB LEDs consume all three channels; mono LEDs reduce the colour to a
/// single on/off byte through `as_mono` / `as_1bit`.
#[derive(Clone, Copy, Debug, PartialEq, Eq, Structural)]
pub struct Colour {
    pub r: u8,
    pub g: u8,
    pub b: u8,
}

/// The single-byte reduction of a colour: full on when any channel is above
/// the mono threshold `0x7F`, full off otherwise.
pub open spec fn spec_as_mono(c: Colour) -> u8 {
    if c.r > 0x7F || c.g > 0x7F || c.b > 0x7F {
        0xFF
    } else {
        0x00
    }
}

impl Colour {
    /// Construct a new colour from its channels.
    pub fn new(r: u8, g: u8, b: u8) -> (c: Colour)
        ensures
            c == (Colour { r, g, b }),
    {
        Colour { r, g, b }
    }

    /// A colour with all three channels drawn at random.
    pub fn random() -> Colour {
        Colour { r: random_byte(), g: random_byte(), b: random_byte() }
    }

    /// "Monochrome" representation of the colour.
    pub fn as_mono(&self) -> (m: u8)
        ensures
            m == spec_as_mono(*self),
    {
        if (self.r > 0x7F) || (self.g > 0x7F) || (self.b > 0x7F) {
            0xFF
        } else {
            0x00
        }
    }

    /// "Monochrome" representation of the colour, as a 1-bit sentinel byte.
    pub fn as_1bit(&self) -> (m: u8)
        ensures
            m == spec_as_mono(*self),
    {
        self.as_mono()
    }

    /// Return the components of this colour.
    pub fn components(&self) -> (c: (u8, u8, u8))
        ensures
            c == (self.r, self.g, self.b),
    {
        (self.r, self.g, self.b)
    }

    /// All channels off.
    pub fn black() -> (c: Colour)
        ensures
            c == (Colour { r: 0x00, g: 0x00, b: 0x00 }),
    {
        Colour { r: 0x00, g: 0x00, b: 0x00 }
    }

    /// All channels at full intensity.
    pub fn white() -> (c: Colour)
        ensures
            c == (Colour { r: 0xFF, g: 0xFF, b: 0xFF }),
    {
        Colour { r: 0xFF, g: 0xFF, b: 0xFF }
    }

    /// Full red.
    pub fn red() -> (c: Colour)
        ensures
            c == (Colour { r: 0xFF, g: 0x00, b: 0x00 }),
    {
        Colour { r: 0xFF, g: 0x00, b: 0x00 }
    }

    /// Full green.
    pub fn green() -> (c: Colour)
        ensures
            c == (Colour { r: 0x00, g: 0xFF, b: 0x00 }),
    {
        Colour { r: 0x00, g: 0xFF, b: 0x00 }
    }

    /// Full blue.
    pub fn blue() -> (c: Colour)
        ensures
            c == (Colour { r: 0x00, g: 0x00, b: 0xFF }),
    {
        Colour { r: 0x00, g: 0x00, b: 0xFF }
    }
}

} // verus!
