//! RGBA color values and the wire encoding that reverses their channel
//! order: the protocol packs a color's four bytes end-to-end reversed
//! relative to the conventional red-first representation.
use vstd::prelude::*;

verus! {

/// A color with four 8-bit channels: red, green, blue, alpha.
#[derive(Clone, Copy, PartialEq, Eq, Structural, Debug)]
pub struct Rgba {
    pub r: u8,
    pub g: u8,
    pub b: u8,
    pub a: u8,
}

impl Rgba {
    /// The packed wire form: the four channel bytes in reverse order, so
    /// alpha ends up in the most significant byte and red in the least.
    pub open spec fn encoded(self) -> u32 {
        ((self.a as u32) << 24) | ((self.b as u32) << 16) | ((self.g as u32) << 8) | (self.r
            as u32)
    }

    /// The color whose reversed packing is `v`.
    pub open spec fn decoded(v: u32) -> Rgba {
        Rgba {
            r: (v & 0xff) as u8,
            g: ((v >> 8) & 0xff) as u8,
            b: ((v >> 16) & 0xff) as u8,
            a: ((v >> 24) & 0xff) as u8,
        }
    }

    pub fn new(r: u8, g: u8, b: u8, a: u8) -> (c: Rgba)
        ensures
            c == (Rgba { r, g, b, a }),
    {
        Rgba { r, g, b, a }
    }
}

/// Packs a color into the protocol's reversed channel order.
pub fn encode_color(c: Rgba) -> (v: u32)
    ensures
        v == c.encoded(),
{
    ((c.a as u32) << 24) | ((c.b as u32) << 16) | ((c.g as u32) << 8) | (c.r as u32)
}

/// Recovers the color from its reversed packing.
pub fn decode_color(v: u32) -> (c: Rgba)
    ensures
        c == Rgba::decoded(v),
{
    Rgba {
        r: (v & 0xff) as u8,
        g: ((v >> 8) & 0xff) as u8,
        b: ((v >> 16) & 0xff) as u8,
        a: ((v >> 24) & 0xff) as u8,
    }
}

/// Reversing the channel order is its own inverse: decoding an encoded
/// color gives the original color back, for every color.
pub proof fn lemma_color_involution(c: Rgba)
    ensures
        Rgba::decoded(c.encoded()) == c,
{
    let r = c.r;
    let g = c.g;
    let b = c.b;
    let a = c.a;
    let v = c.encoded();
    assert({
        let w = ((a as u32) << 24) | ((b as u32) << 16) | ((g as u32) << 8) | (r as u32);
        (w & 0xff) == r as u32 && ((w >> 8) & 0xff) == g as u32 && ((w >> 16) & 0xff) == b as u32
            && ((w >> 24) & 0xff) == a as u32
    }) by (bit_vector);
}

} // verus!
