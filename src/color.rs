use vstd::prelude::*;

verus! {

/// An RGBA color with one byte per channel.
#[derive(Clone, Copy, Debug, PartialEq, Eq, Structural)]
pub struct Rgba {
    pub r: u8,
    pub g: u8,
    pub b: u8,
    pub a: u8,
}

/// The fully opaque color with the given red, green and blue channels.
pub open spec fn opaque(r: u8, g: u8, b: u8) -> Rgba {
    Rgba { r, g, b, a: 255 }
}

pub fn red() -> (c: Rgba)
    ensures
        c == opaque(255, 0, 0),
{
    Rgba { r: 255, g: 0, b: 0, a: 255 }
}

pub fn green() -> (c: Rgba)
    ensures
        c == opaque(0, 255, 0),
{
    Rgba { r: 0, g: 255, b: 0, a: 255 }
}

pub fn blue() -> (c: Rgba)
    ensures
        c == opaque(0, 0, 255),
{
    Rgba { r: 0, g: 0, b: 255, a: 255 }
}

pub fn white() -> (c: Rgba)
    ensures
        c == opaque(255, 255, 255),
{
    Rgba { r: 255, g: 255, b: 255, a: 255 }
}

pub fn gray() -> (c: Rgba)
    ensures
        c == opaque(128, 128, 128),
{
    Rgba { r: 128, g: 128, b: 128, a: 255 }
}

pub fn black() -> (c: Rgba)
    ensures
        c == opaque(0, 0, 0),
{
    Rgba { r: 0, g: 0, b: 0, a: 255 }
}

} // verus!
