//! Colour values and their lowering into transport words.

use vstd::prelude::*;
use embedded_graphics_core::pixelcolor::raw::ToBytes;

verus! {

/// 16-bit RGB colour with 5 bits of red, 6 of green and 5 of blue.
#[derive(Clone, Copy, Debug, PartialEq, Eq)]
pub struct Rgb565 {
    pub r: u8,
    pub g: u8,
    pub b: u8,
}

/// 18-bit RGB colour with 6 bits in each channel.
#[derive(Clone, Copy, Debug, PartialEq, Eq)]
pub struct Rgb666 {
    pub r: u8,
    pub g: u8,
    pub b: u8,
}

impl Rgb565 {
    /// Every channel fits its bit width.
    pub open spec fn wf(self) -> bool {
        self.r < 32 && self.g < 64 && self.b < 32
    }

    /// The packed 5/6/5 value: red in the top bits, blue in the bottom.
    pub open spec fn packed(self) -> int {
        self.r as int * 2048 + self.g as int * 32 + self.b as int
    }

    /// Builds a colour; bits above each channel's width are cleared.
    pub fn new(r: u8, g: u8, b: u8) -> (c: Rgb565)
        ensures
            c.wf(),
            c.r == r % 32,
            c.g == g % 64,
            c.b == b % 32,
    {
        Rgb565 { r: r % 32, g: g % 64, b: b % 32 }
    }
}

impl Rgb666 {
    /// Every channel fits in 6 bits.
    pub open spec fn wf(self) -> bool {
        self.r < 64 && self.g < 64 && self.b < 64
    }

    /// Builds a colour; bits above the sixth of each channel are cleared.
    pub fn new(r: u8, g: u8, b: u8) -> (c: Rgb666)
        ensures
            c.wf(),
            c.r == r % 64,
            c.g == g % 64,
            c.b == b % 64,
    {
        Rgb666 { r: r % 64, g: g % 64, b: b % 64 }
    }
}

/// The two bytes of a 16-bit value, most significant first.
pub open spec fn be_bytes(v: int) -> Seq<u8> {
    seq![(v / 256) as u8, (v % 256) as u8]
}

/// Relies on embedded_graphics_core's `ToBytes::to_be_bytes` for `Rgb565`:
/// the packed 5/6/5 value as two big-endian bytes.
#[verifier::external_body]
fn rgb565_be_bytes(c: Rgb565) -> (r: [u8; 2])
    requires
        c.wf(),
    ensures
        r@ == be_bytes(c.packed()),
{
    embedded_graphics_core::pixelcolor::Rgb565::new(c.r, c.g, c.b).to_be_bytes()
}

/// Relies on embedded_graphics_core's `ToBytes::to_ne_bytes` for `Rgb565`:
/// the packed 5/6/5 value in the platform's byte order, read back as one word.
#[verifier::external_body]
fn rgb565_native_word(c: Rgb565) -> (r: u16)
    requires
        c.wf(),
    ensures
        r as int == c.packed(),
{
    u16::from_ne_bytes(embedded_graphics_core::pixelcolor::Rgb565::new(c.r, c.g, c.b).to_ne_bytes())
}

/// Shifting a 6-bit value left by two multiplies it by four, without loss.
proof fn lemma_shift_six_bits(x: u8)
    requires
        x < 64,
    ensures
        x << 2 == x * 4,
        x * 4 < 256,
{
    assert(x << 2 == x * 4) by (bit_vector)
        requires
            x < 64,
    ;
}

/// A 16-bit colour as two bytes for an 8-bit transport.
pub fn rgb565_to_bytes(pixel: Rgb565) -> (r: [u8; 2])
    requires
        pixel.wf(),
    ensures
        r@ == be_bytes(pixel.packed()),
{
    rgb565_be_bytes(pixel)
}

/// A 16-bit colour as one word for a 16-bit transport.
pub fn rgb565_to_u16(pixel: Rgb565) -> (r: [u16; 1])
    requires
        pixel.wf(),
    ensures
        r@ == seq![pixel.packed() as u16],
        r[0] as int == pixel.packed(),
{
    let r = [rgb565_native_word(pixel)];
    assert(r@ =~= seq![r[0]]);
    r
}

/// An 18-bit colour as three bytes, each channel in the high six bits.
pub fn rgb666_to_bytes(pixel: Rgb666) -> (r: [u8; 3])
    requires
        pixel.wf(),
    ensures
        r@ == seq![(pixel.r * 4) as u8, (pixel.g * 4) as u8, (pixel.b * 4) as u8],
{
    let r = [pixel.r << 2, pixel.g << 2, pixel.b << 2];
    proof {
        lemma_shift_six_bits(pixel.r);
        lemma_shift_six_bits(pixel.g);
        lemma_shift_six_bits(pixel.b);
    }
    assert(r@ =~= seq![(pixel.r * 4) as u8, (pixel.g * 4) as u8, (pixel.b * 4) as u8]);
    r
}

} // verus!
