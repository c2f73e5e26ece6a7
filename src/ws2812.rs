//! The byte stream that drives a strip of WS2812 LEDs over an SPI bus.
//!
//! Each data bit of a colour becomes a nibble on the bus (`1000` for a zero,
//! `1100` for a one), so each colour byte becomes four bus bytes, most
//! significant bits first. A frame starts with one zero byte, which keeps one
//! byte in flight in the SPI FIFO, then carries each LED's green, red and
//! blue bytes, and ends with `RESET_BYTES` zero bytes that latch the colours.

use vstd::prelude::*;

verus! {

/// Zero bytes at the end of a frame: over 300 us of low line at 3.8 MHz.
pub const RESET_BYTES: usize = 140;

/// The colour of one LED.
#[derive(Debug, Clone, Copy, PartialEq, Eq, Structural)]
pub struct Rgb {
    pub r: u8,
    pub g: u8,
    pub b: u8,
}

/// The bus byte for two data bits `bits` (0 to 3).
pub open spec fn pattern(bits: u8) -> u8 {
    if bits == 0 {
        0x88
    } else if bits == 1 {
        0x8c
    } else if bits == 2 {
        0xc8
    } else {
        0xcc
    }
}

/// The four bus bytes for `data`, most significant bits first.
pub open spec fn byte_code(data: u8) -> Seq<u8> {
    seq![
        pattern(data >> 6u8),
        pattern((data >> 4u8) & 3u8),
        pattern((data >> 2u8) & 3u8),
        pattern(data & 3u8),
    ]
}

/// The bus bytes for one LED: green, red, then blue.
pub open spec fn color_code(c: Rgb) -> Seq<u8> {
    byte_code(c.g) + byte_code(c.r) + byte_code(c.b)
}

/// The bus bytes for a run of LEDs, in order.
pub open spec fn colors_code(colors: Seq<Rgb>) -> Seq<u8>
    decreases colors.len(),
{
    if colors.len() == 0 {
        Seq::empty()
    } else {
        colors_code(colors.drop_last()) + color_code(colors.last())
    }
}

/// A whole frame for `colors`.
pub open spec fn frame(colors: Seq<Rgb>) -> Seq<u8> {
    seq![0u8] + colors_code(colors) + Seq::new(RESET_BYTES as nat, |i: int| 0u8)
}

fn bus_byte(bits: u8) -> (r: u8)
    requires
        bits < 4,
    ensures
        r == pattern(bits),
{
    if bits == 0 {
        0x88
    } else if bits == 1 {
        0x8c
    } else if bits == 2 {
        0xc8
    } else {
        0xcc
    }
}

/// Appends the four bus bytes for `data`.
pub fn write_byte(out: &mut Vec<u8>, data: u8)
    ensures
        final(out)@ == old(out)@ + byte_code(data),
{
    assert((data >> 6u8) < 4) by (bit_vector);
    assert(((data >> 4u8) & 3u8) < 4) by (bit_vector);
    assert(((data >> 2u8) & 3u8) < 4) by (bit_vector);
    assert((data & 3u8) < 4) by (bit_vector);
    out.push(bus_byte(data >> 6));
    out.push(bus_byte((data >> 4) & 3));
    out.push(bus_byte((data >> 2) & 3));
    out.push(bus_byte(data & 3));
    assert(final(out)@ =~= old(out)@ + byte_code(data));
}

/// Appends the zero bytes that latch the colours.
pub fn flush(out: &mut Vec<u8>)
    ensures
        final(out)@ == old(out)@ + Seq::new(RESET_BYTES as nat, |i: int| 0u8),
{
    let ghost start = out@;
    let mut i: usize = 0;
    while i < RESET_BYTES
        invariant
            i <= RESET_BYTES,
            out@ == start + Seq::new(i as nat, |k: int| 0u8),
        decreases RESET_BYTES - i,
    {
        out.push(0);
        i = i + 1;
        assert(out@ =~= start + Seq::new(i as nat, |k: int| 0u8));
    }
}

/// The bus bytes of a whole frame that shows `colors` on the strip.
pub fn write_frame(colors: &Vec<Rgb>) -> (r: Vec<u8>)
    ensures
        r@ == frame(colors@),
{
    let mut out: Vec<u8> = Vec::new();
    out.push(0);
    let mut i: usize = 0;
    while i < colors.len()
        invariant
            i <= colors@.len(),
            out@ == seq![0u8] + colors_code(colors@.take(i as int)),
        decreases colors@.len() - i,
    {
        let c = colors[i];
        write_byte(&mut out, c.g);
        write_byte(&mut out, c.r);
        write_byte(&mut out, c.b);
        proof {
            assert(colors@.take(i + 1).drop_last() =~= colors@.take(i as int));
        }
        i = i + 1;
        assert(out@ =~= seq![0u8] + colors_code(colors@.take(i as int)));
    }
    assert(colors@.take(i as int) =~= colors@);
    flush(&mut out);
    out
}

} // verus!
