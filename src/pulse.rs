//! Pulse codes for the LED protocol. The cycle counts assume that the
//! transmitter runs at 80 MHz; at another clock rate they must be recomputed.
use vstd::prelude::*;
use crate::color::Color;

verus! {

/// Clock cycles of the short half of a data pulse (0.40 us at 80 MHz).
pub const SHORT: u16 = 32;

/// Clock cycles of the long half of a data pulse (0.85 us at 80 MHz).
pub const LONG: u16 = 68;

/// Clock cycles of the low level that ends a frame (50 us at 80 MHz).
pub const RESET_CYCLES: u16 = 4000;

/// Largest length that a pulse code can carry (15 bits).
pub const MAX_LEN: u16 = 0x7FFF;

/// Number of pulse codes in one frame: 24 data bits and a reset code.
pub const FRAME_LEN: usize = 25;

/// A two-phase pulse: `level1` for `length1` cycles, then `level2` for
/// `length2` cycles.
#[derive(Clone, Copy, Debug, PartialEq, Eq, Structural)]
pub struct PulseCode {
    pub level1: bool,
    pub length1: u16,
    pub level2: bool,
    pub length2: u16,
}

/// The code for a one bit: high for a long time, then low for a short time.
pub open spec fn one_spec() -> PulseCode {
    PulseCode { level1: true, length1: LONG, level2: false, length2: SHORT }
}

/// The code for a zero bit: high for a short time, then low for a long time.
pub open spec fn zero_spec() -> PulseCode {
    PulseCode { level1: true, length1: SHORT, level2: false, length2: LONG }
}

/// The code that ends a frame: low for the reset time.
pub open spec fn reset_spec() -> PulseCode {
    PulseCode { level1: false, length1: 0, level2: false, length2: RESET_CYCLES }
}

/// Whether bit `i` of `b`, counted from the most significant one, is set.
pub open spec fn msb_bit(b: u8, i: int) -> bool {
    (b >> ((7 - i) as u8)) & 1u8 == 1u8
}

/// The pulse code that carries bit `i` (most significant first) of `b`.
pub open spec fn bit_code(b: u8, i: int) -> PulseCode {
    if msb_bit(b, i) {
        one_spec()
    } else {
        zero_spec()
    }
}

/// The byte sent in slot `k` of a frame: green, red, then blue.
pub open spec fn frame_byte(c: Color, k: int) -> u8 {
    if k == 0 {
        c.g
    } else if k == 1 {
        c.r
    } else {
        c.b
    }
}

/// Pulse code `i` of the frame for `c`.
pub open spec fn frame_code(c: Color, i: int) -> PulseCode {
    if i < 24 {
        bit_code(frame_byte(c, i / 8), i % 8)
    } else {
        reset_spec()
    }
}

/// The 32-bit word of a pulse code as the transmitter reads it:
/// `length1` in bits 0-14, `level1` in bit 15, `length2` in bits 16-30 and
/// `level2` in bit 31.
pub open spec fn word_of(p: PulseCode) -> u32 {
    let lv1: u32 = if p.level1 { 1 } else { 0 };
    let lv2: u32 = if p.level2 { 1 } else { 0 };
    (lv2 << 31u32) | ((p.length2 as u32) << 16u32) | (lv1 << 15u32) | (p.length1 as u32)
}

impl PulseCode {
    /// Both lengths fit in the 15 bits of the transmitter's word.
    pub open spec fn wf(self) -> bool {
        self.length1 <= MAX_LEN && self.length2 <= MAX_LEN
    }

    pub fn one() -> (p: PulseCode)
        ensures
            p == one_spec(),
    {
        PulseCode { level1: true, length1: LONG, level2: false, length2: SHORT }
    }

    pub fn zero() -> (p: PulseCode)
        ensures
            p == zero_spec(),
    {
        PulseCode { level1: true, length1: SHORT, level2: false, length2: LONG }
    }

    pub fn reset() -> (p: PulseCode)
        ensures
            p == reset_spec(),
    {
        PulseCode { level1: false, length1: 0, level2: false, length2: RESET_CYCLES }
    }

    /// Packs the code into the transmitter's 32-bit word.
    pub fn to_word(self) -> (w: u32)
        requires
            self.wf(),
        ensures
            w == word_of(self),
    {
        let lv2: u32 = if self.level2 { 1 } else { 0 };
        let lv1: u32 = if self.level1 { 1 } else { 0 };
        (lv2 << 31u32) | ((self.length2 as u32) << 16u32) | (lv1 << 15u32) | (self.length1 as u32)
    }
}

/// Whether bit `i` (most significant first) of `b` is set.
fn msb_bit_exec(b: u8, i: u8) -> (r: bool)
    requires
        i < 8,
    ensures
        r == msb_bit(b, i as int),
{
    (b >> (7 - i)) & 1u8 == 1u8
}

/// Encodes a byte as eight pulse codes, most significant bit first.
pub fn encode_byte(b: u8) -> (r: [PulseCode; 8])
    ensures
        forall|i: int| 0 <= i < 8 ==> #[trigger] r[i] == bit_code(b, i),
{
    let one = PulseCode::one();
    let zero = PulseCode::zero();
    let mut r: [PulseCode; 8] = [zero; 8];
    let mut i: u8 = 0;
    while i < 8
        invariant
            i <= 8,
            one == one_spec(),
            zero == zero_spec(),
            forall|j: int| 0 <= j < i ==> #[trigger] r[j] == bit_code(b, j),
        decreases 8 - i,
    {
        let code = if msb_bit_exec(b, i) { one } else { zero };
        r[i as usize] = code;
        i = i + 1;
    }
    r
}

/// Writes the transmitter words of the eight codes of `b` into `out`.
pub fn write_byte(out: &mut [u32], b: u8)
    requires
        old(out)@.len() == 8,
    ensures
        final(out)@.len() == 8,
        forall|i: int| 0 <= i < 8 ==> #[trigger] final(out)@[i] == word_of(bit_code(b, i)),
{
    let codes = encode_byte(b);
    let mut i: usize = 0;
    while i < 8
        invariant
            i <= 8,
            out@.len() == 8,
            forall|j: int| 0 <= j < 8 ==> #[trigger] codes[j] == bit_code(b, j),
            forall|j: int| 0 <= j < i ==> #[trigger] out@[j] == word_of(bit_code(b, j)),
        decreases 8 - i,
    {
        out[i] = codes[i].to_word();
        i = i + 1;
    }
}

/// The byte sent in slot `k` (0, 1 or 2) of the frame for `c`.
fn frame_byte_exec(c: Color, k: usize) -> (r: u8)
    requires
        k < 3,
    ensures
        r == frame_byte(c, k as int),
{
    if k == 0 {
        c.g
    } else if k == 1 {
        c.r
    } else {
        c.b
    }
}

/// Encodes a color as one frame: the bits of green, red and blue, most
/// significant first, then the reset code.
pub fn encode_frame(c: Color) -> (r: [PulseCode; 25])
    ensures
        forall|i: int| 0 <= i < 25 ==> #[trigger] r[i] == frame_code(c, i),
        r[24] == reset_spec(),
{
    let one = PulseCode::one();
    let zero = PulseCode::zero();
    let mut r: [PulseCode; 25] = [PulseCode::reset(); 25];
    let mut i: usize = 0;
    while i < 24
        invariant
            i <= 24,
            one == one_spec(),
            zero == zero_spec(),
            forall|j: int| 0 <= j < i ==> #[trigger] r[j] == frame_code(c, j),
            forall|j: int| i <= j < 25 ==> #[trigger] r[j] == reset_spec(),
        decreases 24 - i,
    {
        let byte = frame_byte_exec(c, i / 8);
        let code = if msb_bit_exec(byte, (i % 8) as u8) { one } else { zero };
        r[i] = code;
        i = i + 1;
    }
    r
}

/// Writes the transmitter words of the frame for `c` into `out`.
pub fn write_frame(out: &mut [u32], c: Color)
    requires
        old(out)@.len() == FRAME_LEN,
    ensures
        final(out)@.len() == FRAME_LEN,
        forall|i: int| 0 <= i < 25 ==> #[trigger] final(out)@[i] == word_of(frame_code(c, i)),
{
    let codes = encode_frame(c);
    let mut i: usize = 0;
    while i < 25
        invariant
            i <= 25,
            out@.len() == 25,
            forall|j: int| 0 <= j < 25 ==> #[trigger] codes[j] == frame_code(c, j),
            forall|j: int| 0 <= j < i ==> #[trigger] out@[j] == word_of(frame_code(c, j)),
        decreases 25 - i,
    {
        out[i] = codes[i].to_word();
        i = i + 1;
    }
}

} // verus!
