//! Conversion between temperatures and the device's temperature registers.
//!
//! Temperatures are counted in sixteenths of a degree Celsius. A register
//! holds a two's-complement value left-justified in a 16-bit word sent as a
//! most significant and a least significant byte: a 12-bit value over four
//! unused low bits in normal mode, a 13-bit value over three unused low bits
//! in extended mode.
use vstd::prelude::*;
use vstd::arithmetic::div_mod::lemma_fundamental_div_mod_converse;

verus! {

/// Lowest temperature, in sixteenths of a degree, of normal mode (-128 °C).
pub const NORMAL_MIN: i32 = -2048;
/// Highest temperature, in sixteenths of a degree, of normal mode (127.9375 °C).
pub const NORMAL_MAX: i32 = 2047;
/// Lowest temperature, in sixteenths of a degree, of extended mode (-256 °C).
pub const EXTENDED_MIN: i32 = -4096;
/// Highest temperature, in sixteenths of a degree, that a threshold takes in
/// extended mode (255.875 °C).
pub const EXTENDED_MAX: i32 = 4094;

/// `t` brought into `[lo, hi]`.
pub open spec fn clamp(t: int, lo: int, hi: int) -> int {
    if t < lo {
        lo
    } else if t > hi {
        hi
    } else {
        t
    }
}

/// The two bytes, most significant first, of the 16-bit two's-complement
/// word of `v`.
pub open spec fn register_bytes(v: int) -> (u8, u8) {
    let w = if v < 0 { v + 0x1_0000 } else { v };
    ((w / 256) as u8, (w % 256) as u8)
}

/// The signed value of the 16-bit two's-complement word `msb`, `lsb`.
pub open spec fn register_value(msb: u8, lsb: u8) -> int {
    let w = msb as int * 256 + lsb as int;
    if w >= 0x8000 { w - 0x1_0000 } else { w }
}

/// The register bytes of temperature `t` in normal mode, after clamping.
pub open spec fn normal_register(t: int) -> (u8, u8) {
    register_bytes(clamp(t, NORMAL_MIN as int, NORMAL_MAX as int) * 16)
}

/// The temperature that register bytes hold in normal mode.
pub open spec fn normal_temperature(msb: u8, lsb: u8) -> int {
    register_value(msb, lsb) / 16
}

/// The register bytes of temperature `t` in extended mode, after clamping.
pub open spec fn extended_register(t: int) -> (u8, u8) {
    register_bytes(clamp(t, EXTENDED_MIN as int, EXTENDED_MAX as int) * 8)
}

/// The temperature that register bytes hold in extended mode.
pub open spec fn extended_temperature(msb: u8, lsb: u8) -> int {
    register_value(msb, lsb) / 8
}

fn to_register_bytes(v: i32) -> (r: (u8, u8))
    requires
        -0x8000 <= v < 0x8000,
    ensures
        r == register_bytes(v as int),
{
    let w: u32 = if v < 0 { (v + 0x1_0000) as u32 } else { v as u32 };
    ((w / 256) as u8, (w % 256) as u8)
}

/// The unsigned word `msb`, `lsb` shifted right by `shift` bits, read as a
/// two's-complement value of `16 - shift` bits.
fn from_register_bytes(msb: u8, lsb: u8, shift: u32) -> (r: i16)
    requires
        shift == 3 || shift == 4,
    ensures
        shift == 4 ==> r == register_value(msb, lsb) / 16,
        shift == 3 ==> r == register_value(msb, lsb) / 8,
{
    let w: u32 = msb as u32 * 256 + lsb as u32;
    let d: u32 = if shift == 4 { 16 } else { 8 };
    let half: u32 = 0x8000 / d;
    let field: u32 = w / d;
    proof {
        let m = w as int % d as int;
        lemma_fundamental_div_mod_converse(w as int, d as int, field as int, m);
        if w >= 0x8000 {
            lemma_fundamental_div_mod_converse(
                w as int - 0x1_0000,
                d as int,
                field as int - 0x1_0000int / d as int,
                m,
            );
        }
    }
    if field >= half {
        (field as i32 - 2 * half as i32) as i16
    } else {
        field as i16
    }
}

/// Register bytes of temperature `t` (in sixteenths of a degree) in normal
/// mode, `t` clamped to `[-128.0, 127.9375]` °C.
pub fn encode_normal(t: i32) -> (r: (u8, u8))
    ensures
        r == normal_register(t as int),
{
    let c: i32 = if t < NORMAL_MIN { NORMAL_MIN } else if t > NORMAL_MAX { NORMAL_MAX } else { t };
    to_register_bytes(c * 16)
}

/// Temperature, in sixteenths of a degree, that register bytes hold in
/// normal mode; the four low bits are ignored.
pub fn decode_normal(msb: u8, lsb: u8) -> (r: i16)
    ensures
        r as int == normal_temperature(msb, lsb),
{
    from_register_bytes(msb, lsb, 4)
}

/// Register bytes of temperature `t` (in sixteenths of a degree) in extended
/// mode, `t` clamped to `[-256.0, 255.875]` °C.
pub fn encode_extended(t: i32) -> (r: (u8, u8))
    ensures
        r == extended_register(t as int),
{
    let c: i32 = if t < EXTENDED_MIN {
        EXTENDED_MIN
    } else if t > EXTENDED_MAX {
        EXTENDED_MAX
    } else {
        t
    };
    to_register_bytes(c * 8)
}

/// Temperature, in sixteenths of a degree, that register bytes hold in
/// extended mode; the three low bits are ignored.
pub fn decode_extended(msb: u8, lsb: u8) -> (r: i16)
    ensures
        r as int == extended_temperature(msb, lsb),
{
    from_register_bytes(msb, lsb, 3)
}

proof fn lemma_register_value_of_bytes(v: int)
    requires
        -0x8000 <= v < 0x8000,
    ensures
        register_value(register_bytes(v).0, register_bytes(v).1) == v,
{
    let w = if v < 0 { v + 0x1_0000 } else { v };
    lemma_fundamental_div_mod_converse(w, 256, w / 256, w % 256);
}

/// Decoding in normal mode gives back every temperature of the normal range
/// that was encoded.
pub proof fn lemma_normal_round_trip(t: int)
    requires
        NORMAL_MIN <= t <= NORMAL_MAX,
    ensures
        normal_temperature(normal_register(t).0, normal_register(t).1) == t,
{
    lemma_register_value_of_bytes(t * 16);
    lemma_fundamental_div_mod_converse(t * 16, 16, t, 0);
}

/// Decoding in extended mode gives back every temperature of the extended
/// range that was encoded.
pub proof fn lemma_extended_round_trip(t: int)
    requires
        EXTENDED_MIN <= t <= EXTENDED_MAX,
    ensures
        extended_temperature(extended_register(t).0, extended_register(t).1) == t,
{
    lemma_register_value_of_bytes(t * 8);
    lemma_fundamental_div_mod_converse(t * 8, 8, t, 0);
}

/// A temperature beyond the normal range is encoded as the nearest bound.
pub proof fn lemma_normal_clamps(t: int)
    ensures
        t > NORMAL_MAX ==> normal_register(t) == normal_register(NORMAL_MAX as int),
        t < NORMAL_MIN ==> normal_register(t) == normal_register(NORMAL_MIN as int),
{
}

/// A temperature beyond the extended range is encoded as the nearest bound.
pub proof fn lemma_extended_clamps(t: int)
    ensures
        t > EXTENDED_MAX ==> extended_register(t) == extended_register(EXTENDED_MAX as int),
        t < EXTENDED_MIN ==> extended_register(t) == extended_register(EXTENDED_MIN as int),
{
}

} // verus!
