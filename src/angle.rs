//! Angles in hundredths of a degree: decoding the raw register value of an
//! angle-read response, its inverse, and the three-axis sample.

use vstd::prelude::*;

verus! {

/// The raw angle register of a response: payload bytes 1 and 2, little-endian.
pub open spec fn payload_raw(f: Seq<u8>) -> int {
    f[1] + 256 * f[2]
}

/// `raw / 2^14 * 90` degrees in hundredths of a degree, rounded half up, before
/// the wrap correction.
pub open spec fn unwrapped_centi(raw: int) -> int {
    (raw * 18000 + 16384) / 32768
}

/// The decoded angle in hundredths of a degree: above 90 degrees the value has
/// wrapped and 360 degrees are taken off.
pub open spec fn angle_centi(raw: int) -> int {
    let a = unwrapped_centi(raw);
    if a > 9000 {
        a - 36000
    } else {
        a
    }
}

/// The raw value whose angle is `a` hundredths of a degree: a negative angle is
/// first taken modulo 360 degrees, then scaled by `2^14 / 90` and rounded half up.
pub open spec fn raw_of_angle(a: int) -> int {
    let u = if a < 0 {
        a + 36000
    } else {
        a
    };
    (u * 65536 + 18000) / 36000
}

/// Converts a raw angle register value to hundredths of a degree.
pub fn decode_angle(raw: u16) -> (r: i32)
    ensures
        r == angle_centi(raw as int),
        -36000 < r <= 9000,
{
    let a: u32 = (raw as u32 * 18000 + 16384) / 32768;
    assert(a <= 36000) by {
        assert(raw as u32 * 18000 + 16384 <= 36000 * 32768);
    }
    if a > 9000 {
        a as i32 - 36000
    } else {
        a as i32
    }
}

/// Converts an angle-read response to hundredths of a degree.
pub fn angle_conversion(frame: &[u8; 4]) -> (r: i32)
    ensures
        r == angle_centi(payload_raw(frame@)),
{
    let raw: u16 = frame[1] as u16 + 256 * frame[2] as u16;
    decode_angle(raw)
}

/// The raw register value that decodes to `centi` hundredths of a degree.
pub fn encode_angle(centi: i32) -> (r: u16)
    requires
        -9000 <= centi < 9000,
    ensures
        r == raw_of_angle(centi as int),
{
    let u: u32 = if centi < 0 {
        (centi + 36000) as u32
    } else {
        centi as u32
    };
    let r: u32 = (u * 65536 + 18000) / 36000;
    assert(r < 65536) by {
        assert(u * 65536 + 18000 < 65536 * 36000);
    }
    r as u16
}

/// Encoding an angle of [-90, 90) degrees and decoding the raw value gives the
/// angle back, to the hundredth of a degree.
pub proof fn lemma_round_trip(a: int)
    requires
        -9000 <= a < 9000,
    ensures
        0 <= raw_of_angle(a) < 65536,
        angle_centi(raw_of_angle(a)) == a,
{
    let u = if a < 0 {
        a + 36000
    } else {
        a
    };
    let n = u * 65536 + 18000;
    let raw = n / 36000;
    assert(raw * 36000 <= n < raw * 36000 + 36000) by (nonlinear_arith)
        requires
            raw == n / 36000,
            n >= 0,
    ;
    let m = raw * 18000 + 16384;
    assert(u * 32768 <= m < u * 32768 + 32768) by (nonlinear_arith)
        requires
            raw * 36000 <= n < raw * 36000 + 36000,
            n == u * 65536 + 18000,
            m == raw * 18000 + 16384,
    ;
    assert(m / 32768 == u) by (nonlinear_arith)
        requires
            u * 32768 <= m < u * 32768 + 32768,
    ;
    assert(0 <= raw < 65536) by (nonlinear_arith)
        requires
            raw * 36000 <= n,
            n < raw * 36000 + 36000,
            n == u * 65536 + 18000,
            0 <= u < 36000,
    ;
}

/// One reading of the three axes, each in hundredths of a degree.
#[derive(Clone, Copy, Debug, PartialEq, Eq)]
pub struct AngleSample {
    pub x: i32,
    pub y: i32,
    pub z: i32,
}

impl AngleSample {
    /// The sample of the three given angles.
    pub fn new(x: i32, y: i32, z: i32) -> (r: AngleSample)
        ensures
            r == (AngleSample { x, y, z }),
    {
        AngleSample { x, y, z }
    }
}

} // verus!
