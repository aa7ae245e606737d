//! The frame checksum: a bit-serial CRC-8 (polynomial 0x1D, initial state 0xFF,
//! result complemented) over the first 24 bits of a 4-byte frame, MSB first.

use vstd::arithmetic::div_mod::{lemma_fundamental_div_mod, lemma_mod_multiples_vanish};
use vstd::prelude::*;

verus! {

/// One bit of the serial CRC: the top bit of the accumulator, flipped by the data
/// bit, decides whether the shifted accumulator is XORed with the polynomial.
pub open spec fn crc_step(crc: u8, bit: bool) -> u8 {
    let shifted = crc << 1u8;
    if ((crc & 0x80u8) != 0u8) != bit {
        shifted ^ 0x1Du8
    } else {
        shifted
    }
}

/// The accumulator after feeding the eight bits of `b`, most significant first.
pub open spec fn crc_byte(crc: u8, b: u8) -> u8 {
    let c1 = crc_step(crc, b & 0x80u8 != 0u8);
    let c2 = crc_step(c1, b & 0x40u8 != 0u8);
    let c3 = crc_step(c2, b & 0x20u8 != 0u8);
    let c4 = crc_step(c3, b & 0x10u8 != 0u8);
    let c5 = crc_step(c4, b & 0x08u8 != 0u8);
    let c6 = crc_step(c5, b & 0x04u8 != 0u8);
    let c7 = crc_step(c6, b & 0x02u8 != 0u8);
    crc_step(c7, b & 0x01u8 != 0u8)
}

/// The checksum byte owed to a frame whose first three bytes are `b0`, `b1`, `b2`.
pub open spec fn checksum_of(b0: u8, b1: u8, b2: u8) -> u8 {
    !crc_byte(crc_byte(crc_byte(0xFFu8, b0), b1), b2)
}

/// A frame is four bytes whose last byte is the checksum of the first three.
pub open spec fn frame_valid(f: Seq<u8>) -> bool {
    &&& f.len() == 4
    &&& f[3] == checksum_of(f[0], f[1], f[2])
}

/// Bit `index` of `data`.
pub open spec fn bit_of(data: u32, index: u32) -> bool {
    (data >> index) & 1u32 == 1u32
}

/// The accumulator after the `n` most significant bits of `data`.
pub open spec fn crc_prefix(data: u32, n: nat) -> u8
    decreases n,
{
    if n == 0 {
        0xFFu8
    } else {
        crc_step(crc_prefix(data, (n - 1) as nat), bit_of(data, (32 - n) as u32))
    }
}

/// One step of the serial CRC; `bit_value` is the data bit (set when it is 1).
pub fn crc8(bit_value: u8, crc: u8) -> (r: u8)
    ensures
        r == crc_step(crc, bit_value == 1),
{
    let mut temp = crc & 0x80;
    if bit_value == 0x01 {
        temp ^= 0x80;
    }
    let shifted = crc << 1u8;
    let r = if temp > 0 {
        shifted ^ 0x1D
    } else {
        shifted
    };
    assert(((crc & 0x80u8) ^ 0x80u8 > 0) == ((crc & 0x80u8) == 0u8)) by (bit_vector);
    assert(((crc & 0x80u8) > 0) == ((crc & 0x80u8) != 0u8)) by (bit_vector);
    r
}

/// The big-endian value of a byte sequence.
pub open spec fn be_int(s: Seq<u8>) -> nat
    decreases s.len(),
{
    if s.len() == 0 {
        0
    } else {
        (be_int(s.drop_last()) * 256 + s.last()) as nat
    }
}

/// Eight more bits of a word, MSB first, advance the accumulator as `crc_byte` does
/// for the byte that holds them.
proof fn lemma_prefix_byte(data: u32, n: nat, b: u8)
    requires
        n <= 24,
        bit_of(data, (31 - n) as u32) == (b & 0x80u8 != 0u8),
        bit_of(data, (30 - n) as u32) == (b & 0x40u8 != 0u8),
        bit_of(data, (29 - n) as u32) == (b & 0x20u8 != 0u8),
        bit_of(data, (28 - n) as u32) == (b & 0x10u8 != 0u8),
        bit_of(data, (27 - n) as u32) == (b & 0x08u8 != 0u8),
        bit_of(data, (26 - n) as u32) == (b & 0x04u8 != 0u8),
        bit_of(data, (25 - n) as u32) == (b & 0x02u8 != 0u8),
        bit_of(data, (24 - n) as u32) == (b & 0x01u8 != 0u8),
    ensures
        crc_prefix(data, n + 8) == crc_byte(crc_prefix(data, n), b),
{
    assert(crc_prefix(data, n + 1) == crc_step(crc_prefix(data, n), bit_of(data, (31 - n) as u32)));
    assert(crc_prefix(data, n + 2) == crc_step(crc_prefix(data, n + 1), bit_of(data, (30 - n) as u32)));
    assert(crc_prefix(data, n + 3) == crc_step(crc_prefix(data, n + 2), bit_of(data, (29 - n) as u32)));
    assert(crc_prefix(data, n + 4) == crc_step(crc_prefix(data, n + 3), bit_of(data, (28 - n) as u32)));
    assert(crc_prefix(data, n + 5) == crc_step(crc_prefix(data, n + 4), bit_of(data, (27 - n) as u32)));
    assert(crc_prefix(data, n + 6) == crc_step(crc_prefix(data, n + 5), bit_of(data, (26 - n) as u32)));
    assert(crc_prefix(data, n + 7) == crc_step(crc_prefix(data, n + 6), bit_of(data, (25 - n) as u32)));
    assert(crc_prefix(data, n + 8) == crc_step(crc_prefix(data, n + 7), bit_of(data, (24 - n) as u32)));
}

/// The accumulator after 24 bits of a word is the byte-wise accumulator over its
/// three high bytes.
proof fn lemma_prefix_is_bytewise(data: u32)
    ensures
        crc_prefix(data, 24) == crc_byte(
            crc_byte(crc_byte(0xFFu8, (data >> 24u32) as u8), (data >> 16u32) as u8),
            (data >> 8u32) as u8,
        ),
{
    let b0 = (data >> 24u32) as u8;
    let b1 = (data >> 16u32) as u8;
    let b2 = (data >> 8u32) as u8;
    assert({
        &&& bit_of(data, 31) == (b0 & 0x80u8 != 0u8)
        &&& bit_of(data, 30) == (b0 & 0x40u8 != 0u8)
        &&& bit_of(data, 29) == (b0 & 0x20u8 != 0u8)
        &&& bit_of(data, 28) == (b0 & 0x10u8 != 0u8)
        &&& bit_of(data, 27) == (b0 & 0x08u8 != 0u8)
        &&& bit_of(data, 26) == (b0 & 0x04u8 != 0u8)
        &&& bit_of(data, 25) == (b0 & 0x02u8 != 0u8)
        &&& bit_of(data, 24) == (b0 & 0x01u8 != 0u8)
        &&& bit_of(data, 23) == (b1 & 0x80u8 != 0u8)
        &&& bit_of(data, 22) == (b1 & 0x40u8 != 0u8)
        &&& bit_of(data, 21) == (b1 & 0x20u8 != 0u8)
        &&& bit_of(data, 20) == (b1 & 0x10u8 != 0u8)
        &&& bit_of(data, 19) == (b1 & 0x08u8 != 0u8)
        &&& bit_of(data, 18) == (b1 & 0x04u8 != 0u8)
        &&& bit_of(data, 17) == (b1 & 0x02u8 != 0u8)
        &&& bit_of(data, 16) == (b1 & 0x01u8 != 0u8)
        &&& bit_of(data, 15) == (b2 & 0x80u8 != 0u8)
        &&& bit_of(data, 14) == (b2 & 0x40u8 != 0u8)
        &&& bit_of(data, 13) == (b2 & 0x20u8 != 0u8)
        &&& bit_of(data, 12) == (b2 & 0x10u8 != 0u8)
        &&& bit_of(data, 11) == (b2 & 0x08u8 != 0u8)
        &&& bit_of(data, 10) == (b2 & 0x04u8 != 0u8)
        &&& bit_of(data, 9) == (b2 & 0x02u8 != 0u8)
        &&& bit_of(data, 8) == (b2 & 0x01u8 != 0u8)
    }) by (bit_vector)
        requires
            b0 == (data >> 24u32) as u8,
            b1 == (data >> 16u32) as u8,
            b2 == (data >> 8u32) as u8,
    ;
    assert(crc_prefix(data, 0) == 0xFFu8);
    lemma_prefix_byte(data, 0, b0);
    lemma_prefix_byte(data, 8, b1);
    lemma_prefix_byte(data, 16, b2);
}

/// Calculates the checksum of a frame held as a big-endian word: the serial CRC
/// over bits 31 down to 8, complemented.
pub fn calculate_crc(data: u32) -> (r: u8)
    ensures
        r == checksum_of((data >> 24u32) as u8, (data >> 16u32) as u8, (data >> 8u32) as u8),
{
    let mut crc: u8 = 0xFF;
    let mut bit_index: u32 = 32;
    while bit_index > 8
        invariant
            8 <= bit_index <= 32,
            crc == crc_prefix(data, (32 - bit_index) as nat),
        decreases bit_index,
    {
        bit_index = bit_index - 1;
        let bit_value: u8 = ((data >> bit_index) & 0x01) as u8;
        assert((bit_value == 1) == bit_of(data, bit_index)) by (bit_vector)
            requires
                bit_value == ((data >> bit_index) & 0x01u32) as u8,
        ;
        crc = crc8(bit_value, crc);
    }
    proof {
        lemma_prefix_is_bytewise(data);
    }
    !crc
}

/// Shifting a byte into a word keeps the big-endian value modulo 2^32.
proof fn lemma_shift_in(r: u32, b: u8)
    ensures
        ((r << 8u32) | (b as u32)) as int == ((r as int) * 256 + b as int) % 0x1_0000_0000,
{
    assert(((r << 8u32) | (b as u32)) as int == ((r as int) * 256 + b as int) % 0x1_0000_0000)
        by (bit_vector);
}

/// The big-endian value of `data`, truncated to its last four bytes.
pub fn bytes_to_u32(data: &[u8]) -> (r: u32)
    ensures
        r as int == be_int(data@) % 0x1_0000_0000,
{
    let mut result: u32 = 0;
    let mut i: usize = 0;
    while i < data.len()
        invariant
            i <= data@.len(),
            result as int == be_int(data@.take(i as int)) % 0x1_0000_0000,
        decreases data@.len() - i,
    {
        let byte = data[i];
        proof {
            let m: int = 0x1_0000_0000;
            let x = be_int(data@.take(i as int)) as int;
            assert(data@.take(i + 1).drop_last() =~= data@.take(i as int));
            lemma_shift_in(result, byte);
            lemma_fundamental_div_mod(x, m);
            assert(x * 256 + byte == m * ((x / m) * 256) + ((x % m) * 256 + byte))
                by (nonlinear_arith)
                requires
                    x == m * (x / m) + x % m,
            ;
            lemma_mod_multiples_vanish((x / m) * 256, (x % m) * 256 + byte, m);
        }
        result = (result << 8u32) | (byte as u32);
        i = i + 1;
    }
    assert(data@.take(data@.len() as int) =~= data@);
    result
}

/// Four bytes read as a big-endian word give back their high three bytes.
proof fn lemma_word_bytes(w: u32, f: Seq<u8>)
    requires
        f.len() == 4,
        w as int == be_int(f),
    ensures
        (w >> 24u32) as u8 == f[0],
        (w >> 16u32) as u8 == f[1],
        (w >> 8u32) as u8 == f[2],
{
    let (b0, b1, b2, b3) = (f[0], f[1], f[2], f[3]);
    assert(f.drop_last().drop_last().drop_last().drop_last() =~= Seq::<u8>::empty());
    reveal_with_fuel(be_int, 5);
    assert(be_int(f) == b0 * 0x100_0000 + b1 * 0x1_0000 + b2 * 0x100 + b3);
    assert({
        &&& (w >> 24u32) as u8 == b0
        &&& (w >> 16u32) as u8 == b1
        &&& (w >> 8u32) as u8 == b2
    }) by (bit_vector)
        requires
            w == b0 * 0x100_0000 + b1 * 0x1_0000 + b2 * 0x100 + b3,
    ;
}

/// Four bytes have a big-endian value below 2^32.
proof fn lemma_word_bytes_bound(f: Seq<u8>)
    requires
        f.len() == 4,
    ensures
        be_int(f) < 0x1_0000_0000,
{
    assert(f.drop_last().drop_last().drop_last().drop_last() =~= Seq::<u8>::empty());
    reveal_with_fuel(be_int, 5);
}

/// The checksum owed to a frame, from its first three bytes.
fn frame_crc(frame: &[u8; 4]) -> (r: u8)
    ensures
        r == checksum_of(frame@[0], frame@[1], frame@[2]),
{
    let w = bytes_to_u32(frame.as_slice());
    proof {
        assert(be_int(frame@) < 0x1_0000_0000) by {
            lemma_word_bytes_bound(frame@);
        }
        vstd::arithmetic::div_mod::lemma_small_mod(be_int(frame@), 0x1_0000_0000);
        lemma_word_bytes(w, frame@);
    }
    calculate_crc(w)
}

/// The checksum of the three bytes `b0`, `b1`, `b2` that open a frame.
pub fn compute(b0: u8, b1: u8, b2: u8) -> (r: u8)
    ensures
        r == checksum_of(b0, b1, b2),
{
    let frame: [u8; 4] = [b0, b1, b2, 0];
    frame_crc(&frame)
}

/// Whether the last byte of `frame` is the checksum of its first three.
pub fn validate(frame: &[u8; 4]) -> (r: bool)
    ensures
        r == frame_valid(frame@),
{
    frame[3] == frame_crc(frame)
}

/// The frame that carries `b0`, `b1`, `b2` and their checksum.
pub fn stamp(b0: u8, b1: u8, b2: u8) -> (r: [u8; 4])
    ensures
        r@ == seq![b0, b1, b2, checksum_of(b0, b1, b2)],
        frame_valid(r@),
{
    let c = compute(b0, b1, b2);
    let r: [u8; 4] = [b0, b1, b2, c];
    assert(r@ =~= seq![b0, b1, b2, c]);
    r
}

/// The checksum is a function of the three bytes alone: two computations on the
/// same bytes agree.
pub proof fn lemma_compute_deterministic(b0: u8, b1: u8, b2: u8, r1: u8, r2: u8)
    requires
        r1 == checksum_of(b0, b1, b2),
        r2 == checksum_of(b0, b1, b2),
    ensures
        r1 == r2,
{
}

/// One CRC step is linear over GF(2) in the accumulator and the data bit together.
proof fn lemma_step_linear(c1: u8, c2: u8, b1: bool, b2: bool)
    ensures
        crc_step(c1 ^ c2, b1 != b2) == crc_step(c1, b1) ^ crc_step(c2, b2),
{
    assert(crc_step(c1 ^ c2, b1 != b2) == crc_step(c1, b1) ^ crc_step(c2, b2)) by (bit_vector);
}

/// A whole byte of CRC steps is linear in the accumulator and the data byte together.
proof fn lemma_byte_linear(c1: u8, c2: u8, d1: u8, d2: u8)
    ensures
        crc_byte(c1 ^ c2, d1 ^ d2) == crc_byte(c1, d1) ^ crc_byte(c2, d2),
{
    assert({
        &&& ((d1 ^ d2) & 0x80u8 != 0u8) == ((d1 & 0x80u8 != 0u8) != (d2 & 0x80u8 != 0u8))
        &&& ((d1 ^ d2) & 0x40u8 != 0u8) == ((d1 & 0x40u8 != 0u8) != (d2 & 0x40u8 != 0u8))
        &&& ((d1 ^ d2) & 0x20u8 != 0u8) == ((d1 & 0x20u8 != 0u8) != (d2 & 0x20u8 != 0u8))
        &&& ((d1 ^ d2) & 0x10u8 != 0u8) == ((d1 & 0x10u8 != 0u8) != (d2 & 0x10u8 != 0u8))
        &&& ((d1 ^ d2) & 0x08u8 != 0u8) == ((d1 & 0x08u8 != 0u8) != (d2 & 0x08u8 != 0u8))
        &&& ((d1 ^ d2) & 0x04u8 != 0u8) == ((d1 & 0x04u8 != 0u8) != (d2 & 0x04u8 != 0u8))
        &&& ((d1 ^ d2) & 0x02u8 != 0u8) == ((d1 & 0x02u8 != 0u8) != (d2 & 0x02u8 != 0u8))
        &&& ((d1 ^ d2) & 0x01u8 != 0u8) == ((d1 & 0x01u8 != 0u8) != (d2 & 0x01u8 != 0u8))
    }) by (bit_vector);
    let (mut x, mut y) = (c1, c2);
    lemma_step_linear(x, y, d1 & 0x80u8 != 0u8, d2 & 0x80u8 != 0u8);
    x = crc_step(x, d1 & 0x80u8 != 0u8);
    y = crc_step(y, d2 & 0x80u8 != 0u8);
    lemma_step_linear(x, y, d1 & 0x40u8 != 0u8, d2 & 0x40u8 != 0u8);
    x = crc_step(x, d1 & 0x40u8 != 0u8);
    y = crc_step(y, d2 & 0x40u8 != 0u8);
    lemma_step_linear(x, y, d1 & 0x20u8 != 0u8, d2 & 0x20u8 != 0u8);
    x = crc_step(x, d1 & 0x20u8 != 0u8);
    y = crc_step(y, d2 & 0x20u8 != 0u8);
    lemma_step_linear(x, y, d1 & 0x10u8 != 0u8, d2 & 0x10u8 != 0u8);
    x = crc_step(x, d1 & 0x10u8 != 0u8);
    y = crc_step(y, d2 & 0x10u8 != 0u8);
    lemma_step_linear(x, y, d1 & 0x08u8 != 0u8, d2 & 0x08u8 != 0u8);
    x = crc_step(x, d1 & 0x08u8 != 0u8);
    y = crc_step(y, d2 & 0x08u8 != 0u8);
    lemma_step_linear(x, y, d1 & 0x04u8 != 0u8, d2 & 0x04u8 != 0u8);
    x = crc_step(x, d1 & 0x04u8 != 0u8);
    y = crc_step(y, d2 & 0x04u8 != 0u8);
    lemma_step_linear(x, y, d1 & 0x02u8 != 0u8, d2 & 0x02u8 != 0u8);
    x = crc_step(x, d1 & 0x02u8 != 0u8);
    y = crc_step(y, d2 & 0x02u8 != 0u8);
    lemma_step_linear(x, y, d1 & 0x01u8 != 0u8, d2 & 0x01u8 != 0u8);
}

/// The serial CRC of three bytes from the accumulator `c`, before the complement.
spec fn crc_three(c: u8, b0: u8, b1: u8, b2: u8) -> u8 {
    crc_byte(crc_byte(crc_byte(c, b0), b1), b2)
}

/// Flipping the bits `e0`, `e1`, `e2` of the three bytes moves the checksum by the
/// CRC of the flipped bits alone, from a zero accumulator.
proof fn lemma_checksum_shift(b0: u8, b1: u8, b2: u8, e0: u8, e1: u8, e2: u8)
    ensures
        checksum_of(b0 ^ e0, b1 ^ e1, b2 ^ e2) == checksum_of(b0, b1, b2) ^ crc_three(0u8, e0, e1, e2),
{
    let ff = 0xFFu8;
    assert(ff ^ 0u8 == ff) by (bit_vector);
    lemma_byte_linear(ff, 0u8, b0, e0);
    lemma_byte_linear(crc_byte(ff, b0), crc_byte(0u8, e0), b1, e1);
    lemma_byte_linear(crc_byte(crc_byte(ff, b0), b1), crc_byte(crc_byte(0u8, e0), e1), b2, e2);
    let a = crc_three(ff, b0, b1, b2);
    let d = crc_three(0u8, e0, e1, e2);
    assert(!(a ^ d) == !a ^ d) by (bit_vector);
}

/// A zero accumulator stays zero on zero data; a nonzero one stays nonzero; a
/// single set bit makes a zero accumulator nonzero.
proof fn lemma_byte_nonzero(c: u8, j: u8)
    requires
        j < 8,
    ensures
        crc_byte(0u8, 0u8) == 0u8,
        c != 0u8 ==> crc_byte(c, 0u8) != 0u8,
        crc_byte(0u8, 1u8 << j) != 0u8,
{
    assert(crc_byte(0u8, 0u8) == 0u8) by (bit_vector);
    assert(c != 0u8 ==> crc_byte(c, 0u8) != 0u8) by (bit_vector);
    assert(crc_byte(0u8, 1u8 << j) != 0u8) by (bit_vector)
        requires
            j < 8,
    ;
}

/// A single set bit, in any one of the three bytes, has a nonzero CRC.
proof fn lemma_single_bit_crc(j: u8)
    requires
        j < 8,
    ensures
        crc_three(0u8, 1u8 << j, 0u8, 0u8) != 0u8,
        crc_three(0u8, 0u8, 1u8 << j, 0u8) != 0u8,
        crc_three(0u8, 0u8, 0u8, 1u8 << j) != 0u8,
{
    lemma_byte_nonzero(0u8, j);
    let a = crc_byte(0u8, 1u8 << j);
    lemma_byte_nonzero(a, j);
    let b = crc_byte(a, 0u8);
    lemma_byte_nonzero(b, j);
}

/// Flipping any one bit among the first three bytes of a valid frame leaves a
/// frame that fails validation.
pub proof fn lemma_bit_flip_detected(f: Seq<u8>, i: int, j: u8)
    requires
        frame_valid(f),
        0 <= i < 3,
        j < 8,
    ensures
        !frame_valid(f.update(i, f[i] ^ (1u8 << j))),
{
    let (b0, b1, b2) = (f[0], f[1], f[2]);
    let g = f.update(i, f[i] ^ (1u8 << j));
    let e = 1u8 << j;
    lemma_single_bit_crc(j);
    assert(b0 ^ 0u8 == b0 && b1 ^ 0u8 == b1 && b2 ^ 0u8 == b2) by (bit_vector);
    if i == 0 {
        lemma_checksum_shift(b0, b1, b2, e, 0u8, 0u8);
        assert(g[0] == b0 ^ e && g[1] == b1 && g[2] == b2);
    } else if i == 1 {
        lemma_checksum_shift(b0, b1, b2, 0u8, e, 0u8);
        assert(g[0] == b0 && g[1] == b1 ^ e && g[2] == b2);
    } else {
        lemma_checksum_shift(b0, b1, b2, 0u8, 0u8, e);
        assert(g[0] == b0 && g[1] == b1 && g[2] == b2 ^ e);
    }
    assert(forall|x: u8, y: u8| y != 0u8 ==> #[trigger] (x ^ y) != x) by (bit_vector);
}

} // verus!
