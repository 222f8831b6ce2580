//! The arithmetic-logic unit: byte and word addition with nibble-chained
//! carry propagation, two's-complement negation, and byte/word packing.

use vstd::prelude::*;

verus! {

/// An adder output: the truncated value plus the half-carry and carry bits.
pub struct AdderResult<T> {
    pub value: T,
    pub half_carry: bool,
    pub carry: bool,
}

/// 0 or 1 as an integer, for folding a carry bit into a sum.
pub open spec fn bit01(b: bool) -> int {
    if b {
        1
    } else {
        0
    }
}

/// A byte sum truncated to 8 bits.
pub open spec fn byte_add_value(a: u8, b: u8, carry_in: bool) -> u8 {
    ((a + b + bit01(carry_in)) % 256) as u8
}

/// Carry out of bit 3 of a byte addition.
pub open spec fn byte_add_half_carry(a: u8, b: u8, carry_in: bool) -> bool {
    a % 16 + b % 16 + bit01(carry_in) > 15
}

/// Carry out of bit 7 of a byte addition.
pub open spec fn byte_add_carry(a: u8, b: u8, carry_in: bool) -> bool {
    a + b + bit01(carry_in) > 255
}

/// A word sum truncated to 16 bits.
pub open spec fn word_add_value(a: u16, b: u16) -> u16 {
    ((a + b) % 0x10000) as u16
}

/// Carry out of bit 11 of a word addition.
pub open spec fn word_add_half_carry(a: u16, b: u16) -> bool {
    a % 0x1000 + b % 0x1000 > 0xFFF
}

/// Carry out of bit 15 of a word addition.
pub open spec fn word_add_carry(a: u16, b: u16) -> bool {
    a + b > 0xFFFF
}

/// The two's complement of a byte.
pub open spec fn negate_byte(v: u8) -> u8 {
    ((256 - v) % 256) as u8
}

/// The two's complement of a word.
pub open spec fn negate_word(v: u16) -> u16 {
    ((0x10000 - v) % 0x10000) as u16
}

/// The high and low bytes of a word.
pub open spec fn word_high(v: u16) -> u8 {
    (v / 256) as u8
}

pub open spec fn word_low(v: u16) -> u8 {
    (v % 256) as u8
}

/// A word composed big-endian from a high and a low byte.
pub open spec fn word_of(high: u8, low: u8) -> u16 {
    (256 * high + low) as u16
}

/// The low nibble is the value modulo 16; the high nibble is the value divided by 16.
proof fn lemma_u8_nibbles(v: u8)
    ensures
        v & 0x0F == v % 16,
        v >> 4 == v / 16,
{
    assert(v & 0x0F == v % 16 && v >> 4 == v / 16) by (bit_vector);
}

/// Packing a high nibble over a low nibble is plain positional arithmetic.
proof fn lemma_nibble_pack(h: u8, l: u8)
    requires
        l < 16,
    ensures
        ((h & 0x0F) << 4) | l == 16 * (h % 16) + l,
{
    assert(((h & 0x0F) << 4) | l == 16 * (h % 16) + l) by (bit_vector)
        requires
            l < 16,
    ;
}

/// Splitting a word at bit 8 is division and remainder by 256.
proof fn lemma_u16_bytes(v: u16)
    ensures
        v >> 8 == v / 256,
        v & 0xFF == v % 256,
{
    assert(v >> 8 == v / 256 && v & 0xFF == v % 256) by (bit_vector);
}

/// Packing a high byte over a low byte is plain positional arithmetic.
proof fn lemma_u16_pack(h: u8, l: u8)
    ensures
        ((h as u16) << 8) | (l as u16) == 256 * (h as u16) + (l as u16),
{
    assert(((h as u16) << 8) | (l as u16) == 256 * (h as u16) + (l as u16)) by (bit_vector);
}

/// Bitwise complement of a byte equals subtraction from 255.
proof fn lemma_u8_not(v: u8)
    ensures
        !v == 255 - v,
{
    assert(!v == 255 - v) by (bit_vector);
}

/// The high and low bytes of a word, in that order.
pub fn get_bytes(value: u16) -> (r: (u8, u8))
    ensures
        r.0 == word_high(value),
        r.1 == word_low(value),
{
    proof {
        lemma_u16_bytes(value);
    }
    let high = (value >> 8) as u8;
    let low = (value & 0xFF) as u8;
    (high, low)
}

/// A word composed big-endian from a high and a low byte.
pub fn get_word(high: u8, low: u8) -> (r: u16)
    ensures
        r == word_of(high, low),
{
    proof {
        lemma_u16_pack(high, low);
    }
    ((high as u16) << 8) | (low as u16)
}

/// The two's complement `!v + 1` of a byte, the adder's route to subtraction.
pub fn negate(value: u8) -> (r: u8)
    ensures
        r == negate_byte(value),
{
    proof {
        lemma_u8_not(value);
    }
    (!value).wrapping_add(1)
}

/// Adds two bytes and an incoming carry by chaining the two nibbles, so the
/// half-carry falls out of the low-nibble sum and the carry out of the high.
pub fn add_bytes_with_carry(a: u8, b: u8, carry_in: bool) -> (r: AdderResult<u8>)
    ensures
        r.value == byte_add_value(a, b, carry_in),
        r.half_carry == byte_add_half_carry(a, b, carry_in),
        r.carry == byte_add_carry(a, b, carry_in),
{
    proof {
        lemma_u8_nibbles(a);
        lemma_u8_nibbles(b);
    }
    let carry_in_bit: u8 = if carry_in {
        1
    } else {
        0
    };
    let low_sum: u8 = (a & 0x0F) + (b & 0x0F) + carry_in_bit;
    let half_carry = low_sum > 0x0F;
    let half_carry_bit: u8 = if half_carry {
        1
    } else {
        0
    };
    let high_sum: u8 = (a >> 4) + (b >> 4) + half_carry_bit;
    let carry = high_sum > 0x0F;
    let low_nibble = low_sum & 0x0F;
    proof {
        lemma_u8_nibbles(low_sum);
        lemma_nibble_pack(high_sum, low_sum % 16);
        assert(a + b + bit01(carry_in) == 16 * (a / 16 + b / 16 + half_carry_bit) + low_sum % 16);
    }
    let value = ((high_sum & 0x0F) << 4) | low_nibble;
    AdderResult { value, half_carry, carry }
}

/// Byte addition: the truncated sum, the carry out of bit 3, and the carry
/// out of bit 7, all derived by nibble-chained carry propagation.
pub fn add_bytes(a: u8, b: u8) -> (r: AdderResult<u8>)
    ensures
        r.value == byte_add_value(a, b, false),
        r.half_carry == byte_add_half_carry(a, b, false),
        r.carry == byte_add_carry(a, b, false),
        r.value == (a as u16 + b as u16) as u8,
        r.half_carry == ((a & 0xF) + (b & 0xF) > 0xF),
        r.carry == (a as u16 + b as u16 > 0xFF),
{
    proof {
        lemma_u8_nibbles(a);
        lemma_u8_nibbles(b);
        assert((a as u16 + b as u16) as u8 == ((a + b) % 256) as u8) by (bit_vector);
    }
    add_bytes_with_carry(a, b, false)
}

/// Word addition as two chained byte additions: low bytes first, then high
/// bytes with the low carry folded in. The half-carry and carry reported are
/// those of the high-byte addition, i.e. the bit-11 and bit-15 boundaries.
pub fn add_words(a: u16, b: u16) -> (r: AdderResult<u16>)
    ensures
        r.value == word_add_value(a, b),
        r.half_carry == word_add_half_carry(a, b),
        r.carry == word_add_carry(a, b),
{
    let (a_high, a_low) = get_bytes(a);
    let (b_high, b_low) = get_bytes(b);
    let low = add_bytes(a_low, b_low);
    let high = add_bytes_with_carry(a_high, b_high, low.carry);
    proof {
        lemma_add_words_correct(a, b);
    }
    AdderResult { value: get_word(high.value, low.value), half_carry: high.half_carry, carry: high.carry }
}

/// Correctness of the byte-chained word adder against the word-level
/// characterization of the sum, the bit-11 carry and the bit-15 carry.
proof fn lemma_add_words_correct(a: u16, b: u16)
    ensures
        word_of(
            byte_add_value(word_high(a), word_high(b), byte_add_carry(word_low(a), word_low(b), false)),
            byte_add_value(word_low(a), word_low(b), false),
        ) == word_add_value(a, b),
        byte_add_half_carry(word_high(a), word_high(b), byte_add_carry(word_low(a), word_low(b), false))
            == word_add_half_carry(a, b),
        byte_add_carry(word_high(a), word_high(b), byte_add_carry(word_low(a), word_low(b), false))
            == word_add_carry(a, b),
{
    let ah = word_high(a) as int;
    let al = word_low(a) as int;
    let bh = word_high(b) as int;
    let bl = word_low(b) as int;
    assert(a == 256 * ah + al && b == 256 * bh + bl);
    let lsum = al + bl;
    let c1 = if lsum > 255 { 1int } else { 0int };
    let hsum = ah + bh + c1;
    assert(a + b == 256 * hsum + lsum % 256);
    assert((256 * hsum + lsum % 256) % 0x10000 == 256 * (hsum % 256) + lsum % 256) by {
        if hsum < 256 {
            assert((256 * hsum + lsum % 256) < 0x10000);
        } else {
            assert(256 <= hsum < 512);
            assert(0x10000 <= 256 * hsum + lsum % 256 < 0x20000);
            assert(hsum % 256 == hsum - 256);
        }
    }
    // Bit-11 boundary: the high nibble chain agrees with `a % 0x1000 + b % 0x1000`.
    assert(a % 0x1000 == 256 * (ah % 16) + al && b % 0x1000 == 256 * (bh % 16) + bl) by {
        assert(ah % 16 == (a / 256) % 16);
        assert(a % 0x1000 == 256 * ((a / 256) % 16) + a % 256) by {
            lemma_mod_breakdown_4096(a);
        }
        assert(bh % 16 == (b / 256) % 16);
        assert(b % 0x1000 == 256 * ((b / 256) % 16) + b % 256) by {
            lemma_mod_breakdown_4096(b);
        }
    }
}

/// `v % 4096` splits positionally into the middle nibble and the low byte.
proof fn lemma_mod_breakdown_4096(v: u16)
    ensures
        v % 0x1000 == 256 * ((v / 256) % 16) + v % 256,
{
    assert(v % 0x1000 == 256 * ((v / 256) % 16) + v % 256) by (bit_vector);
}

} // verus!
