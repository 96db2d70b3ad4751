//! Bit fields packed into integer words.

use vstd::arithmetic::power2::pow2;
use vstd::bits::lemma_u64_shr_is_div;
use vstd::prelude::*;

verus! {

/// The `width` lowest bits set, for a width from 1 to 64.
pub open spec fn mask64(width: u64) -> u64 {
    u64::MAX >> ((64 - width) as u64)
}

/// The `width`-bit field of `word` whose lowest bit is bit `low`.
pub open spec fn field64(word: u64, low: u64, width: u64) -> u64 {
    (word >> low) & mask64(width)
}

/// `word` with its `width`-bit field at bit `low` replaced by the lowest `width` bits of `value`.
pub open spec fn with_field64(word: u64, low: u64, width: u64, value: u64) -> u64 {
    (word & !(mask64(width) << low)) | ((value & mask64(width)) << low)
}

/// Whether a `width`-bit field at bit `low` lies inside a 64-bit word.
pub open spec fn field_fits64(low: u64, width: u64) -> bool {
    low < 64 && 0 < width && width <= 64 && low + width <= 64
}

/// Whether two fields of a word share no bit.
pub open spec fn fields_apart(low_a: u64, width_a: u64, low_b: u64, width_b: u64) -> bool {
    low_a + width_a <= low_b || low_b + width_b <= low_a
}

/// A field holds what was last stored in it, cut to its width.
pub proof fn lemma_field64_of_with_field64(word: u64, low: u64, width: u64, value: u64)
    by (bit_vector)
    requires
        field_fits64(low, width),
    ensures
        field64(with_field64(word, low, width, value), low, width) == value & mask64(width),
{
}

/// Storing into one field leaves every field apart from it as it was.
pub proof fn lemma_field64_apart(
    word: u64,
    low: u64,
    width: u64,
    value: u64,
    low_b: u64,
    width_b: u64,
)
    by (bit_vector)
    requires
        field_fits64(low, width),
        field_fits64(low_b, width_b),
        fields_apart(low, width, low_b, width_b),
    ensures
        field64(with_field64(word, low, width, value), low_b, width_b) == field64(
            word,
            low_b,
            width_b,
        ),
{
}

/// A value below the mask is its own lowest bits.
pub proof fn lemma_mask64_keeps(value: u64, width: u64)
    by (bit_vector)
    requires
        0 < width,
        width <= 64,
        value <= mask64(width),
    ensures
        value & mask64(width) == value,
{
}

/// The masks of the field widths in use.
pub proof fn lemma_mask64_values()
    by (bit_vector)
    ensures
        mask64(1) == 1,
        mask64(2) == 0x3,
        mask64(3) == 0x7,
        mask64(4) == 0xf,
        mask64(5) == 0x1f,
        mask64(6) == 0x3f,
        mask64(7) == 0x7f,
        mask64(8) == 0xff,
        mask64(9) == 0x1ff,
        mask64(12) == 0xfff,
        mask64(16) == 0xffff,
        mask64(20) == 0xf_ffff,
        mask64(24) == 0xff_ffff,
        mask64(25) == 0x1ff_ffff,
        mask64(28) == 0xfff_ffff,
        mask64(32) == 0xffff_ffff,
        mask64(40) == 0xff_ffff_ffff,
        mask64(44) == 0xfff_ffff_ffff,
        mask64(46) == 0x3fff_ffff_ffff,
        mask64(52) == 0xf_ffff_ffff_ffff,
        mask64(64) == u64::MAX,
{
}

/// Reads the `width`-bit field of `word` at bit `low`.
pub fn get_field64(word: u64, low: u64, width: u64) -> (value: u64)
    requires
        field_fits64(low, width),
    ensures
        value == field64(word, low, width),
        value <= mask64(width),
{
    let mask: u64 = u64::MAX >> (64 - width);
    let value: u64 = (word >> low) & mask;
    assert((word >> low) & mask <= mask) by (bit_vector);
    value
}

/// Stores the lowest `width` bits of `value` into the field of `word` at bit `low`.
pub fn set_field64(word: u64, low: u64, width: u64, value: u64) -> (stored: u64)
    requires
        field_fits64(low, width),
    ensures
        stored == with_field64(word, low, width, value),
{
    let mask: u64 = u64::MAX >> (64 - width);
    (word & !(mask << low)) | ((value & mask) << low)
}

/// The `width`-bit field of a 32-bit register whose lowest bit is bit `low`.
pub open spec fn field32(raw: u32, low: u64, width: u64) -> u32 {
    field64(raw as u64, low, width) as u32
}

/// Bit `bit` of a 32-bit register.
pub open spec fn bit32(raw: u32, bit: u64) -> bool {
    field64(raw as u64, bit, 1) == 1
}

/// `raw` with its `width`-bit field at bit `low` replaced by the lowest `width` bits of `value`.
pub open spec fn with_field32(raw: u32, low: u64, width: u64, value: u32) -> u32 {
    with_field64(raw as u64, low, width, value as u64) as u32
}

/// A field of a 32-bit register keeps to 32 bits.
pub proof fn lemma_field32_bounds(raw: u32, low: u64, width: u64, value: u32)
    by (bit_vector)
    requires
        low < 32,
        0 < width,
        low + width <= 32,
    ensures
        field64(raw as u64, low, width) <= u32::MAX,
        field64(raw as u64, low, width) <= mask64(width),
        with_field64(raw as u64, low, width, value as u64) <= u32::MAX,
{
}

/// Reads the `width`-bit field of a 32-bit register at bit `low`.
pub fn get_field32(raw: u32, low: u64, width: u64) -> (value: u32)
    requires
        low < 32,
        0 < width,
        low + width <= 32,
    ensures
        value == field32(raw, low, width),
        value <= mask64(width),
{
    proof {
        lemma_field32_bounds(raw, low, width, 0);
    }
    get_field64(raw as u64, low, width) as u32
}

/// Reads bit `bit` of a 32-bit register.
pub fn get_bit32(raw: u32, bit: u64) -> (set: bool)
    requires
        bit < 32,
    ensures
        set == bit32(raw, bit),
{
    get_field64(raw as u64, bit, 1) == 1
}

/// Stores the lowest `width` bits of `value` in the `width`-bit field of a register at bit `low`.
pub fn set_field32(raw: u32, low: u64, width: u64, value: u32) -> (result: u32)
    requires
        low < 32,
        0 < width,
        low + width <= 32,
    ensures
        result == with_field32(raw, low, width, value),
{
    proof {
        lemma_field32_bounds(raw, low, width, value);
    }
    set_field64(raw as u64, low, width, value as u64) as u32
}

/// Sets bit `bit` of a 32-bit register to `value`.
pub fn set_bit32(raw: u32, bit: u64, value: bool) -> (result: u32)
    requires
        bit < 32,
    ensures
        result == with_field32(raw, bit, 1, if value {
            1
        } else {
            0
        }),
{
    set_field32(raw, bit, 1, if value {
        1
    } else {
        0
    })
}

/// A bit of a word is set where the number is odd once the bits below it are cut off.
pub proof fn law_bit_is_digit(word: u64, place: u64)
    requires
        place < 64,
    ensures
        field64(word, place, 1) == (word as nat / pow2(place as nat)) % 2,
{
    lemma_u64_shr_is_div(word, place);
    lemma_lowest_bit(word, place);
}

/// The lowest bit of what is left of a word is its remainder.
proof fn lemma_lowest_bit(word: u64, place: u64)
    by (bit_vector)
    requires
        place < 64,
    ensures
        field64(word, place, 1) == (word >> place) % 2,
{
}

/// A bit of a 32-bit register is set where its number is odd once the bits below it are cut off.
pub proof fn law_bit32_is_digit(raw: u32, place: u64)
    requires
        place < 32,
    ensures
        bit32(raw, place) <==> (raw as nat / pow2(place as nat)) % 2 == 1,
{
    law_bit_is_digit(raw as u64, place);
}

} // verus!
