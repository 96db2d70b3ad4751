//! Little-endian integers in byte sequences.

use vstd::prelude::*;
use zerocopy::little_endian::{U32, U64};
use zerocopy::{FromBytes, IntoBytes};

verus! {

/// The first `n` base-256 digits of `v`, lowest first.
pub open spec fn le_bytes(v: nat, n: nat) -> Seq<u8>
    decreases n,
{
    if n == 0 {
        Seq::empty()
    } else {
        seq![(v % 256) as u8] + le_bytes(v / 256, (n - 1) as nat)
    }
}

/// The number whose base-256 digits are `s`, lowest first.
pub open spec fn le_value(s: Seq<u8>) -> nat
    decreases s.len(),
{
    if s.len() == 0 {
        0
    } else {
        s[0] as nat + 256 * le_value(s.skip(1))
    }
}

/// 256 to the power `n`.
pub open spec fn pow256(n: nat) -> nat
    decreases n,
{
    if n == 0 {
        1
    } else {
        256 * pow256((n - 1) as nat)
    }
}

/// `count` zero bytes.
pub open spec fn zeros(count: nat) -> Seq<u8> {
    Seq::new(count, |i: int| 0u8)
}

pub proof fn lemma_le_bytes_len(v: nat, n: nat)
    ensures
        le_bytes(v, n).len() == n,
    decreases n,
{
    if n > 0 {
        lemma_le_bytes_len(v / 256, (n - 1) as nat);
    }
}

/// A number below 256 to the `n` is the value of its own `n` digits.
pub proof fn lemma_le_value_of_le_bytes(v: nat, n: nat)
    requires
        v < pow256(n),
    ensures
        le_value(le_bytes(v, n)) == v,
    decreases n,
{
    if n > 0 {
        let rest = le_bytes(v / 256, (n - 1) as nat);
        lemma_le_bytes_len(v / 256, (n - 1) as nat);
        lemma_le_value_of_le_bytes(v / 256, (n - 1) as nat);
        assert((seq![(v % 256) as u8] + rest).skip(1) =~= rest);
    }
}

/// A byte sequence is the digits of its own value.
pub proof fn lemma_le_bytes_of_le_value(s: Seq<u8>)
    ensures
        le_bytes(le_value(s), s.len()) == s,
        le_value(s) < pow256(s.len()),
    decreases s.len(),
{
    if s.len() > 0 {
        lemma_le_bytes_of_le_value(s.skip(1));
        let v = le_value(s);
        assert(v % 256 == s[0] && v / 256 == le_value(s.skip(1)));
        assert(seq![s[0]] + s.skip(1) =~= s);
    } else {
        assert(le_bytes(le_value(s), s.len()) =~= s);
    }
}

pub proof fn lemma_pow256_values()
    ensures
        pow256(0) == 1,
        pow256(1) == 0x100,
        pow256(2) == 0x1_0000,
        pow256(4) == 0x1_0000_0000,
        pow256(8) == 0x1_0000_0000_0000_0000,
{
    reveal_with_fuel(pow256, 9);
}

pub proof fn lemma_pow256_monotonic(a: nat, b: nat)
    requires
        a <= b,
    ensures
        0 < pow256(a) <= pow256(b),
    decreases b,
{
    if b > 0 {
        if a < b {
            lemma_pow256_monotonic(a, (b - 1) as nat);
        } else {
            lemma_pow256_monotonic((a - 1) as nat, (b - 1) as nat);
        }
    }
}

/// Prepending a digit to `s` multiplies the rest by 256.
proof fn lemma_le_value_step(s: Seq<u8>, from: int, to: int)
    requires
        0 <= from < to <= s.len(),
    ensures
        le_value(s.subrange(from, to)) == s[from] as nat + 256 * le_value(s.subrange(from + 1, to)),
{
    assert(s.subrange(from, to).skip(1) =~= s.subrange(from + 1, to));
}

/// Reads the `width`-byte little-endian integer at `offset`.
pub fn read_le(bytes: &[u8], offset: usize, width: usize) -> (value: u64)
    requires
        width <= 8,
        offset + width <= bytes@.len(),
    ensures
        value == le_value(bytes@.subrange(offset as int, offset + width)),
        value < pow256(width as nat),
{
    let total: usize = bytes.len();
    let mut value: u64 = 0;
    let mut left: usize = width;
    proof {
        lemma_le_bytes_of_le_value(bytes@.subrange(offset as int, offset + width));
        assert(bytes@.subrange(offset + width, offset + width) =~= Seq::empty());
        lemma_pow256_values();
    }
    while left > 0
        invariant
            left <= width <= 8,
            offset + width <= total,
            total == bytes@.len(),
            value == le_value(bytes@.subrange(offset + left, offset + width)),
        decreases left,
    {
        left = left - 1;
        proof {
            let tail = bytes@.subrange(offset + left + 1, offset + width);
            lemma_le_value_step(bytes@, offset + left, offset + width);
            lemma_le_bytes_of_le_value(tail);
            lemma_pow256_monotonic(tail.len(), 7);
            lemma_pow256_values();
            assert(pow256(8) == 256 * pow256(7));
        }
        value = value * 256 + bytes[offset + left] as u64;
    }
    assert(bytes@.subrange(offset + 0, offset + width) =~= bytes@.subrange(
        offset as int,
        offset + width,
    ));
    value
}

/// Appends the `width` lowest bytes of `value`, lowest first.
pub fn push_le(out: &mut Vec<u8>, value: u64, width: usize)
    requires
        width <= 8,
    ensures
        final(out)@ == old(out)@ + le_bytes(value as nat, width as nat),
{
    let mut rest: u64 = value;
    let mut left: usize = width;
    while left > 0
        invariant
            left <= width <= 8,
            out@ + le_bytes(rest as nat, left as nat) == old(out)@ + le_bytes(
                value as nat,
                width as nat,
            ),
        decreases left,
    {
        let ghost before = out@;
        let digit: u8 = (rest % 256) as u8;
        out.push(digit);
        proof {
            let tail = le_bytes((rest / 256) as nat, (left - 1) as nat);
            assert(before + (seq![digit] + tail) =~= before.push(digit) + tail);
        }
        rest = rest / 256;
        left = left - 1;
    }
    assert(out@ + Seq::<u8>::empty() =~= out@);
}

/// The little-endian bytes of a sequence of 64-bit words, in order.
pub open spec fn bytes_of_u64s(s: Seq<u64>) -> Seq<u8> {
    Seq::new(8 * s.len(), |j: int| le_bytes(s[j / 8] as nat, 8)[j % 8])
}

/// The little-endian bytes of a sequence of 32-bit words, in order.
pub open spec fn bytes_of_u32s(s: Seq<u32>) -> Seq<u8> {
    Seq::new(4 * s.len(), |j: int| le_bytes(s[j / 4] as nat, 4)[j % 4])
}

/// The 64-bit words that `s` holds, low byte first; a partial word at the end is left out.
pub open spec fn u64s_of_bytes(s: Seq<u8>) -> Seq<u64> {
    Seq::new(s.len() / 8, |i: int| le_value(s.subrange(8 * i, 8 * i + 8)) as u64)
}

/// The 32-bit words that `s` holds, low byte first; a partial word at the end is left out.
pub open spec fn u32s_of_bytes(s: Seq<u8>) -> Seq<u32> {
    Seq::new(s.len() / 4, |i: int| le_value(s.subrange(4 * i, 4 * i + 4)) as u32)
}

/// Reading words back from their own bytes gives the same words.
pub proof fn lemma_u64s_of_bytes_of_u64s(s: Seq<u64>)
    ensures
        u64s_of_bytes(bytes_of_u64s(s)) == s,
{
    let b = bytes_of_u64s(s);
    assert forall|i: int| 0 <= i < s.len() implies u64s_of_bytes(b)[i] == s[i] by {
        lemma_le_bytes_len(s[i] as nat, 8);
        assert(b.subrange(8 * i, 8 * i + 8) =~= le_bytes(s[i] as nat, 8));
        lemma_pow256_values();
        lemma_le_value_of_le_bytes(s[i] as nat, 8);
    }
    assert(u64s_of_bytes(b) =~= s);
}

/// The bytes of the words of a whole number of words are those bytes.
pub proof fn lemma_bytes_of_u64s_of_bytes(b: Seq<u8>)
    requires
        b.len() % 8 == 0,
    ensures
        bytes_of_u64s(u64s_of_bytes(b)) == b,
{
    let s = u64s_of_bytes(b);
    assert forall|j: int| 0 <= j < b.len() implies bytes_of_u64s(s)[j] == b[j] by {
        let i = j / 8;
        let w = b.subrange(8 * i, 8 * i + 8);
        lemma_le_bytes_of_le_value(w);
        lemma_pow256_values();
        assert(s[i] as nat == le_value(w));
        assert(w[j % 8] == b[j]);
    }
    assert(bytes_of_u64s(s) =~= b);
}

/// Reading words back from their own bytes gives the same words.
pub proof fn lemma_u32s_of_bytes_of_u32s(s: Seq<u32>)
    ensures
        u32s_of_bytes(bytes_of_u32s(s)) == s,
{
    let b = bytes_of_u32s(s);
    assert forall|i: int| 0 <= i < s.len() implies u32s_of_bytes(b)[i] == s[i] by {
        lemma_le_bytes_len(s[i] as nat, 4);
        assert(b.subrange(4 * i, 4 * i + 4) =~= le_bytes(s[i] as nat, 4));
        lemma_pow256_values();
        lemma_le_value_of_le_bytes(s[i] as nat, 4);
    }
    assert(u32s_of_bytes(b) =~= s);
}

/// Views words as bytes with `zerocopy::IntoBytes::as_bytes`.
///
/// The words are handed over as `zerocopy::little_endian::U64`, which stores the low byte first on
/// every machine, so the bytes are those of each word in turn, low byte first.
#[verifier::external_body]
pub(crate) fn u64s_as_bytes(words: &[u64]) -> (bytes: Vec<u8>)
    ensures
        bytes@ == bytes_of_u64s(words@),
{
    let words: Vec<U64> = words.iter().map(|word| U64::new(*word)).collect();
    words.as_slice().as_bytes().to_vec()
}

/// Views words as bytes with `zerocopy::IntoBytes::as_bytes`.
///
/// The words are handed over as `zerocopy::little_endian::U32`, which stores the low byte first on
/// every machine, so the bytes are those of each word in turn, low byte first.
#[verifier::external_body]
pub(crate) fn u32s_as_bytes(words: &[u32]) -> (bytes: Vec<u8>)
    ensures
        bytes@ == bytes_of_u32s(words@),
{
    let words: Vec<U32> = words.iter().map(|word| U32::new(*word)).collect();
    words.as_slice().as_bytes().to_vec()
}

/// Views bytes as words with `zerocopy::FromBytes::ref_from_bytes`, on slices of
/// `zerocopy::little_endian::U64`.
///
/// That type has no alignment of its own, so the cast fails only when the bytes are not a whole
/// number of words; otherwise each word reads its eight bytes low byte first.
#[verifier::external_body]
pub(crate) fn bytes_as_u64s(bytes: &[u8]) -> (words: Option<Vec<u64>>)
    ensures
        words is Some <==> bytes@.len() % 8 == 0,
        words matches Some(words) ==> words@ == u64s_of_bytes(bytes@),
{
    let words = <[U64]>::ref_from_bytes(bytes).ok()?;
    Some(words.iter().map(|word| word.get()).collect())
}

/// Views the first `count` words of `bytes` with `zerocopy::FromBytes::ref_from_prefix_with_elems`,
/// on slices of `zerocopy::little_endian::U32`.
///
/// That type has no alignment of its own, so the cast fails only when the bytes are too few;
/// otherwise each word reads its four bytes low byte first.
#[verifier::external_body]
pub(crate) fn bytes_as_u32s(bytes: &[u8], count: usize) -> (words: Option<Vec<u32>>)
    ensures
        words is Some <==> 4 * count <= bytes@.len(),
        words matches Some(words) ==> words@ == u32s_of_bytes(bytes@.take(4 * count)),
{
    let (words, _) = <[U32]>::ref_from_prefix_with_elems(bytes, count).ok()?;
    Some(words.iter().map(|word| word.get()).collect())
}

/// Returns the bytes of `slice`.
pub fn slice_to_vec(slice: &[u8]) -> (bytes: Vec<u8>)
    ensures
        bytes@ == slice@,
{
    let mut bytes: Vec<u8> = Vec::new();
    bytes.extend_from_slice(slice);
    assert(bytes@ =~= slice@);
    bytes
}

/// A number has its lowest byte first, and each byte counts 256 times the one before it.
pub proof fn law_bytes_of_number(v: nat)
    ensures
        le_bytes(v, 2) =~= seq![(v % 256) as u8, (v / 0x100 % 256) as u8],
        le_bytes(v, 4) =~= seq![
            (v % 256) as u8,
            (v / 0x100 % 256) as u8,
            (v / 0x1_0000 % 256) as u8,
            (v / 0x100_0000 % 256) as u8,
        ],
        le_bytes(v, 8) =~= seq![
            (v % 256) as u8,
            (v / 0x100 % 256) as u8,
            (v / 0x1_0000 % 256) as u8,
            (v / 0x100_0000 % 256) as u8,
            (v / 0x1_0000_0000 % 256) as u8,
            (v / 0x100_0000_0000 % 256) as u8,
            (v / 0x1_0000_0000_0000 % 256) as u8,
            (v / 0x100_0000_0000_0000 % 256) as u8,
        ],
{
    reveal_with_fuel(le_bytes, 9);
}

/// The number of some bytes counts each 256 times the one before it.
pub proof fn law_number_of_bytes(s: Seq<u8>)
    ensures
        s.len() == 1 ==> le_value(s) == s[0],
        s.len() == 2 ==> le_value(s) == s[0] + 0x100 * s[1],
        s.len() == 4 ==> le_value(s) == s[0] + 0x100 * s[1] + 0x1_0000 * s[2] + 0x100_0000 * s[3],
        s.len() == 8 ==> le_value(s) == s[0] + 0x100 * s[1] + 0x1_0000 * s[2] + 0x100_0000 * s[3]
            + 0x1_0000_0000 * s[4] + 0x100_0000_0000 * s[5] + 0x1_0000_0000_0000 * s[6]
            + 0x100_0000_0000_0000 * s[7],
{
    reveal_with_fuel(le_value, 9);
}

/// The word `i` of some bytes is the number of the eight bytes from `8 * i` on, or of the four bytes
/// from `4 * i` on, and there are as many words as the bytes fill.
pub proof fn law_words_of_bytes(s: Seq<u8>, i: int)
    requires
        0 <= i,
    ensures
        u64s_of_bytes(s).len() == s.len() / 8,
        u32s_of_bytes(s).len() == s.len() / 4,
        8 * i + 8 <= s.len() ==> u64s_of_bytes(s)[i] == s[8 * i] + 0x100 * s[8 * i + 1] + 0x1_0000
            * s[8 * i + 2] + 0x100_0000 * s[8 * i + 3] + 0x1_0000_0000 * s[8 * i + 4]
            + 0x100_0000_0000 * s[8 * i + 5] + 0x1_0000_0000_0000 * s[8 * i + 6]
            + 0x100_0000_0000_0000 * s[8 * i + 7],
        4 * i + 4 <= s.len() ==> u32s_of_bytes(s)[i] == s[4 * i] + 0x100 * s[4 * i + 1] + 0x1_0000
            * s[4 * i + 2] + 0x100_0000 * s[4 * i + 3],
{
    if 8 * i + 8 <= s.len() {
        law_number_of_bytes(s.subrange(8 * i, 8 * i + 8));
    }
    if 4 * i + 4 <= s.len() {
        law_number_of_bytes(s.subrange(4 * i, 4 * i + 4));
    }
}

/// The bytes of some words are those of each word in turn, lowest byte first.
pub proof fn law_bytes_of_words(wide: Seq<u64>, narrow: Seq<u32>, i: int)
    requires
        0 <= i,
    ensures
        bytes_of_u64s(wide).len() == 8 * wide.len(),
        bytes_of_u32s(narrow).len() == 4 * narrow.len(),
        i < wide.len() ==> {
            let s = bytes_of_u64s(wide);
            wide[i] == s[8 * i] + 0x100 * s[8 * i + 1] + 0x1_0000 * s[8 * i + 2] + 0x100_0000 * s[8
                * i + 3] + 0x1_0000_0000 * s[8 * i + 4] + 0x100_0000_0000 * s[8 * i + 5]
                + 0x1_0000_0000_0000 * s[8 * i + 6] + 0x100_0000_0000_0000 * s[8 * i + 7]
        },
        i < narrow.len() ==> {
            let s = bytes_of_u32s(narrow);
            narrow[i] == s[4 * i] + 0x100 * s[4 * i + 1] + 0x1_0000 * s[4 * i + 2] + 0x100_0000
                * s[4 * i + 3]
        },
{
    lemma_pow256_values();
    if i < wide.len() {
        let s = bytes_of_u64s(wide);
        lemma_le_bytes_len(wide[i] as nat, 8);
        assert(s.subrange(8 * i, 8 * i + 8) =~= le_bytes(wide[i] as nat, 8));
        lemma_le_value_of_le_bytes(wide[i] as nat, 8);
        law_number_of_bytes(s.subrange(8 * i, 8 * i + 8));
    }
    if i < narrow.len() {
        let s = bytes_of_u32s(narrow);
        lemma_le_bytes_len(narrow[i] as nat, 4);
        assert(s.subrange(4 * i, 4 * i + 4) =~= le_bytes(narrow[i] as nat, 4));
        lemma_le_value_of_le_bytes(narrow[i] as nat, 4);
        law_number_of_bytes(s.subrange(4 * i, 4 * i + 4));
    }
}

/// A number that stands at a place among some bytes is read back from there.
pub proof fn lemma_number_at(bytes: Seq<u8>, at: int, v: nat, n: nat)
    requires
        0 <= at,
        at + n <= bytes.len(),
        v < pow256(n),
        bytes.subrange(at, at + n) == le_bytes(v, n),
    ensures
        le_value(bytes.subrange(at, at + n)) == v,
{
    lemma_le_value_of_le_bytes(v, n);
}

} // verus!
