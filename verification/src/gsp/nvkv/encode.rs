//! Writing NVKV streams.

use vstd::prelude::*;

use crate::bytes::{
    bytes_of_u32s, bytes_of_u64s, law_bytes_of_words, law_words_of_bytes, le_bytes,
    lemma_le_bytes_of_le_value, lemma_pow256_values, lemma_u64s_of_bytes_of_u64s, u32s_as_bytes,
    u64s_as_bytes, u64s_of_bytes, zeros,
};
use crate::error::Error;
use crate::gsp::nvkv::types::{
    law_op_word_number, op_word, Index, Key, KeyId, Op, Opcode, Pair, Value,
};
use crate::gsp::nvkv::{padded, EncodedStream};

verus! {

/// Whether the number of elements of a value fits in an op word.
pub open spec fn fits(value: Value) -> bool {
    match value {
        Value::Scalar32(_) => true,
        Value::Scalar64(_) => true,
        Value::Array8(array) => array.len() <= u32::MAX,
        Value::Array32(array) => array.len() <= u32::MAX,
        Value::Array64(array) => array.len() <= u32::MAX,
    }
}

/// The words that a pair is written as: an op word, and the data that does not fit in it.
pub open spec fn encoded(pair: Pair) -> Seq<u64> {
    match pair.value {
        Value::Scalar32(value) => seq![op_word(pair.key, pair.index, Opcode::Imm32, value)],
        Value::Scalar64(value) => seq![op_word(pair.key, pair.index, Opcode::Seq64, 1), value],
        Value::Array8(array) => seq![
            op_word(pair.key, pair.index, Opcode::Array8, array.len() as u32),
        ] + u64s_of_bytes(padded(array)),
        Value::Array32(array) => seq![
            op_word(pair.key, pair.index, Opcode::Array32, array.len() as u32),
        ] + u64s_of_bytes(padded(bytes_of_u32s(array))),
        Value::Array64(array) => seq![
            op_word(pair.key, pair.index, Opcode::Array64, array.len() as u32),
        ] + array,
    }
}

/// The words that a sequence of pairs is written as.
pub open spec fn encoded_all(pairs: Seq<Pair>) -> Seq<u64>
    decreases pairs.len(),
{
    if pairs.len() == 0 {
        seq![]
    } else {
        encoded(pairs[0]) + encoded_all(pairs.skip(1))
    }
}

/// How many pairs come before the first one whose value does not fit.
pub open spec fn fitting(pairs: Seq<Pair>) -> nat
    decreases pairs.len(),
{
    if pairs.len() == 0 || !fits(pairs[0].value) {
        0
    } else {
        1 + fitting(pairs.skip(1))
    }
}

/// Whether `result`, with the stream going from `before` to `after`, is the outcome of writing
/// `pairs`: they are written in order, and writing stops with an error at the first one that does
/// not fit.
pub open spec fn encodes(
    before: Seq<u64>,
    after: Seq<u64>,
    pairs: Seq<Pair>,
    result: Result<(), Error>,
) -> bool {
    &&& after == before + encoded_all(pairs.take(fitting(pairs) as int))
    &&& result == if fitting(pairs) == pairs.len() {
        Ok::<(), Error>(())
    } else {
        Err(Error::EMSGSIZE)
    }
}

/// At most all pairs fit.
pub proof fn lemma_fitting_bound(pairs: Seq<Pair>)
    ensures
        fitting(pairs) <= pairs.len(),
    decreases pairs.len(),
{
    if pairs.len() > 0 {
        lemma_fitting_bound(pairs.skip(1));
    }
}

/// A sequence of pairs is written as its first part, then its second.
pub proof fn lemma_encoded_all_append(a: Seq<Pair>, b: Seq<Pair>)
    ensures
        encoded_all(a + b) == encoded_all(a) + encoded_all(b),
    decreases a.len(),
{
    if a.len() == 0 {
        assert(a + b =~= b);
        assert(encoded_all(a) + encoded_all(b) =~= encoded_all(b));
    } else {
        lemma_encoded_all_append(a.skip(1), b);
        assert((a + b).skip(1) =~= a.skip(1) + b);
        assert(encoded_all(a + b) =~= encoded_all(a) + encoded_all(b));
    }
}

/// The pairs that fit in a sequence are those of its first part, and those of its second if all of
/// the first fit.
pub proof fn lemma_fitting_append(a: Seq<Pair>, b: Seq<Pair>)
    ensures
        fitting(a + b) == if fitting(a) == a.len() {
            a.len() + fitting(b)
        } else {
            fitting(a)
        },
    decreases a.len(),
{
    lemma_fitting_bound(a);
    if a.len() == 0 {
        assert(a + b =~= b);
    } else {
        lemma_fitting_append(a.skip(1), b);
        lemma_fitting_bound(a.skip(1));
        assert((a + b).skip(1) =~= a.skip(1) + b);
    }
}

/// Writing `a` and, if that succeeds, `b` is writing `a` followed by `b`.
pub proof fn lemma_encodes_append(
    start: Seq<u64>,
    middle: Seq<u64>,
    end: Seq<u64>,
    a: Seq<Pair>,
    b: Seq<Pair>,
    first: Result<(), Error>,
    second: Result<(), Error>,
)
    requires
        encodes(start, middle, a, first),
        first is Ok ==> encodes(middle, end, b, second),
    ensures
        first is Ok ==> encodes(start, end, a + b, second),
        first is Err ==> encodes(start, middle, a + b, first),
{
    lemma_fitting_append(a, b);
    lemma_fitting_bound(a);
    lemma_fitting_bound(b);
    if first is Ok {
        assert(a.take(a.len() as int) =~= a);
        let n = fitting(b) as int;
        assert((a + b).take(a.len() + n) =~= a + b.take(n));
        lemma_encoded_all_append(a, b.take(n));
        assert(end =~= start + encoded_all(a + b.take(n)));
    } else {
        assert((a + b).take(fitting(a) as int) =~= a.take(fitting(a) as int));
    }
}

/// Writing no pairs changes nothing.
pub proof fn lemma_encodes_nothing(stream: Seq<u64>)
    ensures
        encodes(stream, stream, seq![], Ok(())),
{
    assert(Seq::<Pair>::empty().take(0) =~= seq![]);
    assert(stream + encoded_all(seq![]) =~= stream);
}

/// A type that can encode itself into an [`Encoder`].
pub trait Encodable {
    /// The pairs that this value is written as.
    spec fn pairs(&self) -> Seq<Pair>;

    /// Encodes `self` into `encoder`.
    fn encode(&self, encoder: &mut Encoder) -> (result: Result<(), Error>)
        ensures
            encodes(old(encoder)@, final(encoder)@, self.pairs(), result),
    ;
}

/// A type whose values are NVKV values.
pub trait WireValue {
    /// The NVKV value.
    spec fn wire(&self) -> Value;

    /// Encodes `self` under `key` and `index`.
    fn encode_under(&self, key: KeyId, index: Index, encoder: &mut Encoder) -> (result: Result<
        (),
        Error,
    >)
        ensures
            encodes_one(
                old(encoder)@,
                final(encoder)@,
                (Pair { key, index: index.get(), value: self.wire() }),
                result,
            ),
    ;
}

/// Whether `result`, with the stream going from `before` to `after`, is the outcome of writing
/// `pair`.
pub open spec fn encodes_one(
    before: Seq<u64>,
    after: Seq<u64>,
    pair: Pair,
    result: Result<(), Error>,
) -> bool {
    if fits(pair.value) {
        after == before + encoded(pair) && result == Ok::<(), Error>(())
    } else {
        after == before && result == Err::<(), Error>(Error::EMSGSIZE)
    }
}

/// Writing one pair is writing a sequence of it alone.
pub proof fn lemma_encodes_one(
    before: Seq<u64>,
    after: Seq<u64>,
    pair: Pair,
    result: Result<(), Error>,
)
    requires
        encodes_one(before, after, pair, result),
    ensures
        encodes(before, after, seq![pair], result),
{
    let pairs = seq![pair];
    assert(pairs.skip(1) =~= seq![]);
    assert(fitting(pairs.skip(1)) == 0);
    if fits(pair.value) {
        assert(pairs.take(1) =~= pairs);
        assert(encoded_all(pairs.skip(1)) =~= seq![]);
        assert(encoded(pair) + encoded_all(pairs.skip(1)) =~= encoded(pair));
    } else {
        assert(pairs.take(0) =~= seq![]);
        assert(after =~= before + encoded_all(pairs.take(0)));
    }
}

impl WireValue for u32 {
    open spec fn wire(&self) -> Value {
        Value::Scalar32(*self)
    }

    fn encode_under(&self, key: KeyId, index: Index, encoder: &mut Encoder) -> (result: Result<
        (),
        Error,
    >) {
        encoder.encode_u32(key, index, *self)
    }
}

impl WireValue for u64 {
    open spec fn wire(&self) -> Value {
        Value::Scalar64(*self)
    }

    fn encode_under(&self, key: KeyId, index: Index, encoder: &mut Encoder) -> (result: Result<
        (),
        Error,
    >) {
        encoder.encode_u64(key, index, *self)
    }
}

impl<'a> WireValue for &'a [u8] {
    open spec fn wire(&self) -> Value {
        Value::Array8(self@)
    }

    fn encode_under(&self, key: KeyId, index: Index, encoder: &mut Encoder) -> (result: Result<
        (),
        Error,
    >) {
        encoder.encode_array8(key, index, *self)
    }
}

impl<'a> WireValue for &'a [u32] {
    open spec fn wire(&self) -> Value {
        Value::Array32(self@)
    }

    fn encode_under(&self, key: KeyId, index: Index, encoder: &mut Encoder) -> (result: Result<
        (),
        Error,
    >) {
        encoder.encode_array32(key, index, *self)
    }
}

impl<'a> WireValue for &'a [u64] {
    open spec fn wire(&self) -> Value {
        Value::Array64(self@)
    }

    fn encode_under(&self, key: KeyId, index: Index, encoder: &mut Encoder) -> (result: Result<
        (),
        Error,
    >) {
        encoder.encode_array64(key, index, *self)
    }
}

impl<const N: usize> WireValue for [u8; N] {
    open spec fn wire(&self) -> Value {
        Value::Array8(self@)
    }

    fn encode_under(&self, key: KeyId, index: Index, encoder: &mut Encoder) -> (result: Result<
        (),
        Error,
    >) {
        encoder.encode_array8(key, index, self.as_slice())
    }
}

impl<const N: usize> WireValue for [u32; N] {
    open spec fn wire(&self) -> Value {
        Value::Array32(self@)
    }

    fn encode_under(&self, key: KeyId, index: Index, encoder: &mut Encoder) -> (result: Result<
        (),
        Error,
    >) {
        encoder.encode_array32(key, index, self.as_slice())
    }
}

impl<const N: usize> WireValue for [u64; N] {
    open spec fn wire(&self) -> Value {
        Value::Array64(self@)
    }

    fn encode_under(&self, key: KeyId, index: Index, encoder: &mut Encoder) -> (result: Result<
        (),
        Error,
    >) {
        encoder.encode_array64(key, index, self.as_slice())
    }
}

/// A value with a specific index that encodes under the NVKV key `KEY_ID`.
pub struct IndexedKey<T, const KEY_ID: u16> {
    pub index: Index,
    pub value: T,
}

impl<T, const KEY_ID: u16> IndexedKey<T, KEY_ID> {
    /// Creates a key with the given index and value.
    pub fn new(index: Index, value: T) -> (key: Self)
        ensures
            key.index == index,
            key.value == value,
    {
        IndexedKey { index, value }
    }
}

impl<T: WireValue, const KEY_ID: u16> Encodable for IndexedKey<T, KEY_ID> {
    open spec fn pairs(&self) -> Seq<Pair> {
        seq![Pair { key: KEY_ID, index: self.index.get(), value: self.value.wire() }]
    }

    fn encode(&self, encoder: &mut Encoder) -> (result: Result<(), Error>) {
        let result = self.value.encode_under(KEY_ID, self.index, encoder);
        proof {
            lemma_encodes_one(
                old(encoder)@,
                encoder@,
                Pair { key: KEY_ID, index: self.index.get(), value: self.value.wire() },
                result,
            );
        }
        result
    }
}

impl<T: WireValue, const KEY_ID: u16> Encodable for Key<T, KEY_ID> {
    open spec fn pairs(&self) -> Seq<Pair> {
        seq![Pair { key: KEY_ID, index: 0, value: self.0.wire() }]
    }

    fn encode(&self, encoder: &mut Encoder) -> (result: Result<(), Error>) {
        let result = self.0.encode_under(KEY_ID, Index::new::<0>(), encoder);
        proof {
            lemma_encodes_one(
                old(encoder)@,
                encoder@,
                Pair { key: KEY_ID, index: 0, value: self.0.wire() },
                result,
            );
        }
        result
    }
}

impl<T: Encodable> Encodable for Option<T> {
    open spec fn pairs(&self) -> Seq<Pair> {
        match self {
            Some(value) => value.pairs(),
            None => seq![],
        }
    }

    fn encode(&self, encoder: &mut Encoder) -> (result: Result<(), Error>) {
        match self {
            Some(value) => value.encode(encoder),
            None => {
                proof {
                    lemma_encodes_nothing(encoder@);
                }
                Ok(())
            },
        }
    }
}

/// The pairs of all `items`, one after the other.
pub open spec fn pairs_of_all<T: Encodable>(items: Seq<T>) -> Seq<Pair>
    decreases items.len(),
{
    if items.len() == 0 {
        seq![]
    } else {
        pairs_of_all(items.drop_last()) + items.last().pairs()
    }
}

/// The first items' pairs come first among the pairs of all items.
proof fn lemma_pairs_of_all_prefix<T: Encodable>(items: Seq<T>, n: int) -> (tail: Seq<Pair>)
    requires
        0 <= n <= items.len(),
    ensures
        pairs_of_all(items) == pairs_of_all(items.take(n)) + tail,
    decreases items.len() - n,
{
    if n == items.len() {
        assert(items.take(n) =~= items);
        assert(pairs_of_all(items) =~= pairs_of_all(items) + seq![]);
        seq![]
    } else {
        let tail = lemma_pairs_of_all_prefix(items, n + 1);
        assert(items.take(n + 1).drop_last() =~= items.take(n));
        assert(pairs_of_all(items) =~= pairs_of_all(items.take(n)) + (items[n].pairs() + tail));
        items[n].pairs() + tail
    }
}

impl<T: Encodable> Encodable for Vec<T> {
    open spec fn pairs(&self) -> Seq<Pair> {
        pairs_of_all(self@)
    }

    fn encode(&self, encoder: &mut Encoder) -> (result: Result<(), Error>) {
        let mut i: usize = 0;
        let ghost start = encoder@;
        proof {
            lemma_encodes_nothing(start);
            assert(self@.take(0) =~= seq![]);
        }
        while i < self.len()
            invariant
                i <= self@.len(),
                start == old(encoder)@,
                encodes(start, encoder@, pairs_of_all(self@.take(i as int)), Ok(())),
            decreases self@.len() - i,
        {
            let ghost middle = encoder@;
            let ghost done = pairs_of_all(self@.take(i as int));
            let result = self[i].encode(encoder);
            proof {
                let next = self@.take(i + 1);
                assert(next.drop_last() =~= self@.take(i as int));
                let item = self@[i as int].pairs();
                lemma_encodes_append(start, middle, encoder@, done, item, Ok(()), result);
                if result is Err {
                    let tail = lemma_pairs_of_all_prefix(self@, i + 1);
                    lemma_encodes_append(start, encoder@, encoder@, done + item, tail, result, result);
                }
            }
            if result.is_err() {
                return result;
            }
            i = i + 1;
        }
        assert(self@.take(i as int) =~= self@);
        Ok(())
    }
}

/// An encoder for an NVKV stream.
pub struct Encoder {
    stream: EncodedStream,
}

impl View for Encoder {
    type V = Seq<u64>;

    closed spec fn view(&self) -> Seq<u64> {
        self.stream@
    }
}

impl Encoder {
    /// Creates an empty encoder.
    pub fn new() -> (encoder: Self)
        ensures
            encoder@ == Seq::<u64>::empty(),
    {
        Encoder { stream: EncodedStream::new() }
    }

    /// Returns the encoded data.
    pub fn finish(self) -> (stream: EncodedStream)
        ensures
            stream@ == self@,
    {
        self.stream
    }

    fn encode_op(&mut self, op: Op)
        ensures
            final(self)@ == old(self)@.push(op.raw),
    {
        self.stream.push_u64(op.into_raw());
    }

    /// Encodes a 32-bit value as an IMM32 pair, with the value in the op word.
    pub fn encode_u32(&mut self, key: KeyId, index: Index, value: u32) -> (result: Result<
        (),
        Error,
    >)
        ensures
            encodes_one(
                old(self)@,
                final(self)@,
                (Pair { key, index: index.get(), value: Value::Scalar32(value) }),
                result,
            ),
    {
        let op = Op::zeroed().with_key(key).with_index(index).with_opcode(
            Opcode::Imm32,
        ).with_value(value);
        self.encode_op(op);
        assert(self@ =~= old(self)@ + seq![op.raw]);
        Ok(())
    }

    /// Encodes a 64-bit value as a single-element SEQ64 pair.
    pub fn encode_u64(&mut self, key: KeyId, index: Index, value: u64) -> (result: Result<
        (),
        Error,
    >)
        ensures
            encodes_one(
                old(self)@,
                final(self)@,
                (Pair { key, index: index.get(), value: Value::Scalar64(value) }),
                result,
            ),
    {
        let op = Op::zeroed().with_key(key).with_index(index).with_opcode(
            Opcode::Seq64,
        ).with_value(1);
        self.encode_op(op);
        self.stream.push_u64(value);
        assert(self@ =~= old(self)@ + seq![op.raw, value]);
        Ok(())
    }

    /// Encodes a byte array as an ARRAY8 pair, zero-padded to a multiple of 8 bytes.
    pub fn encode_array8(&mut self, key: KeyId, index: Index, array: &[u8]) -> (result: Result<
        (),
        Error,
    >)
        ensures
            encodes_one(
                old(self)@,
                final(self)@,
                (Pair { key, index: index.get(), value: Value::Array8(array@) }),
                result,
            ),
    {
        let count: usize = array.len();
        if count as u64 > u32::MAX as u64 {
            return Err(Error::EMSGSIZE);
        }
        let op = Op::zeroed().with_key(key).with_index(index).with_opcode(
            Opcode::Array8,
        ).with_value(count as u32);
        self.encode_op(op);
        self.stream.extend_with_padding(array);
        assert(self@ =~= old(self)@ + (seq![op.raw] + u64s_of_bytes(padded(array@))));
        Ok(())
    }

    /// Encodes a 32-bit array as an ARRAY32 pair, zero-padded to a multiple of 8 bytes.
    pub fn encode_array32(&mut self, key: KeyId, index: Index, array: &[u32]) -> (result: Result<
        (),
        Error,
    >)
        ensures
            encodes_one(
                old(self)@,
                final(self)@,
                (Pair { key, index: index.get(), value: Value::Array32(array@) }),
                result,
            ),
    {
        let count: usize = array.len();
        if count as u64 > u32::MAX as u64 {
            return Err(Error::EMSGSIZE);
        }
        let op = Op::zeroed().with_key(key).with_index(index).with_opcode(
            Opcode::Array32,
        ).with_value(count as u32);
        self.encode_op(op);
        let data = u32s_as_bytes(array);
        self.stream.extend_with_padding(data.as_slice());
        assert(self@ =~= old(self)@ + (seq![op.raw] + u64s_of_bytes(
            padded(bytes_of_u32s(array@)),
        )));
        Ok(())
    }

    /// Encodes a 64-bit array as an ARRAY64 pair.
    pub fn encode_array64(&mut self, key: KeyId, index: Index, array: &[u64]) -> (result: Result<
        (),
        Error,
    >)
        ensures
            encodes_one(
                old(self)@,
                final(self)@,
                (Pair { key, index: index.get(), value: Value::Array64(array@) }),
                result,
            ),
    {
        let count: usize = array.len();
        if count as u64 > u32::MAX as u64 {
            return Err(Error::EMSGSIZE);
        }
        let op = Op::zeroed().with_key(key).with_index(index).with_opcode(
            Opcode::Array64,
        ).with_value(count as u32);
        self.encode_op(op);
        let data = u64s_as_bytes(array);
        proof {
            lemma_whole_words(array@);
        }
        self.stream.extend_with_padding(data.as_slice());
        assert(self@ =~= old(self)@ + (seq![op.raw] + array@));
        Ok(())
    }
}

/// The bytes of whole words need no padding, and the words are read back from them.
proof fn lemma_whole_words(words: Seq<u64>)
    ensures
        u64s_of_bytes(padded(bytes_of_u64s(words))) == words,
{
    assert(bytes_of_u64s(words).len() == 8 * words.len());
    lemma_no_padding(bytes_of_u64s(words));
    lemma_u64s_of_bytes_of_u64s(words);
}

/// Bytes that fill whole words need no padding.
proof fn lemma_no_padding(bytes: Seq<u8>)
    requires
        bytes.len() % 8 == 0,
    ensures
        padded(bytes) == bytes,
{
    assert(bytes + zeros(0) =~= bytes);
}

/// A 32-bit number is written in the upper half of its op word.
pub proof fn law_words_of_scalar32(key: u16, index: u16, value: u32)
    requires
        index < 4096,
    ensures
        encoded(Pair { key, index, value: Value::Scalar32(value) }) =~= seq![
            (key + index * 0x1_0000 + value * 0x1_0000_0000) as u64,
        ],
{
    law_op_word_number(key, index, Opcode::Imm32, value);
}

/// A 64-bit number is written as a sequence of one: an op word with the opcode 2 and the count 1,
/// then the number.
pub proof fn law_words_of_scalar64(key: u16, index: u16, value: u64)
    requires
        index < 4096,
    ensures
        encoded(Pair { key, index, value: Value::Scalar64(value) }) =~= seq![
            (key + index * 0x1_0000 + 0x1_2000_0000) as u64,
            value,
        ],
{
    law_op_word_number(key, index, Opcode::Seq64, 1);
}

/// Bytes are written after an op word with the opcode 3 and their count, eight to a word, the first
/// one lowest, and zeros where the last word has no more.
pub proof fn law_words_of_array8(key: u16, index: u16, array: Seq<u8>, i: int)
    requires
        index < 4096,
        array.len() <= u32::MAX,
    ensures
        ({
            let words = encoded(Pair { key, index, value: Value::Array8(array) });
            &&& words.len() == 1 + (array.len() + 7) / 8
            &&& words[0] == key + index * 0x1_0000 + 0x3000_0000 + array.len() * 0x1_0000_0000
            &&& 0 <= i < array.len() ==> array[i] == le_bytes(words[1 + i / 8] as nat, 8)[i % 8]
            &&& array.len() <= i < 8 * (words.len() - 1) ==> le_bytes(
                words[1 + i / 8] as nat,
                8,
            )[i % 8] == 0
        }),
{
    law_op_word_number(key, index, Opcode::Array8, array.len() as u32);
    let bytes = padded(array);
    if 0 <= i < bytes.len() {
        lemma_byte_of_word(bytes, i);
    }
}

/// 32-bit numbers are written after an op word with the opcode 4 and their count, two to a word, the
/// first one in the lower half, and zero where the last word has no second one.
pub proof fn law_words_of_array32(key: u16, index: u16, array: Seq<u32>, i: int)
    requires
        index < 4096,
        array.len() <= u32::MAX,
    ensures
        ({
            let words = encoded(Pair { key, index, value: Value::Array32(array) });
            &&& words.len() == 1 + (array.len() + 1) / 2
            &&& words[0] == key + index * 0x1_0000 + 0x4000_0000 + array.len() * 0x1_0000_0000
            &&& 0 <= 2 * i < array.len() ==> words[1 + i] == array[2 * i] + 0x1_0000_0000 * (if 2 * i
                + 1 < array.len() {
                array[2 * i + 1]
            } else {
                0
            })
        }),
{
    law_op_word_number(key, index, Opcode::Array32, array.len() as u32);
    let bytes = bytes_of_u32s(array);
    let words = u64s_of_bytes(padded(bytes));
    if 0 <= 2 * i < array.len() {
        law_bytes_of_words(seq![], array, 2 * i);
        law_words_of_bytes(padded(bytes), i);
        if 2 * i + 1 < array.len() {
            law_bytes_of_words(seq![], array, 2 * i + 1);
        }
    }
}

/// 64-bit numbers are written after an op word with the opcode 5 and their count, as they are.
pub proof fn law_words_of_array64(key: u16, index: u16, array: Seq<u64>)
    requires
        index < 4096,
        array.len() <= u32::MAX,
    ensures
        encoded(Pair { key, index, value: Value::Array64(array) }) =~= seq![
            (key + index * 0x1_0000 + 0x5000_0000 + array.len() * 0x1_0000_0000) as u64,
        ] + array,
{
    law_op_word_number(key, index, Opcode::Array64, array.len() as u32);
}

/// A byte is read back from the word it is in.
proof fn lemma_byte_of_word(bytes: Seq<u8>, i: int)
    requires
        bytes.len() % 8 == 0,
        0 <= i < bytes.len(),
    ensures
        bytes[i] == le_bytes(u64s_of_bytes(bytes)[i / 8] as nat, 8)[i % 8],
{
    let part = bytes.subrange(8 * (i / 8), 8 * (i / 8) + 8);
    lemma_le_bytes_of_le_value(part);
    lemma_pow256_values();
    assert(part[i % 8] == bytes[i]);
}

/// Pairs are written one after the other. Writing succeeds where every array has at most as many
/// elements as an op word can count. Otherwise the pairs before the first one that has more are
/// written, and it fails.
pub proof fn law_writing_stops_at_first_oversized(
    before: Seq<u64>,
    after: Seq<u64>,
    pairs: Seq<Pair>,
    result: Result<(), Error>,
)
    requires
        encodes(before, after, pairs, result),
    ensures
        result is Ok <==> forall|i: int|
            0 <= i < pairs.len() ==> match (#[trigger] pairs[i]).value {
                Value::Array8(array) => array.len() <= 0xffff_ffff,
                Value::Array32(array) => array.len() <= 0xffff_ffff,
                Value::Array64(array) => array.len() <= 0xffff_ffff,
                _ => true,
            },
        result is Err ==> result == Err::<(), Error>(Error::EMSGSIZE),
        result is Ok ==> after == before + encoded_all(pairs),
        result is Err ==> exists|n: int|
            {
                &&& 0 <= n < pairs.len()
                &&& after == before + encoded_all(pairs.take(n))
                &&& match (#[trigger] pairs[n]).value {
                    Value::Array8(array) => array.len() > 0xffff_ffff,
                    Value::Array32(array) => array.len() > 0xffff_ffff,
                    Value::Array64(array) => array.len() > 0xffff_ffff,
                    _ => false,
                }
            },
{
    lemma_fitting_bound(pairs);
    lemma_fitting_is_first(pairs);
    assert(pairs.take(pairs.len() as int) =~= pairs);
    if fitting(pairs) < pairs.len() {
        assert(!fits(pairs[fitting(pairs) as int].value));
    }
}

/// The pairs before the first one that does not fit do, and that one does not.
proof fn lemma_fitting_is_first(pairs: Seq<Pair>)
    ensures
        forall|i: int| 0 <= i < fitting(pairs) && i < pairs.len() ==> fits((#[trigger] pairs[i]).value),
        fitting(pairs) < pairs.len() ==> !fits(pairs[fitting(pairs) as int].value),
    decreases pairs.len(),
{
    if pairs.len() > 0 && fits(pairs[0].value) {
        let rest = pairs.skip(1);
        lemma_fitting_is_first(rest);
        assert forall|i: int| 0 <= i < fitting(pairs) && i < pairs.len() implies fits(
            (#[trigger] pairs[i]).value,
        ) by {
            if i > 0 {
                assert(pairs[i] == rest[i - 1]);
            }
        }
        if fitting(pairs) < pairs.len() {
            assert(pairs[fitting(pairs) as int] == rest[fitting(rest) as int]);
        }
    }
}

/// The words of some pairs are those of the first, then those of the rest, and none where there are
/// no pairs.
pub proof fn law_words_of_pairs(first: Pair, rest: Seq<Pair>)
    ensures
        encoded_all(Seq::empty()) =~= Seq::<u64>::empty(),
        encoded_all(seq![first] + rest) =~= encoded(first) + encoded_all(rest),
{
    assert((seq![first] + rest).skip(1) =~= rest);
}

/// A key is written as one pair of its number, with the index that it has or 0. An absent value is
/// written as nothing, and a list as its items one after the other.
pub proof fn law_pairs_of_values<const KEY_ID: u16, T: Encodable>(
    narrow: u32,
    wide: u64,
    index: Index,
    items: Vec<T>,
    item: T,
)
    ensures
        (Key::<u32, KEY_ID>(narrow)).pairs() =~= seq![
            Pair { key: KEY_ID, index: 0, value: Value::Scalar32(narrow) },
        ],
        (Key::<u64, KEY_ID>(wide)).pairs() =~= seq![
            Pair { key: KEY_ID, index: 0, value: Value::Scalar64(wide) },
        ],
        (IndexedKey::<u32, KEY_ID> { index, value: narrow }).pairs() =~= seq![
            Pair { key: KEY_ID, index: index.get(), value: Value::Scalar32(narrow) },
        ],
        (IndexedKey::<u64, KEY_ID> { index, value: wide }).pairs() =~= seq![
            Pair { key: KEY_ID, index: index.get(), value: Value::Scalar64(wide) },
        ],
        None::<T>.pairs() =~= Seq::empty(),
        Some(item).pairs() == item.pairs(),
        items@.len() == 0 ==> items.pairs() =~= Seq::empty(),
        items@.len() > 0 ==> items.pairs() =~= pairs_of_all(items@.drop_last())
            + items@.last().pairs(),
{
}

/// A number is a scalar of its width, and a slice or an array is an array of the width of its elements.
pub proof fn law_wire_values<const N: usize>(
    bytes: &[u8],
    narrow: &[u32],
    wide: &[u64],
    some_bytes: [u8; N],
    some_narrow: [u32; N],
    some_wide: [u64; N],
)
    ensures
        bytes.wire() == Value::Array8(bytes@),
        narrow.wire() == Value::Array32(narrow@),
        wide.wire() == Value::Array64(wide@),
        some_bytes.wire() == Value::Array8(some_bytes@),
        some_narrow.wire() == Value::Array32(some_narrow@),
        some_wide.wire() == Value::Array64(some_wide@),
{
}

} // verus!
