//! Reading NVKV streams.

use vstd::prelude::*;
use vstd::std_specs::convert::TryFromSpec;

use crate::bytes::{
    bytes_as_u32s, bytes_of_u32s, bytes_of_u64s, law_bytes_of_words, law_words_of_bytes, le_bytes,
    lemma_bytes_of_u64s_of_bytes, lemma_u32s_of_bytes_of_u32s, u32s_of_bytes, u64s_as_bytes,
    u64s_of_bytes,
};
use crate::error::Error;
use crate::gsp::nvkv::encode::{encoded, encoded_all, encodes, fits, fitting, Encodable};
use crate::gsp::nvkv::padded;
use crate::gsp::nvkv::types::{
    law_op_of_any_word, lemma_op_word_fields, op_index, op_key, op_opcode, op_value, op_word, Index,
    KeyId, Op, Opcode, Pair, Value,
};

verus! {

/// A decoded NVKV value.
#[derive(Clone, Copy)]
pub enum DecoderValue<'a> {
    Scalar32(u32),
    Scalar64(u64),
    Array8(&'a [u8]),
    Array32(&'a [u32]),
    Array64(&'a [u64]),
}

impl<'a> View for DecoderValue<'a> {
    type V = Value;

    open spec fn view(&self) -> Value {
        match self {
            DecoderValue::Scalar32(value) => Value::Scalar32(*value),
            DecoderValue::Scalar64(value) => Value::Scalar64(*value),
            DecoderValue::Array8(array) => Value::Array8(array@),
            DecoderValue::Array32(array) => Value::Array32(array@),
            DecoderValue::Array64(array) => Value::Array64(array@),
        }
    }
}

impl<'a> TryFrom<DecoderValue<'a>> for u32 {
    type Error = Error;

    fn try_from(value: DecoderValue<'a>) -> (result: Result<u32, Error>) {
        match value {
            DecoderValue::Scalar32(value) => Ok(value),
            _ => Err(Error::EINVAL),
        }
    }
}

impl<'a> vstd::std_specs::convert::TryFromSpecImpl<DecoderValue<'a>> for u32 {
    open spec fn obeys_try_from_spec() -> bool {
        true
    }

    open spec fn try_from_spec(value: DecoderValue<'a>) -> Result<u32, Error> {
        match value {
            DecoderValue::Scalar32(value) => Ok(value),
            _ => Err(Error::EINVAL),
        }
    }
}

impl<'a> TryFrom<DecoderValue<'a>> for u64 {
    type Error = Error;

    fn try_from(value: DecoderValue<'a>) -> (result: Result<u64, Error>) {
        match value {
            DecoderValue::Scalar64(value) => Ok(value),
            _ => Err(Error::EINVAL),
        }
    }
}

impl<'a> vstd::std_specs::convert::TryFromSpecImpl<DecoderValue<'a>> for u64 {
    open spec fn obeys_try_from_spec() -> bool {
        true
    }

    open spec fn try_from_spec(value: DecoderValue<'a>) -> Result<u64, Error> {
        match value {
            DecoderValue::Scalar64(value) => Ok(value),
            _ => Err(Error::EINVAL),
        }
    }
}

impl<'a> TryFrom<DecoderValue<'a>> for &'a [u8] {
    type Error = Error;

    fn try_from(value: DecoderValue<'a>) -> (result: Result<&'a [u8], Error>) {
        match value {
            DecoderValue::Array8(array) => Ok(array),
            _ => Err(Error::EINVAL),
        }
    }
}

impl<'a> vstd::std_specs::convert::TryFromSpecImpl<DecoderValue<'a>> for &'a [u8] {
    open spec fn obeys_try_from_spec() -> bool {
        true
    }

    open spec fn try_from_spec(value: DecoderValue<'a>) -> Result<&'a [u8], Error> {
        match value {
            DecoderValue::Array8(array) => Ok(array),
            _ => Err(Error::EINVAL),
        }
    }
}

impl<'a> TryFrom<DecoderValue<'a>> for &'a [u32] {
    type Error = Error;

    fn try_from(value: DecoderValue<'a>) -> (result: Result<&'a [u32], Error>) {
        match value {
            DecoderValue::Array32(array) => Ok(array),
            _ => Err(Error::EINVAL),
        }
    }
}

impl<'a> vstd::std_specs::convert::TryFromSpecImpl<DecoderValue<'a>> for &'a [u32] {
    open spec fn obeys_try_from_spec() -> bool {
        true
    }

    open spec fn try_from_spec(value: DecoderValue<'a>) -> Result<&'a [u32], Error> {
        match value {
            DecoderValue::Array32(array) => Ok(array),
            _ => Err(Error::EINVAL),
        }
    }
}

impl<'a> TryFrom<DecoderValue<'a>> for &'a [u64] {
    type Error = Error;

    fn try_from(value: DecoderValue<'a>) -> (result: Result<&'a [u64], Error>) {
        match value {
            DecoderValue::Array64(array) => Ok(array),
            _ => Err(Error::EINVAL),
        }
    }
}

impl<'a> vstd::std_specs::convert::TryFromSpecImpl<DecoderValue<'a>> for &'a [u64] {
    open spec fn obeys_try_from_spec() -> bool {
        true
    }

    open spec fn try_from_spec(value: DecoderValue<'a>) -> Result<&'a [u64], Error> {
        match value {
            DecoderValue::Array64(array) => Ok(array),
            _ => Err(Error::EINVAL),
        }
    }
}

/// What to do with a pair that the schema does not consume. This is chosen per call.
#[derive(Debug, Clone, Copy, PartialEq, Eq, Structural)]
pub enum UnknownKeyPolicy {
    /// Skip it.
    Ignore,
    /// Fail.
    Error,
}

/// A visitor that consumes decoded NVKV and produces a `Target`.
pub trait Schema: Sized {
    /// What the schema produces.
    type Target;

    /// What the pairs visited so far have left in the schema.
    type State;

    /// The state of this schema.
    spec fn state(&self) -> Self::State;

    /// The state of a schema that has visited nothing.
    spec fn empty() -> Self::State;

    /// The state after visiting a pair, and whether the pair was consumed or is in error.
    spec fn visited(state: Self::State, pair: Pair) -> (Self::State, Result<bool, Error>);

    /// Whether `result` is what a schema in `state` produces.
    spec fn produces(state: Self::State, result: Result<Self::Target, Error>) -> bool;

    /// Visits one decoded pair. Returns `Ok(true)` if the schema consumed it.
    fn visit<'a>(&mut self, key: KeyId, index: Index, value: DecoderValue<'a>) -> (result: Result<
        bool,
        Error,
    >)
        ensures
            (final(self).state(), result) == Self::visited(
                old(self).state(),
                (Pair { key, index: index.get(), value: value@ }),
            ),
    ;

    /// Makes the decoded `Target`, or fails if the pairs do not amount to one. The schema is empty
    /// again afterwards.
    fn finish(&mut self) -> (result: Result<Self::Target, Error>)
        ensures
            Self::produces(old(self).state(), result),
            final(self).state() == Self::empty(),
    ;
}

/// What reading an op word and its data gives.
#[verifier::ext_equal]
pub struct Parsed {
    /// The pairs it holds, up to the first one that is malformed.
    pub pairs: Seq<Pair>,
    /// Whether nothing was malformed.
    pub ok: bool,
}

/// How many words of data follow an op word.
pub open spec fn data_words(opcode: Opcode, count: nat) -> nat {
    match opcode {
        Opcode::Imm32 => 0,
        Opcode::Seq32 => (count + 1) / 2,
        Opcode::Seq64 => count,
        Opcode::Array8 => (count + 7) / 8,
        Opcode::Array32 => (count + 1) / 2,
        Opcode::Array64 => count,
    }
}

/// The first `count` 32-bit integers in `words`.
pub open spec fn u32s_in(words: Seq<u64>, count: nat) -> Seq<u32> {
    u32s_of_bytes(bytes_of_u64s(words).take(4 * count as int))
}

/// Pairs of consecutive keys, starting at `key`, as far as there are keys.
pub open spec fn sequence_pairs(key: u16, index: u16, values: Seq<Value>) -> Parsed {
    let room = 0x1_0000 - key;
    let count = if values.len() <= room {
        values.len() as int
    } else {
        room
    };
    Parsed {
        pairs: Seq::new(
            count as nat,
            |i: int| Pair { key: (key + i) as u16, index, value: values[i] },
        ),
        ok: values.len() <= room,
    }
}

/// What an op word and its data hold.
pub open spec fn operation(op: u64, opcode: Opcode, data: Seq<u64>) -> Parsed {
    let key = op_key(op);
    let index = op_index(op);
    let count = op_value(op) as nat;
    match opcode {
        Opcode::Imm32 => Parsed {
            pairs: seq![Pair { key, index, value: Value::Scalar32(op_value(op)) }],
            ok: true,
        },
        Opcode::Seq32 => sequence_pairs(
            key,
            index,
            u32s_in(data, count).map_values(|value: u32| Value::Scalar32(value)),
        ),
        Opcode::Seq64 => sequence_pairs(
            key,
            index,
            data.map_values(|value: u64| Value::Scalar64(value)),
        ),
        Opcode::Array8 => Parsed {
            pairs: seq![
                Pair { key, index, value: Value::Array8(bytes_of_u64s(data).take(count as int)) },
            ],
            ok: true,
        },
        Opcode::Array32 => Parsed {
            pairs: seq![Pair { key, index, value: Value::Array32(u32s_in(data, count)) }],
            ok: true,
        },
        Opcode::Array64 => Parsed {
            pairs: seq![Pair { key, index, value: Value::Array64(data) }],
            ok: true,
        },
    }
}

/// The pairs that a stream holds, up to the first malformed one.
///
/// A stream is malformed where an opcode is unknown, where the data of an operation runs past the
/// end, and where the keys of a sequence run past the last one.
pub open spec fn parse(words: Seq<u64>) -> Parsed
    decreases words.len(),
{
    if words.len() == 0 {
        Parsed { pairs: seq![], ok: true }
    } else {
        match op_opcode(words[0]) {
            None => Parsed { pairs: seq![], ok: false },
            Some(opcode) => {
                let len = data_words(opcode, op_value(words[0]) as nat);
                if words.len() < 1 + len {
                    Parsed { pairs: seq![], ok: false }
                } else {
                    let first = operation(
                        words[0],
                        opcode,
                        words.subrange(1, 1 + len as int),
                    );
                    if !first.ok {
                        first
                    } else {
                        let rest = parse(words.skip(1 + len as int));
                        Parsed { pairs: first.pairs + rest.pairs, ok: rest.ok }
                    }
                }
            },
        }
    }
}

/// The state after a schema has visited `pairs` in order, and the error that stopped it, if any.
pub open spec fn visit_all<S: Schema>(
    state: S::State,
    pairs: Seq<Pair>,
    policy: UnknownKeyPolicy,
) -> (S::State, Option<Error>)
    decreases pairs.len(),
{
    if pairs.len() == 0 {
        (state, None)
    } else {
        let (next, result) = S::visited(state, pairs[0]);
        match result {
            Err(error) => (next, Some(error)),
            Ok(consumed) => if !consumed && policy == UnknownKeyPolicy::Error {
                (next, Some(Error::EINVAL))
            } else {
                visit_all::<S>(next, pairs.skip(1), policy)
            },
        }
    }
}

/// The state in which a decoder leaves a schema that starts in `state`, and the error that stops
/// it, if any. Pairs before a malformed one are still visited.
pub open spec fn decoded<S: Schema>(
    state: S::State,
    words: Seq<u64>,
    policy: UnknownKeyPolicy,
) -> (S::State, Option<Error>) {
    let parsed = parse(words);
    let (next, error) = visit_all::<S>(state, parsed.pairs, policy);
    if error is None && !parsed.ok {
        (next, Some(Error::EINVAL))
    } else {
        (next, error)
    }
}

/// Visiting `a` followed by `b` is visiting `a` and, if nothing stops that, `b`.
pub proof fn lemma_visit_all_append<S: Schema>(
    state: S::State,
    a: Seq<Pair>,
    b: Seq<Pair>,
    policy: UnknownKeyPolicy,
)
    ensures
        visit_all::<S>(state, a + b, policy) == {
            let (next, error) = visit_all::<S>(state, a, policy);
            if error is None {
                visit_all::<S>(next, b, policy)
            } else {
                (next, error)
            }
        },
    decreases a.len(),
{
    if a.len() == 0 {
        assert(a + b =~= b);
    } else {
        let (next, _) = S::visited(state, a[0]);
        lemma_visit_all_append::<S>(next, a.skip(1), b, policy);
        assert((a + b).skip(1) =~= a.skip(1) + b);
    }
}

/// Visiting one pair more, where nothing has stopped the visit of those before it. If that stops the
/// visit, so it does that of all pairs.
proof fn lemma_visit_next<S: Schema>(
    start: S::State,
    before: S::State,
    pairs: Seq<Pair>,
    i: int,
    policy: UnknownKeyPolicy,
)
    requires
        0 <= i < pairs.len(),
        visit_all::<S>(start, pairs.take(i), policy) == (before, None::<Error>),
    ensures
        ({
            let next = visit_all::<S>(before, seq![pairs[i]], policy);
            &&& visit_all::<S>(start, pairs.take(i + 1), policy) == next
            &&& next.1 is Some ==> visit_all::<S>(start, pairs, policy) == next
        }),
{
    let rest = pairs.skip(i + 1);
    lemma_visit_all_append::<S>(start, pairs.take(i), seq![pairs[i]], policy);
    assert(pairs.take(i + 1) =~= pairs.take(i) + seq![pairs[i]]);
    lemma_visit_all_append::<S>(start, pairs.take(i + 1), rest, policy);
    assert(pairs =~= pairs.take(i + 1) + rest);
}

/// Visiting one pair.
proof fn lemma_visit_one<S: Schema>(state: S::State, pair: Pair, policy: UnknownKeyPolicy)
    ensures
        visit_all::<S>(state, seq![pair], policy) == {
            let (next, result) = S::visited(state, pair);
            match result {
                Err(error) => (next, Some(error)),
                Ok(consumed) => if !consumed && policy == UnknownKeyPolicy::Error {
                    (next, Some(Error::EINVAL))
                } else {
                    (next, None)
                },
            }
        },
{
    let (next, _) = S::visited(state, pair);
    assert(seq![pair].skip(1) =~= seq![]);
    assert(visit_all::<S>(next, seq![pair].skip(1), policy) == (next, None::<Error>));
}

/// A read position in an NVKV stream.
pub struct Cursor<'a> {
    data: &'a [u64],
}

impl<'a> View for Cursor<'a> {
    type V = Seq<u64>;

    closed spec fn view(&self) -> Seq<u64> {
        self.data@
    }
}

impl<'a> Cursor<'a> {
    /// Returns a position at the start of `data`.
    pub fn new(data: &'a [u64]) -> (cursor: Self)
        ensures
            cursor@ == data@,
    {
        Cursor { data }
    }

    /// Returns whether nothing is left to read.
    pub fn is_empty(&self) -> (empty: bool)
        ensures
            empty == (self@.len() == 0),
    {
        self.data.len() == 0
    }

    /// Reads one word.
    pub fn take_u64(&mut self) -> (result: Result<u64, Error>)
        ensures
            match result {
                Ok(word) => old(self)@.len() > 0 && word == old(self)@[0] && final(self)@ == old(
                    self,
                )@.skip(1),
                Err(error) => old(self)@.len() == 0 && error == Error::EINVAL && final(self)@
                    == old(self)@,
            },
    {
        match self.take_u64s(1) {
            Ok(words) => Ok(words[0]),
            Err(error) => Err(error),
        }
    }

    /// Reads `count` bytes and the padding that follows them.
    pub fn take_u8s(&mut self, count: usize) -> (result: Result<Vec<u8>, Error>)
        ensures
            match result {
                Ok(bytes) => {
                    let words = data_words(Opcode::Array8, count as nat) as int;
                    &&& words <= old(self)@.len()
                    &&& bytes@ == bytes_of_u64s(old(self)@.take(words)).take(count as int)
                    &&& final(self)@ == old(self)@.skip(words)
                },
                Err(error) => old(self)@.len() < data_words(Opcode::Array8, count as nat) && error
                    == Error::EINVAL && final(self)@ == old(self)@,
            },
    {
        let whole: usize = count / 8;
        let words: usize = if count % 8 == 0 {
            whole
        } else {
            whole + 1
        };
        match self.take_u64s(words) {
            Ok(values) => {
                let mut bytes = u64s_as_bytes(values);
                bytes.truncate(count);
                assert(bytes@ =~= bytes_of_u64s(old(self)@.take(words as int)).take(count as int));
                Ok(bytes)
            },
            Err(error) => Err(error),
        }
    }

    /// Reads `count` 32-bit integers and the padding that follows them.
    pub fn take_u32s(&mut self, count: usize) -> (result: Result<Vec<u32>, Error>)
        ensures
            match result {
                Ok(values) => {
                    let words = data_words(Opcode::Array32, count as nat) as int;
                    &&& words <= old(self)@.len()
                    &&& values@ == u32s_in(old(self)@.take(words), count as nat)
                    &&& final(self)@ == old(self)@.skip(words)
                },
                Err(error) => old(self)@.len() < data_words(Opcode::Array32, count as nat) && error
                    == Error::EINVAL && final(self)@ == old(self)@,
            },
    {
        let words: usize = count / 2 + count % 2;
        match self.take_u64s(words) {
            Ok(values) => {
                let bytes = u64s_as_bytes(values);
                match bytes_as_u32s(bytes.as_slice(), count) {
                    Some(values) => Ok(values),
                    None => Err(Error::EINVAL),
                }
            },
            Err(error) => Err(error),
        }
    }

    /// Reads `count` words.
    pub fn take_u64s(&mut self, count: usize) -> (result: Result<&'a [u64], Error>)
        ensures
            match result {
                Ok(words) => count <= old(self)@.len() && words@ == old(self)@.take(count as int)
                    && final(self)@ == old(self)@.skip(count as int),
                Err(error) => old(self)@.len() < count && error == Error::EINVAL && final(self)@
                    == old(self)@,
            },
    {
        if self.data.len() < count {
            return Err(Error::EINVAL);
        }
        let (prefix, suffix) = self.data.split_at(count);
        self.data = suffix;
        assert(prefix@ =~= old(self)@.take(count as int));
        assert(suffix@ =~= old(self)@.skip(count as int));
        Ok(prefix)
    }
}

/// A decoder for an NVKV stream.
pub struct Decoder<'a> {
    pub data: &'a [u64],
    pub policy: UnknownKeyPolicy,
}

impl<'a> Decoder<'a> {
    /// Creates a decoder for `data` that handles unknown keys per `policy`.
    pub fn new(data: &'a [u64], policy: UnknownKeyPolicy) -> (decoder: Self)
        ensures
            decoder.data@ == data@,
            decoder.policy == policy,
    {
        Decoder { data, policy }
    }

    fn visit<S: Schema>(
        &self,
        schema: &mut S,
        key: KeyId,
        index: Index,
        value: DecoderValue<'_>,
    ) -> (result: Result<(), Error>)
        ensures
            ({
                let pair = Pair { key, index: index.get(), value: value@ };
                let (state, error) = visit_all::<S>(old(schema).state(), seq![pair], self.policy);
                &&& final(schema).state() == state
                &&& result == match error {
                    Some(error) => Err::<(), Error>(error),
                    None => Ok(()),
                }
            }),
    {
        proof {
            let pair = Pair { key, index: index.get(), value: value@ };
            lemma_visit_one::<S>(schema.state(), pair, self.policy);
        }
        match schema.visit(key, index, value) {
            Ok(consumed) => {
                if !consumed && self.policy == UnknownKeyPolicy::Error {
                    Err(Error::EINVAL)
                } else {
                    Ok(())
                }
            },
            Err(error) => Err(error),
        }
    }

    fn seq_key(base: KeyId, offset: usize) -> (result: Result<KeyId, Error>)
        ensures
            result == if base + offset <= u16::MAX {
                Ok::<KeyId, Error>((base + offset) as u16)
            } else {
                Err(Error::EINVAL)
            },
    {
        if offset <= u16::MAX as usize && offset <= (u16::MAX - base) as usize {
            Ok(base + offset as u16)
        } else {
            Err(Error::EINVAL)
        }
    }

    /// Visits the pairs of consecutive keys that hold 32-bit values.
    fn visit_seq32<S: Schema>(
        &self,
        schema: &mut S,
        key: KeyId,
        index: Index,
        values: &[u32],
    ) -> (result: Result<(), Error>)
        ensures
            visits_sequence::<S>(
                old(schema).state(),
                final(schema).state(),
                sequence_pairs(
                    key,
                    index.get(),
                    values@.map_values(|value: u32| Value::Scalar32(value)),
                ),
                self.policy,
                result,
            ),
    {
        let ghost all = values@.map_values(|value: u32| Value::Scalar32(value));
        let ghost parsed = sequence_pairs(key, index.get(), all);
        let ghost start = schema.state();
        let total: usize = values.len();
        let mut i: usize = 0;
        assert(parsed.pairs.take(0) =~= seq![]);
        while i < total
            invariant
                i <= total,
                total == values@.len(),
                start == old(schema).state(),
                all == values@.map_values(|value: u32| Value::Scalar32(value)),
                parsed == sequence_pairs(key, index.get(), all),
                i <= parsed.pairs.len(),
                visit_all::<S>(start, parsed.pairs.take(i as int), self.policy) == (
                    schema.state(),
                    None::<Error>,
                ),
            decreases total - i,
        {
            let current = match Self::seq_key(key, i) {
                Ok(current) => current,
                Err(error) => {
                    proof {
                        assert(parsed.pairs.take(i as int) =~= parsed.pairs);
                    }
                    return Err(error);
                },
            };
            let ghost before = schema.state();
            let result = self.visit(schema, current, index, DecoderValue::Scalar32(values[i]));
            proof {
                assert(parsed.pairs[i as int].value == Value::Scalar32(values@[i as int]));
                lemma_visit_next::<S>(start, before, parsed.pairs, i as int, self.policy);
            }
            if result.is_err() {
                return result;
            }
            i = i + 1;
        }
        assert(parsed.pairs.take(i as int) =~= parsed.pairs);
        Ok(())
    }

    /// Visits the pairs of consecutive keys that hold 64-bit values.
    fn visit_seq64<S: Schema>(
        &self,
        schema: &mut S,
        key: KeyId,
        index: Index,
        values: &[u64],
    ) -> (result: Result<(), Error>)
        ensures
            visits_sequence::<S>(
                old(schema).state(),
                final(schema).state(),
                sequence_pairs(
                    key,
                    index.get(),
                    values@.map_values(|value: u64| Value::Scalar64(value)),
                ),
                self.policy,
                result,
            ),
    {
        let ghost all = values@.map_values(|value: u64| Value::Scalar64(value));
        let ghost parsed = sequence_pairs(key, index.get(), all);
        let ghost start = schema.state();
        let total: usize = values.len();
        let mut i: usize = 0;
        assert(parsed.pairs.take(0) =~= seq![]);
        while i < total
            invariant
                i <= total,
                total == values@.len(),
                start == old(schema).state(),
                all == values@.map_values(|value: u64| Value::Scalar64(value)),
                parsed == sequence_pairs(key, index.get(), all),
                i <= parsed.pairs.len(),
                visit_all::<S>(start, parsed.pairs.take(i as int), self.policy) == (
                    schema.state(),
                    None::<Error>,
                ),
            decreases total - i,
        {
            let current = match Self::seq_key(key, i) {
                Ok(current) => current,
                Err(error) => {
                    proof {
                        assert(parsed.pairs.take(i as int) =~= parsed.pairs);
                    }
                    return Err(error);
                },
            };
            let ghost before = schema.state();
            let result = self.visit(schema, current, index, DecoderValue::Scalar64(values[i]));
            proof {
                assert(parsed.pairs[i as int].value == Value::Scalar64(values@[i as int]));
                lemma_visit_next::<S>(start, before, parsed.pairs, i as int, self.policy);
            }
            if result.is_err() {
                return result;
            }
            i = i + 1;
        }
        assert(parsed.pairs.take(i as int) =~= parsed.pairs);
        Ok(())
    }

    /// Reads the data of the op word `op` and visits the pairs of the operation.
    fn visit_operation<S: Schema>(&self, schema: &mut S, op: Op, cursor: &mut Cursor<'a>) -> (result:
        Result<(), Error>)
        ensures
            ({
                let opcode = op_opcode(op.raw);
                let len = data_words(opcode.unwrap(), op_value(op.raw) as nat) as int;
                if opcode is None || old(cursor)@.len() < len {
                    &&& result == Err::<(), Error>(Error::EINVAL)
                    &&& final(schema).state() == old(schema).state()
                } else {
                    &&& final(cursor)@ == old(cursor)@.skip(len)
                    &&& visits_sequence::<S>(
                        old(schema).state(),
                        final(schema).state(),
                        operation(op.raw, opcode.unwrap(), old(cursor)@.take(len)),
                        self.policy,
                        result,
                    )
                }
            }),
    {
        let key = op.key();
        let index = op.index();
        let op_value: u32 = op.value();
        let count: usize = op_value as usize;
        let opcode = match op.opcode() {
            Ok(opcode) => opcode,
            Err(error) => {
                return Err(error);
            },
        };
        match opcode {
            Opcode::Imm32 => {
                assert(cursor@.skip(0) =~= cursor@);
                self.visit(schema, key, index, DecoderValue::Scalar32(op_value))
            },
            Opcode::Seq32 => {
                match cursor.take_u32s(count) {
                    Ok(values) => self.visit_seq32(schema, key, index, values.as_slice()),
                    Err(error) => Err(error),
                }
            },
            Opcode::Seq64 => {
                match cursor.take_u64s(count) {
                    Ok(values) => self.visit_seq64(schema, key, index, values),
                    Err(error) => Err(error),
                }
            },
            Opcode::Array8 => {
                match cursor.take_u8s(count) {
                    Ok(array) => self.visit(
                        schema,
                        key,
                        index,
                        DecoderValue::Array8(array.as_slice()),
                    ),
                    Err(error) => Err(error),
                }
            },
            Opcode::Array32 => {
                match cursor.take_u32s(count) {
                    Ok(array) => self.visit(
                        schema,
                        key,
                        index,
                        DecoderValue::Array32(array.as_slice()),
                    ),
                    Err(error) => Err(error),
                }
            },
            Opcode::Array64 => {
                match cursor.take_u64s(count) {
                    Ok(array) => self.visit(schema, key, index, DecoderValue::Array64(array)),
                    Err(error) => Err(error),
                }
            },
        }
    }

    /// Decodes every pair into `schema` and returns the result of [`Schema::finish`].
    ///
    /// The outer result says whether the stream could be decoded, the inner one whether its pairs
    /// amount to a `Target`.
    pub fn decode<S: Schema>(&self, schema: &mut S) -> (result: Result<
        Result<S::Target, Error>,
        Error,
    >)
        ensures
            ({
                let (state, error) = decoded::<S>(old(schema).state(), self.data@, self.policy);
                match error {
                    Some(error) => final(schema).state() == state && result == Err::<
                        Result<S::Target, Error>,
                        Error,
                    >(error),
                    None => final(schema).state() == S::empty() && result is Ok && S::produces(
                        state,
                        result->Ok_0,
                    ),
                }
            }),
    {
        let mut cursor = Cursor::new(self.data);
        let ghost start = schema.state();
        let ghost mut done: Seq<Pair> = seq![];
        assert(seq![] + parse(self.data@).pairs =~= parse(self.data@).pairs);
        while !cursor.is_empty()
            invariant
                start == old(schema).state(),
                parse(self.data@).pairs == done + parse(cursor@).pairs,
                parse(self.data@).ok == parse(cursor@).ok,
                visit_all::<S>(start, done, self.policy) == (schema.state(), None::<Error>),
            decreases cursor@.len(),
        {
            let ghost words = cursor@;
            let op = match cursor.take_u64() {
                Ok(word) => Op { raw: word },
                Err(error) => {
                    return Err(error);
                },
            };
            let result = self.visit_operation(schema, op, &mut cursor);
            proof {
                let opcode = op_opcode(op.raw);
                if opcode is Some {
                    let len = data_words(opcode.unwrap(), op_value(op.raw) as nat) as int;
                    if words.len() >= 1 + len {
                        assert(words.skip(1).take(len) =~= words.subrange(1, 1 + len));
                        assert(words.skip(1).skip(len) =~= words.skip(1 + len));
                        let first = operation(op.raw, opcode.unwrap(), words.subrange(1, 1 + len));
                        lemma_visit_all_append::<S>(start, done, first.pairs, self.policy);
                        if first.ok {
                            let rest = parse(cursor@).pairs;
                            assert(done + parse(words).pairs =~= (done + first.pairs) + rest);
                            lemma_visit_all_append::<S>(
                                start,
                                done + first.pairs,
                                rest,
                                self.policy,
                            );
                            done = done + first.pairs;
                        }
                    } else {
                        assert(done + parse(words).pairs =~= done);
                    }
                } else {
                    assert(done + parse(words).pairs =~= done);
                }
            }
            match result {
                Ok(_) => {},
                Err(error) => {
                    return Err(error);
                },
            }
        }
        assert(done + parse(cursor@).pairs =~= done);
        Ok(schema.finish())
    }
}

/// Whether `result`, with the schema going from `before` to `after`, is the outcome of visiting the
/// pairs of an operation: a malformed operation fails once the pairs before that place are visited.
pub open spec fn visits_sequence<S: Schema>(
    before: S::State,
    after: S::State,
    parsed: Parsed,
    policy: UnknownKeyPolicy,
    result: Result<(), Error>,
) -> bool {
    let (state, error) = visit_all::<S>(before, parsed.pairs, policy);
    &&& after == state
    &&& result == match error {
        Some(error) => Err::<(), Error>(error),
        None => if parsed.ok {
            Ok(())
        } else {
            Err(Error::EINVAL)
        },
    }
}

/// Whether a pair can be written such that it reads back: its index is one, and its value fits.
pub open spec fn writable(pair: Pair) -> bool {
    pair.index < 4096 && fits(pair.value)
}

/// A stream that starts with a written pair holds that pair first, then what follows it.
proof fn lemma_parse_encoded(pair: Pair, tail: Seq<u64>)
    requires
        writable(pair),
    ensures
        parse(encoded(pair) + tail) == (Parsed {
            pairs: seq![pair] + parse(tail).pairs,
            ok: parse(tail).ok,
        }),
{
    let words = encoded(pair) + tail;
    let (opcode, count, data) = match pair.value {
        Value::Scalar32(value) => (Opcode::Imm32, value, Seq::<u64>::empty()),
        Value::Scalar64(value) => (Opcode::Seq64, 1u32, seq![value]),
        Value::Array8(array) => (
            Opcode::Array8,
            array.len() as u32,
            u64s_of_bytes(padded(array)),
        ),
        Value::Array32(array) => (
            Opcode::Array32,
            array.len() as u32,
            u64s_of_bytes(padded(bytes_of_u32s(array))),
        ),
        Value::Array64(array) => (Opcode::Array64, array.len() as u32, array),
    };
    let op = op_word(pair.key, pair.index, opcode, count);
    lemma_op_word_fields(pair.key, pair.index, opcode, count);
    let len = data_words(opcode, count as nat) as int;
    assert(encoded(pair) =~= seq![op] + data);
    assert(data.len() == len);
    assert(words[0] == op);
    assert(words.subrange(1, 1 + len) =~= data);
    assert(words.skip(1 + len) =~= tail);
    let first = operation(op, opcode, data);
    assert(first.ok && first.pairs =~= seq![pair]) by {
        match pair.value {
            Value::Scalar32(value) => {},
            Value::Scalar64(value) => {},
            Value::Array8(array) => {
                lemma_bytes_of_u64s_of_bytes(padded(array));
                assert(padded(array).take(array.len() as int) =~= array);
            },
            Value::Array32(array) => {
                let bytes = bytes_of_u32s(array);
                lemma_bytes_of_u64s_of_bytes(padded(bytes));
                assert(padded(bytes).take(4 * array.len() as int) =~= bytes);
                lemma_u32s_of_bytes_of_u32s(array);
            },
            Value::Array64(array) => {},
        }
    }
}

/// Reading a stream of written pairs gives back those pairs, in order.
pub proof fn law_parse_of_encoded(pairs: Seq<Pair>)
    requires
        forall|i: int| 0 <= i < pairs.len() ==> writable(#[trigger] pairs[i]),
    ensures
        parse(encoded_all(pairs)) == (Parsed { pairs, ok: true }),
    decreases pairs.len(),
{
    if pairs.len() > 0 {
        law_parse_of_encoded(pairs.skip(1));
        lemma_parse_encoded(pairs[0], encoded_all(pairs.skip(1)));
        assert(seq![pairs[0]] + pairs.skip(1) =~= pairs);
    } else {
        assert(pairs =~= seq![]);
    }
}

/// Decoding a stream of written pairs makes the schema visit those pairs, in order, and nothing
/// else.
pub proof fn law_decode_of_encoded<S: Schema>(
    state: S::State,
    pairs: Seq<Pair>,
    policy: UnknownKeyPolicy,
)
    requires
        forall|i: int| 0 <= i < pairs.len() ==> writable(#[trigger] pairs[i]),
    ensures
        decoded::<S>(state, encoded_all(pairs), policy) == visit_all::<S>(state, pairs, policy),
{
    law_parse_of_encoded(pairs);
}

/// Decoding what an encodable value has been encoded to visits the pairs of that value.
pub proof fn law_decode_of_encodable<E: Encodable, S: Schema>(
    value: E,
    stream: Seq<u64>,
    state: S::State,
    policy: UnknownKeyPolicy,
)
    requires
        encodes(seq![], stream, value.pairs(), Ok(())),
        forall|i: int| 0 <= i < value.pairs().len() ==> (#[trigger] value.pairs()[i]).index < 4096,
    ensures
        decoded::<S>(state, stream, policy) == visit_all::<S>(state, value.pairs(), policy),
{
    let pairs = value.pairs();
    lemma_fitting_all(pairs);
    assert(pairs.take(pairs.len() as int) =~= pairs);
    assert(stream =~= encoded_all(pairs));
    law_decode_of_encoded::<S>(state, pairs, policy);
}

/// Where all pairs come before the first one that does not fit, all of them fit.
proof fn lemma_fitting_all(pairs: Seq<Pair>)
    requires
        fitting(pairs) == pairs.len(),
    ensures
        forall|i: int| 0 <= i < pairs.len() ==> fits((#[trigger] pairs[i]).value),
    decreases pairs.len(),
{
    if pairs.len() > 0 {
        lemma_fitting_all(pairs.skip(1));
        assert forall|i: int| 0 <= i < pairs.len() implies fits((#[trigger] pairs[i]).value) by {
            if i > 0 {
                assert(pairs[i] == pairs.skip(1)[i - 1]);
            }
        }
    }
}

/// Where a stream is well formed, what follows it is read as it would be on its own.
pub proof fn law_parse_of_concatenation(a: Seq<u64>, b: Seq<u64>)
    requires
        parse(a).ok,
    ensures
        parse(a + b) == (Parsed { pairs: parse(a).pairs + parse(b).pairs, ok: parse(b).ok }),
    decreases a.len(),
{
    if a.len() == 0 {
        assert(a + b =~= b);
        assert(parse(a).pairs + parse(b).pairs =~= parse(b).pairs);
    } else {
        let opcode = op_opcode(a[0]).unwrap();
        let len = data_words(opcode, op_value(a[0]) as nat) as int;
        let first = operation(a[0], opcode, a.subrange(1, 1 + len));
        let rest = a.skip(1 + len);
        law_parse_of_concatenation(rest, b);
        assert((a + b).subrange(1, 1 + len) =~= a.subrange(1, 1 + len));
        assert((a + b).skip(1 + len) =~= rest + b);
        assert(first.pairs + (parse(rest).pairs + parse(b).pairs) =~= (first.pairs + parse(
            rest,
        ).pairs) + parse(b).pairs);
    }
}

/// A sequence of 64-bit numbers, whose op word has the opcode 2 and their count, holds a pair for each
/// of them. The first is of the key in the op word and each of the others of the next key, and they
/// share the index. What comes after the numbers is read on its own. Where the keys run past the
/// last one, the pairs before that are still read, and nothing after them.
pub proof fn law_parse_of_sequence64(op: u64, data: Seq<u64>, tail: Seq<u64>, i: int)
    requires
        op / 0x1000_0000 % 0x10 == 2,
        op / 0x1_0000_0000 == data.len(),
    ensures
        ({
            let parsed = parse(seq![op] + data + tail);
            let key = op % 0x1_0000;
            let pair = Pair {
                key: (key + i) as u16,
                index: (op / 0x1_0000 % 0x1000) as u16,
                value: Value::Scalar64(data[i]),
            };
            &&& 0 <= i < data.len() && key + i < 0x1_0000 ==> parsed.pairs[i] == pair
            &&& key + data.len() <= 0x1_0000 ==> parsed.pairs.len() == data.len() + parse(
                tail,
            ).pairs.len() && parsed.ok == parse(tail).ok && parsed.pairs.skip(data.len() as int)
                =~= parse(tail).pairs
            &&& key + data.len() > 0x1_0000 ==> parsed.pairs.len() == 0x1_0000 - key && !parsed.ok
        }),
{
    law_op_of_any_word(op);
    let words = seq![op] + data + tail;
    let len = data.len() as int;
    assert(words[0] == op);
    assert(words.subrange(1, 1 + len) =~= data);
    assert(words.skip(1 + len) =~= tail);
}

/// A sequence of 32-bit numbers, whose op word has the opcode 1 and their count, holds a pair for each
/// of them, as one of 64-bit numbers does. They are two to a word, the first one in the lower half.
pub proof fn law_parse_of_sequence32(op: u64, data: Seq<u64>, tail: Seq<u64>, i: int)
    requires
        op / 0x1000_0000 % 0x10 == 1,
        (op / 0x1_0000_0000 + 1) / 2 == data.len(),
    ensures
        ({
            let parsed = parse(seq![op] + data + tail);
            let key = op % 0x1_0000;
            let count = op / 0x1_0000_0000;
            let number = if i % 2 == 0 {
                data[i / 2] % 0x1_0000_0000
            } else {
                data[i / 2] / 0x1_0000_0000
            };
            let pair = Pair {
                key: (key + i) as u16,
                index: (op / 0x1_0000 % 0x1000) as u16,
                value: Value::Scalar32(number as u32),
            };
            &&& 0 <= i < count && key + i < 0x1_0000 ==> parsed.pairs[i] == pair
            &&& key + count <= 0x1_0000 ==> parsed.pairs.len() == count + parse(tail).pairs.len()
                && parsed.ok == parse(tail).ok && parsed.pairs.skip(count as int) =~= parse(
                tail,
            ).pairs
            &&& key + count > 0x1_0000 ==> parsed.pairs.len() == 0x1_0000 - key && !parsed.ok
        }),
{
    law_op_of_any_word(op);
    let words = seq![op] + data + tail;
    let len = data.len() as int;
    let count = op_value(op) as nat;
    assert(words[0] == op);
    assert(words.subrange(1, 1 + len) =~= data);
    assert(words.skip(1 + len) =~= tail);
    assert(u32s_in(data, count).len() == count);
    if 0 <= i < count {
        lemma_half_of_word(data, count, i);
    }
}

/// The numbers in some words are the halves of them, the lower one first.
proof fn lemma_half_of_word(data: Seq<u64>, count: nat, i: int)
    requires
        0 <= i < count,
        count <= 2 * data.len(),
    ensures
        u32s_in(data, count)[i] == if i % 2 == 0 {
            data[i / 2] % 0x1_0000_0000
        } else {
            data[i / 2] / 0x1_0000_0000
        },
{
    let bytes = bytes_of_u64s(data);
    let taken = bytes.take(4 * count as int);
    law_bytes_of_words(data, seq![], i / 2);
    law_words_of_bytes(taken, i);
    assert(4 * i == 8 * (i / 2) + 4 * (i % 2));
}

/// An array of bytes, of 32-bit or of 64-bit numbers has the opcode 3, 4 or 5 and its count in its op
/// word. It is one pair, and what comes after its words is read on its own.
pub proof fn law_parse_of_array(op: u64, data: Seq<u64>, tail: Seq<u64>)
    requires
        ({
            let code = op / 0x1000_0000 % 0x10;
            let count = op / 0x1_0000_0000;
            ||| code == 3 && data.len() == (count + 7) / 8
            ||| code == 4 && data.len() == (count + 1) / 2
            ||| code == 5 && data.len() == count
        }),
    ensures
        ({
            let parsed = parse(seq![op] + data + tail);
            let code = op / 0x1000_0000 % 0x10;
            let count = op / 0x1_0000_0000;
            let first = parsed.pairs[0];
            &&& parsed.pairs.len() == 1 + parse(tail).pairs.len()
            &&& parsed.pairs.skip(1) =~= parse(tail).pairs
            &&& parsed.ok == parse(tail).ok
            &&& first.key == op % 0x1_0000
            &&& first.index == op / 0x1_0000 % 0x1000
            &&& code == 3 ==> first.value is Array8
            &&& code == 4 ==> first.value is Array32
            &&& code == 5 ==> first.value == Value::Array64(data)
            &&& first.value matches Value::Array8(array) ==> array.len() == count && forall|i: int|
                0 <= i < count ==> #[trigger] array[i] == le_bytes(data[i / 8] as nat, 8)[i % 8]
            &&& first.value matches Value::Array32(array) ==> array.len() == count && forall|i: int|
                0 <= i < count ==> #[trigger] array[i] == if i % 2 == 0 {
                    data[i / 2] % 0x1_0000_0000
                } else {
                    data[i / 2] / 0x1_0000_0000
                }
        }),
{
    law_op_of_any_word(op);
    let words = seq![op] + data + tail;
    let len = data.len() as int;
    let count = op_value(op) as nat;
    assert(words[0] == op);
    assert(words.subrange(1, 1 + len) =~= data);
    assert(words.skip(1 + len) =~= tail);
    let first = parse(words).pairs[0];
    if op / 0x1000_0000 % 0x10 == 4 {
        let array = u32s_in(data, count);
        assert(array.len() == count);
        assert forall|i: int| 0 <= i < count implies #[trigger] array[i] == if i % 2 == 0 {
            data[i / 2] % 0x1_0000_0000
        } else {
            data[i / 2] / 0x1_0000_0000
        } by {
            lemma_half_of_word(data, count, i);
        }
    }
}

/// Immediate numbers are read from the upper half of their op word, whose opcode is 0.
pub proof fn law_parse_of_immediate(op: u64, tail: Seq<u64>)
    requires
        op / 0x1000_0000 % 0x10 == 0,
    ensures
        parse(seq![op] + tail) == (Parsed {
            pairs: seq![
                Pair {
                    key: (op % 0x1_0000) as u16,
                    index: (op / 0x1_0000 % 0x1000) as u16,
                    value: Value::Scalar32((op / 0x1_0000_0000) as u32),
                },
            ] + parse(tail).pairs,
            ok: parse(tail).ok,
        }),
{
    law_op_of_any_word(op);
    assert((seq![op] + tail).skip(1) =~= tail);
}

/// Nothing is read from a stream that starts with an unknown opcode or that ends before the words
/// which its first op word announces, and from an empty one nothing is missing.
pub proof fn law_parse_of_malformed(words: Seq<u64>)
    ensures
        words.len() == 0 ==> parse(words).ok && parse(words).pairs.len() == 0,
        words.len() > 0 ==> {
            let code = words[0] / 0x1000_0000 % 0x10;
            let count = words[0] / 0x1_0000_0000;
            let left = words.len() - 1;
            let cut = code > 5 || ((code == 1 || code == 4) && left < (count + 1) / 2) || ((code == 2
                || code == 5) && left < count) || (code == 3 && left < (count + 7) / 8);
            cut ==> !parse(words).ok && parse(words).pairs.len() == 0
        },
{
    if words.len() > 0 {
        law_op_of_any_word(words[0]);
    }
}

/// A schema visits pairs in order. A pair that it refuses ends the visit with its error. One that it
/// does not know is passed over, or ends the visit if unknown keys are errors.
pub proof fn law_visits<S: Schema>(
    state: S::State,
    pair: Pair,
    rest: Seq<Pair>,
    policy: UnknownKeyPolicy,
)
    ensures
        visit_all::<S>(state, Seq::empty(), policy) == (state, None::<Error>),
        match S::visited(state, pair) {
            (next, Err(error)) => visit_all::<S>(state, seq![pair] + rest, policy) == (
                next,
                Some(error),
            ),
            (next, Ok(true)) => visit_all::<S>(state, seq![pair] + rest, policy) == visit_all::<S>(
                next,
                rest,
                policy,
            ),
            (next, Ok(false)) => if policy == UnknownKeyPolicy::Error {
                visit_all::<S>(state, seq![pair] + rest, policy) == (next, Some(Error::EINVAL))
            } else {
                visit_all::<S>(state, seq![pair] + rest, policy) == visit_all::<S>(
                    next,
                    rest,
                    policy,
                )
            },
        },
{
    assert((seq![pair] + rest).skip(1) =~= rest);
}

/// Decoding fails on every malformed stream, with the error of the pairs before the malformed place
/// if they have one. On other streams it is visiting their pairs.
pub proof fn law_decoding<S: Schema>(
    state: S::State,
    words: Seq<u64>,
    policy: UnknownKeyPolicy,
)
    ensures
        ({
            let visited = visit_all::<S>(state, parse(words).pairs, policy);
            let outcome = decoded::<S>(state, words, policy);
            &&& outcome.0 == visited.0
            &&& parse(words).ok || visited.1 is Some ==> outcome.1 == visited.1
            &&& !parse(words).ok && visited.1 is None ==> outcome.1 == Some(Error::EINVAL)
        }),
{
}

/// A decoded value is taken as what it is, and as nothing else.
pub proof fn law_decoded_value_kinds<'a>(value: DecoderValue<'a>)
    ensures
        match <u32 as TryFromSpec<DecoderValue<'a>>>::try_from_spec(value) {
            Ok(number) => value@ == Value::Scalar32(number),
            Err(error) => !(value@ is Scalar32) && error == Error::EINVAL,
        },
        match <u64 as TryFromSpec<DecoderValue<'a>>>::try_from_spec(value) {
            Ok(number) => value@ == Value::Scalar64(number),
            Err(error) => !(value@ is Scalar64) && error == Error::EINVAL,
        },
        match <&'a [u8] as TryFromSpec<DecoderValue<'a>>>::try_from_spec(value) {
            Ok(array) => value@ == Value::Array8(array@),
            Err(error) => !(value@ is Array8) && error == Error::EINVAL,
        },
        match <&'a [u32] as TryFromSpec<DecoderValue<'a>>>::try_from_spec(value) {
            Ok(array) => value@ == Value::Array32(array@),
            Err(error) => !(value@ is Array32) && error == Error::EINVAL,
        },
        match <&'a [u64] as TryFromSpec<DecoderValue<'a>>>::try_from_spec(value) {
            Ok(array) => value@ == Value::Array64(array@),
            Err(error) => !(value@ is Array64) && error == Error::EINVAL,
        },
{
}

/// Visiting the pairs of an operation hands each of them to the schema. The first error of the schema
/// is the outcome, and only where there is none does it matter whether the operation was malformed.
pub proof fn law_visits_of_sequence<S: Schema>(
    before: S::State,
    after: S::State,
    parsed: Parsed,
    policy: UnknownKeyPolicy,
    result: Result<(), Error>,
)
    requires
        visits_sequence::<S>(before, after, parsed, policy, result),
    ensures
        after == visit_all::<S>(before, parsed.pairs, policy).0,
        result is Ok <==> visit_all::<S>(before, parsed.pairs, policy).1 is None && parsed.ok,
        visit_all::<S>(before, parsed.pairs, policy).1 matches Some(error) ==> result == Err::<
            (),
            Error,
        >(error),
        visit_all::<S>(before, parsed.pairs, policy).1 is None && !parsed.ok ==> result == Err::<
            (),
            Error,
        >(Error::EINVAL),
{
}

} // verus!
