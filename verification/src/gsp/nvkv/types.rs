//! The building blocks of NVKV: keys, indexes, op words and values.

use vstd::prelude::*;

use crate::bits::{
    field64, get_field64, lemma_field64_apart, lemma_field64_of_with_field64, lemma_mask64_keeps,
    lemma_mask64_values, set_field64, with_field64,
};
use crate::error::Error;

verus! {

/// The identifier of an NVKV key.
pub type KeyId = u16;

/// The index of an NVKV value, a 12-bit integer.
#[derive(Clone, Copy, Debug, PartialEq, Eq, Structural)]
pub struct Index {
    value: u16,
}

impl Index {
    /// The index as a number.
    pub closed spec fn spec_get(self) -> u16 {
        self.value
    }

    /// Whether the number fits in 12 bits.
    #[verifier::type_invariant]
    pub open spec fn wf(self) -> bool {
        self.spec_get() < 4096
    }

    /// Returns the index `VALUE`.
    pub fn new<const VALUE: u16>() -> (index: Index)
        requires
            VALUE < 4096,
        ensures
            index.spec_get() == VALUE,
    {
        Index { value: VALUE }
    }

    /// Returns the index `value`, or `None` if it takes more than 12 bits.
    pub fn try_new(value: u16) -> (index: Option<Index>)
        ensures
            index is Some <==> value < 4096,
            index matches Some(index) ==> index.spec_get() == value,
    {
        if value < 4096 {
            Some(Index { value })
        } else {
            None
        }
    }

    /// Returns the index as a number.
    #[verifier::when_used_as_spec(spec_get)]
    pub fn get(self) -> (value: u16)
        ensures
            value == self.get(),
            value < 4096,
    {
        proof {
            use_type_invariant(&self);
        }
        self.value
    }
}

/// Describes the format of the following NVKV operation.
#[derive(Clone, Copy, Debug, PartialEq, Eq, Structural)]
pub enum Opcode {
    /// A 32-bit value in the op word.
    Imm32,
    /// 32-bit values for consecutive keys, starting at the op word's key.
    Seq32,
    /// 64-bit values for consecutive keys, starting at the op word's key.
    Seq64,
    /// An array of bytes.
    Array8,
    /// An array of 32-bit elements.
    Array32,
    /// An array of 64-bit elements.
    Array64,
}

impl Opcode {
    /// The number an op word holds for this opcode.
    pub open spec fn code(self) -> u64 {
        match self {
            Opcode::Imm32 => 0,
            Opcode::Seq32 => 1,
            Opcode::Seq64 => 2,
            Opcode::Array8 => 3,
            Opcode::Array32 => 4,
            Opcode::Array64 => 5,
        }
    }

    /// The opcode that `code` stands for.
    pub open spec fn of_code(code: u64) -> Option<Opcode> {
        if code == 0 {
            Some(Opcode::Imm32)
        } else if code == 1 {
            Some(Opcode::Seq32)
        } else if code == 2 {
            Some(Opcode::Seq64)
        } else if code == 3 {
            Some(Opcode::Array8)
        } else if code == 4 {
            Some(Opcode::Array32)
        } else if code == 5 {
            Some(Opcode::Array64)
        } else {
            None
        }
    }

    /// Returns the opcode that `value` stands for.
    pub fn try_from(value: u64) -> (opcode: Result<Opcode, Error>)
        ensures
            opcode == match Opcode::of_code(value) {
                Some(opcode) => Ok::<Opcode, Error>(opcode),
                None => Err(Error::EINVAL),
            },
    {
        match value {
            0 => Ok(Opcode::Imm32),
            1 => Ok(Opcode::Seq32),
            2 => Ok(Opcode::Seq64),
            3 => Ok(Opcode::Array8),
            4 => Ok(Opcode::Array32),
            5 => Ok(Opcode::Array64),
            _ => Err(Error::EINVAL),
        }
    }

    /// Returns the number an op word holds for this opcode.
    pub fn into_bits(self) -> (code: u64)
        ensures
            code == self.code(),
    {
        match self {
            Opcode::Imm32 => 0,
            Opcode::Seq32 => 1,
            Opcode::Seq64 => 2,
            Opcode::Array8 => 3,
            Opcode::Array32 => 4,
            Opcode::Array64 => 5,
        }
    }
}

/// The op word that starts each NVKV operation: the key in bits 15:0, the index in bits 27:16, the
/// opcode in bits 31:28 and the value in bits 63:32.
#[derive(Clone, Copy, Debug, PartialEq, Eq, Structural)]
pub struct Op {
    pub raw: u64,
}

impl Op {
    /// Returns the op word with every field zero.
    pub fn zeroed() -> (op: Op)
        ensures
            op.raw == 0,
    {
        Op { raw: 0 }
    }

    /// Returns this op word with the given key.
    pub fn with_key(self, key: KeyId) -> (op: Op)
        ensures
            op.raw == with_field64(self.raw, 0, 16, key as u64),
    {
        Op { raw: set_field64(self.raw, 0, 16, key as u64) }
    }

    /// Returns this op word with the given index.
    pub fn with_index(self, index: Index) -> (op: Op)
        ensures
            op.raw == with_field64(self.raw, 16, 12, index.get() as u64),
    {
        Op { raw: set_field64(self.raw, 16, 12, index.get() as u64) }
    }

    /// Returns this op word with the given opcode.
    pub fn with_opcode(self, opcode: Opcode) -> (op: Op)
        ensures
            op.raw == with_field64(self.raw, 28, 4, opcode.code()),
    {
        Op { raw: set_field64(self.raw, 28, 4, opcode.into_bits()) }
    }

    /// Returns this op word with the given value.
    pub fn with_value(self, value: u32) -> (op: Op)
        ensures
            op.raw == with_field64(self.raw, 32, 32, value as u64),
    {
        Op { raw: set_field64(self.raw, 32, 32, value as u64) }
    }

    /// Returns the op word as a number.
    pub fn into_raw(self) -> (raw: u64)
        ensures
            raw == self.raw,
    {
        self.raw
    }

    /// Returns the key.
    pub fn key(self) -> (key: KeyId)
        ensures
            key == op_key(self.raw),
    {
        proof {
            lemma_mask64_values();
        }
        get_field64(self.raw, 0, 16) as u16
    }

    /// Returns the index.
    pub fn index(self) -> (index: Index)
        ensures
            index.get() == op_index(self.raw),
    {
        proof {
            lemma_mask64_values();
        }
        Index { value: get_field64(self.raw, 16, 12) as u16 }
    }

    /// Returns the opcode.
    pub fn opcode(self) -> (opcode: Result<Opcode, Error>)
        ensures
            opcode == match op_opcode(self.raw) {
                Some(opcode) => Ok::<Opcode, Error>(opcode),
                None => Err(Error::EINVAL),
            },
    {
        Opcode::try_from(get_field64(self.raw, 28, 4))
    }

    /// Returns the value.
    pub fn value(self) -> (value: u32)
        ensures
            value == op_value(self.raw),
    {
        proof {
            lemma_mask64_values();
        }
        get_field64(self.raw, 32, 32) as u32
    }
}

/// The key of an op word.
pub open spec fn op_key(word: u64) -> u16 {
    field64(word, 0, 16) as u16
}

/// The index of an op word.
pub open spec fn op_index(word: u64) -> u16 {
    field64(word, 16, 12) as u16
}

/// The opcode of an op word, if its number stands for one.
pub open spec fn op_opcode(word: u64) -> Option<Opcode> {
    Opcode::of_code(field64(word, 28, 4))
}

/// The value of an op word.
pub open spec fn op_value(word: u64) -> u32 {
    field64(word, 32, 32) as u32
}

/// The op word with the given fields.
pub open spec fn op_word(key: u16, index: u16, opcode: Opcode, value: u32) -> u64 {
    with_field64(
        with_field64(
            with_field64(with_field64(0, 0, 16, key as u64), 16, 12, index as u64),
            28,
            4,
            opcode.code(),
        ),
        32,
        32,
        value as u64,
    )
}

/// An op word gives back the fields it was made of.
pub proof fn lemma_op_word_fields(key: u16, index: u16, opcode: Opcode, value: u32)
    requires
        index < 4096,
    ensures
        op_key(op_word(key, index, opcode, value)) == key,
        op_index(op_word(key, index, opcode, value)) == index,
        op_opcode(op_word(key, index, opcode, value)) == Some(opcode),
        op_value(op_word(key, index, opcode, value)) == value,
{
    lemma_mask64_values();
    let w1 = with_field64(0, 0, 16, key as u64);
    let w2 = with_field64(w1, 16, 12, index as u64);
    let w3 = with_field64(w2, 28, 4, opcode.code());
    lemma_field64_of_with_field64(0, 0, 16, key as u64);
    lemma_field64_apart(w1, 16, 12, index as u64, 0, 16);
    lemma_field64_apart(w2, 28, 4, opcode.code(), 0, 16);
    lemma_field64_apart(w3, 32, 32, value as u64, 0, 16);
    lemma_field64_of_with_field64(w1, 16, 12, index as u64);
    lemma_field64_apart(w2, 28, 4, opcode.code(), 16, 12);
    lemma_field64_apart(w3, 32, 32, value as u64, 16, 12);
    lemma_field64_of_with_field64(w2, 28, 4, opcode.code());
    lemma_field64_apart(w3, 32, 32, value as u64, 28, 4);
    lemma_field64_of_with_field64(w3, 32, 32, value as u64);
    lemma_mask64_keeps(key as u64, 16);
    lemma_mask64_keeps(index as u64, 12);
    lemma_mask64_keeps(opcode.code(), 4);
    lemma_mask64_keeps(value as u64, 32);
}

/// An NVKV value.
#[verifier::ext_equal]
pub enum Value {
    Scalar32(u32),
    Scalar64(u64),
    Array8(Seq<u8>),
    Array32(Seq<u32>),
    Array64(Seq<u64>),
}

/// One call `f(key, index, value)`.
#[verifier::ext_equal]
pub struct Pair {
    pub key: u16,
    pub index: u16,
    pub value: Value,
}

/// A value that encodes under the NVKV key `KEY_ID`.
#[derive(Debug)]
pub struct Key<T, const KEY_ID: u16>(pub T);

impl<T, const KEY_ID: u16> From<T> for Key<T, KEY_ID> {
    fn from(value: T) -> (key: Key<T, KEY_ID>) {
        Key(value)
    }
}

impl<T, const KEY_ID: u16> vstd::std_specs::convert::FromSpecImpl<T> for Key<T, KEY_ID> {
    open spec fn obeys_from_spec() -> bool {
        true
    }

    open spec fn from_spec(value: T) -> Key<T, KEY_ID> {
        Key(value)
    }
}

impl<T, const KEY_ID: u16> core::ops::Deref for Key<T, KEY_ID> {
    type Target = T;

    fn deref(&self) -> (value: &T)
        ensures
            *value == self.0,
    {
        &self.0
    }
}

/// A list of at most `N` elements.
#[derive(Debug)]
pub struct ArrayVec<T, const N: usize> {
    data: Vec<T>,
}

impl<T, const N: usize> View for ArrayVec<T, N> {
    type V = Seq<T>;

    closed spec fn view(&self) -> Seq<T> {
        self.data@
    }
}

impl<T, const N: usize> ArrayVec<T, N> {
    /// Whether the list holds at most `N` elements.
    #[verifier::type_invariant]
    spec fn inv(self) -> bool {
        self.data@.len() <= N
    }
}

impl<T: Copy, const N: usize> ArrayVec<T, N> {
    /// Returns the empty list.
    pub fn empty() -> (list: Self)
        ensures
            list@ == Seq::<T>::empty(),
    {
        ArrayVec { data: Vec::new() }
    }

    /// Replaces the elements by those of `slice`. Fails, and changes nothing, if there are more
    /// than `N` of them.
    pub fn set_from_slice(&mut self, slice: &[T]) -> (result: Result<(), Error>)
        ensures
            match result {
                Ok(_) => slice@.len() <= N && final(self)@ == slice@,
                Err(error) => slice@.len() > N && error == Error::EINVAL && final(self)@ == old(
                    self,
                )@,
            },
    {
        if slice.len() > N {
            return Err(Error::EINVAL);
        }
        let total: usize = slice.len();
        let mut data: Vec<T> = Vec::new();
        let mut i: usize = 0;
        while i < total
            invariant
                i <= total,
                total == slice@.len(),
                data@ == slice@.subrange(0, i as int),
            decreases total - i,
        {
            data.push(slice[i]);
            i = i + 1;
            assert(data@ =~= slice@.subrange(0, i as int));
        }
        assert(data@ =~= slice@);
        self.data = data;
        Ok(())
    }

    /// Returns the elements.
    pub fn as_slice(&self) -> (slice: &[T])
        ensures
            slice@ == self@,
            slice@.len() <= N,
    {
        proof {
            use_type_invariant(self);
        }
        self.data.as_slice()
    }
}

impl<T: Copy, const N: usize> Default for ArrayVec<T, N> {
    /// Returns the empty list.
    fn default() -> (list: Self)
        ensures
            list@ == Seq::<T>::empty(),
    {
        Self::empty()
    }
}

impl<T: Copy, const N: usize> core::ops::Deref for ArrayVec<T, N> {
    type Target = [T];

    fn deref(&self) -> (slice: &[T])
        ensures
            slice@ == self@,
    {
        self.as_slice()
    }
}

/// A list of at most `N` elements stored under the NVKV key `KEY_ID`.
#[derive(Debug)]
pub struct Array<T, const N: usize, const KEY_ID: u16>(pub ArrayVec<T, N>);

impl<T: Copy, const N: usize, const KEY_ID: u16> Array<T, N, KEY_ID> {
    /// Returns the list of `values`, or an error if there are more than `N` of them.
    pub fn new(values: &[T]) -> (array: Result<Self, Error>)
        ensures
            match array {
                Ok(array) => values@.len() <= N && array.0@ == values@,
                Err(error) => values@.len() > N && error == Error::EINVAL,
            },
    {
        let mut data = ArrayVec::empty();
        match data.set_from_slice(values) {
            Ok(_) => Ok(Array(data)),
            Err(error) => Err(error),
        }
    }
}

/// The number of a word with the fields of an op word.
proof fn lemma_op_number(key: u16, index: u16, code: u64, value: u32)
    by (bit_vector)
    requires
        index < 4096,
        code < 16,
    ensures
        with_field64(
            with_field64(
                with_field64(with_field64(0, 0, 16, key as u64), 16, 12, index as u64),
                28,
                4,
                code,
            ),
            32,
            32,
            value as u64,
        ) == key + index * 0x1_0000 + code * 0x1000_0000 + value * 0x1_0000_0000,
{
}

/// The fields of an op word are digits of its number.
proof fn lemma_op_digits(word: u64)
    by (bit_vector)
    ensures
        field64(word, 0, 16) == word % 0x1_0000,
        field64(word, 16, 12) == word / 0x1_0000 % 0x1000,
        field64(word, 28, 4) == word / 0x1000_0000 % 0x10,
        field64(word, 32, 32) == word / 0x1_0000_0000,
{
}

/// An op word is the number with its key in the lowest 16 bits, its index from bit 16 on, its opcode
/// from bit 28 on and its value from bit 32 on.
pub proof fn law_op_word_number(key: u16, index: u16, opcode: Opcode, value: u32)
    requires
        index < 4096,
    ensures
        op_word(key, index, opcode, value) == key + index * 0x1_0000 + (match opcode {
            Opcode::Imm32 => 0u64,
            Opcode::Seq32 => 1,
            Opcode::Seq64 => 2,
            Opcode::Array8 => 3,
            Opcode::Array32 => 4,
            Opcode::Array64 => 5,
        }) * 0x1000_0000 + value * 0x1_0000_0000,
{
    lemma_op_number(key, index, opcode.code(), value);
}

/// What every word says as an op word.
pub proof fn law_op_of_any_word(word: u64)
    ensures
        op_key(word) == word % 0x1_0000,
        op_index(word) == word / 0x1_0000 % 0x1000,
        op_value(word) == word / 0x1_0000_0000,
        ({
            let code = word / 0x1000_0000 % 0x10;
            op_opcode(word) == if code == 0 {
                Some(Opcode::Imm32)
            } else if code == 1 {
                Some(Opcode::Seq32)
            } else if code == 2 {
                Some(Opcode::Seq64)
            } else if code == 3 {
                Some(Opcode::Array8)
            } else if code == 4 {
                Some(Opcode::Array32)
            } else if code == 5 {
                Some(Opcode::Array64)
            } else {
                None
            }
        }),
{
    lemma_op_digits(word);
}

} // verus!
