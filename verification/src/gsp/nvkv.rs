//! Codec for NVKV, the binary key-value format of GMCAPI.
//!
//! The format encodes a sequence of calls to some function `f(key, index, value)`, where the value
//! is a `[u8]`, `u32`, `u64`, `[u32]` or `[u64]`. The key is a `u16` and the index is a 12-bit
//! integer. What the calls mean is up to each GMCAPI command.

pub mod decode;
pub mod encode;
pub mod types;

pub use decode::{Decoder, DecoderValue, Schema, UnknownKeyPolicy};
pub use encode::{Encodable, Encoder, IndexedKey, WireValue};
pub use types::{Array, ArrayVec, Index, Key, KeyId, Op, Opcode, Pair, Value};

use vstd::prelude::*;

use crate::bytes::{
    bytes_as_u64s, bytes_of_u64s, lemma_bytes_of_u64s_of_bytes, lemma_le_bytes_len,
    lemma_le_value_of_le_bytes, lemma_pow256_values, le_bytes, push_le, u64s_of_bytes, zeros,
};

verus! {

/// `bytes`, zero-padded to a whole number of 64-bit words.
pub open spec fn padded(bytes: Seq<u8>) -> Seq<u8> {
    bytes + zeros(((8 - bytes.len() % 8) % 8) as nat)
}

/// An encoded NVKV byte stream.
///
/// The byte length is always a multiple of eight, and the stream stands for the words it holds.
pub struct EncodedStream {
    bytes: Vec<u8>,
}

impl View for EncodedStream {
    type V = Seq<u64>;

    closed spec fn view(&self) -> Seq<u64> {
        u64s_of_bytes(self.bytes@)
    }
}

/// Appending a whole number of words to a whole number of words appends their words.
proof fn lemma_u64s_of_bytes_append(a: Seq<u8>, b: Seq<u8>)
    requires
        a.len() % 8 == 0,
    ensures
        u64s_of_bytes(a + b) == u64s_of_bytes(a) + u64s_of_bytes(b),
{
    let whole = u64s_of_bytes(a + b);
    let parts = u64s_of_bytes(a) + u64s_of_bytes(b);
    let n = a.len() as int / 8;
    assert forall|i: int| 0 <= i < whole.len() implies whole[i] == parts[i] by {
        if i < n {
            assert((a + b).subrange(8 * i, 8 * i + 8) =~= a.subrange(8 * i, 8 * i + 8));
        } else {
            let k = i - n;
            assert((a + b).subrange(8 * i, 8 * i + 8) =~= b.subrange(8 * k, 8 * k + 8));
        }
    }
    assert(whole =~= parts);
}

impl EncodedStream {
    /// Whether the byte length is a multiple of eight.
    #[verifier::type_invariant]
    spec fn inv(self) -> bool {
        self.bytes@.len() % 8 == 0
    }

    /// Creates an empty stream.
    pub fn new() -> (stream: EncodedStream)
        ensures
            stream@ == Seq::<u64>::empty(),
    {
        let stream = EncodedStream { bytes: Vec::new() };
        assert(stream@ =~= Seq::<u64>::empty());
        stream
    }

    /// Appends a single word to the stream.
    pub fn push_u64(&mut self, value: u64)
        ensures
            final(self)@ == old(self)@.push(value),
    {
        proof {
            use_type_invariant(&*self);
            lemma_pow256_values();
            lemma_le_value_of_le_bytes(value as nat, 8);
            lemma_le_bytes_len(value as nat, 8);
        }
        let ghost before = self.bytes@;
        let mut bytes: Vec<u8> = Vec::new();
        std::mem::swap(&mut bytes, &mut self.bytes);
        push_le(&mut bytes, value, 8);
        proof {
            let b = le_bytes(value as nat, 8);
            lemma_u64s_of_bytes_append(before, b);
            assert(b.subrange(0, 8) =~= b);
            assert(u64s_of_bytes(b) =~= seq![value]);
            assert(u64s_of_bytes(before) + seq![value] =~= u64s_of_bytes(before).push(value));
        }
        self.bytes = bytes;
    }

    /// Appends `data` to the stream, zero-padded to a word boundary.
    pub fn extend_with_padding(&mut self, data: &[u8])
        ensures
            final(self)@ == old(self)@ + u64s_of_bytes(padded(data@)),
    {
        proof {
            use_type_invariant(&*self);
        }
        let ghost before = self.bytes@;
        let padding: usize = (8 - data.len() % 8) % 8;
        let mut bytes: Vec<u8> = Vec::new();
        std::mem::swap(&mut bytes, &mut self.bytes);
        bytes.extend_from_slice(data);
        let ghost with_data = bytes@;
        assert(with_data =~= before + data@);
        let mut done: usize = 0;
        while done < padding
            invariant
                done <= padding,
                bytes@ == with_data + zeros(done as nat),
            decreases padding - done,
        {
            bytes.push(0);
            done = done + 1;
            assert(bytes@ =~= with_data + zeros(done as nat));
        }
        proof {
            assert(bytes@ =~= before + padded(data@));
            lemma_u64s_of_bytes_append(before, padded(data@));
        }
        self.bytes = bytes;
    }

    /// Returns the number of words in the stream.
    pub fn len(&self) -> (len: usize)
        ensures
            len == self@.len(),
    {
        self.bytes.len() / 8
    }

    /// Returns the words of the stream.
    pub fn as_words(&self) -> (words: Vec<u64>)
        ensures
            words@ == self@,
    {
        proof {
            use_type_invariant(self);
        }
        match bytes_as_u64s(self.bytes.as_slice()) {
            Some(words) => words,
            None => Vec::new(),
        }
    }

    /// Returns the stream as it goes over the wire, each word low byte first.
    pub fn into_bytes(self) -> (bytes: Vec<u8>)
        ensures
            bytes@ == bytes_of_u64s(self@),
    {
        proof {
            use_type_invariant(&self);
            lemma_bytes_of_u64s_of_bytes(self.bytes@);
        }
        self.bytes
    }
}

/// Padding appends zeros, fewer than eight of them, up to a multiple of eight.
pub proof fn law_padding(bytes: Seq<u8>)
    ensures
        padded(bytes).len() % 8 == 0,
        bytes.len() <= padded(bytes).len() < bytes.len() + 8,
        padded(bytes).take(bytes.len() as int) =~= bytes,
        forall|i: int| bytes.len() <= i < padded(bytes).len() ==> padded(bytes)[i] == 0,
{
}

} // verus!
