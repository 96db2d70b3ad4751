//! FSP (Firmware System Processor) falcon engine for Hopper/Blackwell GPUs.
//!
//! The FSP falcon handles secure boot and Chain of Trust operations on Hopper and Blackwell
//! architectures, replacing SEC2's role.

use vstd::prelude::*;

use crate::bytes::{
    le_bytes, le_value, lemma_le_bytes_of_le_value, lemma_pow256_values, pow256, push_le, read_le,
};
use crate::error::Error;

verus! {

/// Maximum addressable EMEM size, derived from the 24-bit offset field.
pub const EMEM_MAX_SIZE: usize = 0x100_0000;

/// A 32-bit word and the byte offset in external memory that it is written to.
#[derive(Clone, Copy, Debug, PartialEq, Eq, Structural)]
pub struct EmemWrite {
    pub offset: usize,
    pub word: u32,
}

/// The writes that store the first `count` words of `data` at `offset`, low byte first.
pub open spec fn emem_writes(offset: int, data: Seq<u8>, count: nat) -> Seq<EmemWrite> {
    Seq::new(
        count,
        |i: int|
            EmemWrite {
                offset: (offset + 4 * i) as usize,
                word: le_value(data.subrange(4 * i, 4 * i + 4)) as u32,
            },
    )
}

/// How many words from `offset` on lie in external memory, of `count`.
pub open spec fn words_inside(offset: int, count: int) -> int {
    if offset + 4 * count <= EMEM_MAX_SIZE {
        count
    } else if offset >= EMEM_MAX_SIZE {
        0
    } else {
        (EMEM_MAX_SIZE - offset) / 4
    }
}

/// Returns the writes that store `data` in FSP external memory at byte `offset`, and how storing
/// ends once they are made.
///
/// Data is interpreted as little-endian 32-bit words. It ends in `EINVAL`, with nothing written, if
/// offset or data length is not 4-byte aligned, and in `EINVAL` at the first word that lies outside.
pub fn write_emem(offset: u32, data: &[u8]) -> (result: (Vec<EmemWrite>, Result<(), Error>))
    ensures
        ({
            let (writes, end) = result;
            let count = data@.len() as int / 4;
            let inside = words_inside(offset as int, count);
            if offset % 4 != 0 || data@.len() % 4 != 0 {
                writes@ == Seq::<EmemWrite>::empty() && end == Err::<(), Error>(Error::EINVAL)
            } else {
                &&& writes@ == emem_writes(offset as int, data@, inside as nat)
                &&& end == if inside == count {
                    Ok::<(), Error>(())
                } else {
                    Err(Error::EINVAL)
                }
            }
        }),
{
    let mut writes: Vec<EmemWrite> = Vec::new();
    if offset % 4 != 0 || data.len() % 4 != 0 {
        return (writes, Err(Error::EINVAL));
    }
    let count: usize = data.len() / 4;
    let mut i: usize = 0;
    proof {
        lemma_pow256_values();
    }
    assert(writes@ =~= emem_writes(offset as int, data@, 0));
    while i < count
        invariant
            i <= count,
            offset % 4 == 0,
            count == data@.len() / 4,
            data@.len() % 4 == 0,
            writes@ == emem_writes(offset as int, data@, i as nat),
            i == 0 || offset + 4 * i <= EMEM_MAX_SIZE,
            pow256(4) == 0x1_0000_0000,
        decreases count - i,
    {
        if offset as u64 + 4 * (i as u64) + 4 > EMEM_MAX_SIZE as u64 {
            assert(words_inside(offset as int, count as int) == i);
            return (writes, Err(Error::EINVAL));
        }
        let word: u64 = read_le(data, 4 * i, 4);
        writes.push(EmemWrite { offset: offset as usize + 4 * i, word: word as u32 });
        i = i + 1;
        assert(writes@ =~= emem_writes(offset as int, data@, i as nat));
    }
    (writes, Ok(()))
}

/// Returns the offsets of the words to read for `len` bytes of FSP external memory at byte `offset`,
/// and how reading ends once they are read.
///
/// It ends in `EINVAL`, with nothing read, if offset or length is not 4-byte aligned, and in
/// `EINVAL` at the first word that lies outside.
pub fn read_emem(offset: u32, len: usize) -> (result: (Vec<usize>, Result<(), Error>))
    ensures
        ({
            let (offsets, end) = result;
            let count = len as int / 4;
            let inside = words_inside(offset as int, count);
            if offset % 4 != 0 || len % 4 != 0 {
                offsets@ == Seq::<usize>::empty() && end == Err::<(), Error>(Error::EINVAL)
            } else {
                &&& offsets@ == Seq::new(inside as nat, |i: int| (offset + 4 * i) as usize)
                &&& end == if inside == count {
                    Ok::<(), Error>(())
                } else {
                    Err(Error::EINVAL)
                }
            }
        }),
{
    let mut offsets: Vec<usize> = Vec::new();
    if offset % 4 != 0 || len % 4 != 0 {
        return (offsets, Err(Error::EINVAL));
    }
    let count: usize = len / 4;
    let mut i: usize = 0;
    while i < count
        invariant
            i <= count,
            offset % 4 == 0,
            count == len / 4,
            len % 4 == 0,
            offsets@ == Seq::new(i as nat, |i: int| (offset + 4 * i) as usize),
            i == 0 || offset + 4 * i <= EMEM_MAX_SIZE,
        decreases count - i,
    {
        if offset as u64 + 4 * (i as u64) + 4 > EMEM_MAX_SIZE as u64 {
            assert(words_inside(offset as int, count as int) == i);
            return (offsets, Err(Error::EINVAL));
        }
        offsets.push(offset as usize + 4 * i);
        i = i + 1;
        assert(offsets@ =~= Seq::new(i as nat, |i: int| (offset + 4 * i) as usize));
    }
    (offsets, Ok(()))
}

/// The bytes of the words, each low byte first.
pub open spec fn word_bytes(words: Seq<u32>) -> Seq<u8>
    decreases words.len(),
{
    if words.len() == 0 {
        seq![]
    } else {
        word_bytes(words.drop_last()) + le_bytes(words.last() as nat, 4)
    }
}

/// Returns the bytes of the words that were read.
pub fn emem_bytes(words: &[u32]) -> (bytes: Vec<u8>)
    ensures
        bytes@ == word_bytes(words@),
{
    let total: usize = words.len();
    let mut bytes: Vec<u8> = Vec::new();
    let mut i: usize = 0;
    proof {
        lemma_pow256_values();
        assert(words@.take(0) =~= seq![]);
    }
    while i < total
        invariant
            i <= total,
            total == words@.len(),
            bytes@ == word_bytes(words@.take(i as int)),
        decreases total - i,
    {
        proof {
            let next = words@.take(i + 1);
            assert(next.drop_last() =~= words@.take(i as int));
        }
        push_le(&mut bytes, words[i] as u64, 4);
        i = i + 1;
    }
    assert(words@.take(i as int) =~= words@);
    bytes
}

/// The words of the first `count` groups of four bytes.
pub open spec fn words_of(data: Seq<u8>, count: nat) -> Seq<u32> {
    Seq::new(count, |i: int| le_value(data.subrange(4 * i, 4 * i + 4)) as u32)
}

/// What is read back from words that were written is the data.
pub proof fn law_emem_reads_back(data: Seq<u8>)
    requires
        data.len() % 4 == 0,
    ensures
        word_bytes(words_of(data, data.len() / 4)) == data,
    decreases data.len(),
{
    let count = data.len() / 4;
    if count > 0 {
        let head = data.take(data.len() - 4);
        let tail = data.subrange(data.len() - 4, data.len() as int);
        law_emem_reads_back(head);
        let words = words_of(data, count);
        assert(words.drop_last() =~= words_of(head, head.len() / 4)) by {
            assert forall|i: int| 0 <= i < count - 1 implies words.drop_last()[i] == words_of(
                head,
                head.len() / 4,
            )[i] by {
                assert(data.subrange(4 * i, 4 * i + 4) =~= head.subrange(4 * i, 4 * i + 4));
            }
        }
        assert(data.subrange(4 * (count - 1), 4 * (count - 1) + 4) =~= tail);
        lemma_pow256_values();
        lemma_le_bytes_of_le_value(tail);
        assert(head + tail =~= data);
    } else {
        assert(data =~= seq![]);
    }
}

/// Word `i` of some data is written `4 * i` above the start, as the number of its four bytes, lowest
/// first.
pub proof fn law_emem_writes(offset: u32, data: Seq<u8>, count: nat, i: int)
    requires
        offset + 4 * count <= 0x100_0000,
        4 * count <= data.len(),
        0 <= i < count,
    ensures
        emem_writes(offset as int, data, count).len() == count,
        emem_writes(offset as int, data, count)[i].offset == offset + 4 * i,
        emem_writes(offset as int, data, count)[i].word == data[4 * i] + 0x100 * data[4 * i + 1]
            + 0x1_0000 * data[4 * i + 2] + 0x100_0000 * data[4 * i + 3],
{
    crate::bytes::law_number_of_bytes(data.subrange(4 * i, 4 * i + 4));
}

/// A word lies in external memory where its four bytes end at the 16 MiB or below. As many of the
/// words from an offset on count as inside as there are before the first one that does not.
pub proof fn law_words_inside(offset: int, count: int, i: int)
    requires
        offset >= 0,
        offset % 4 == 0,
        0 <= i < count,
    ensures
        0 <= words_inside(offset, count) <= count,
        i < words_inside(offset, count) <==> offset + 4 * i + 4 <= 0x100_0000,
{
}

/// The bytes of words are four for each of them, lowest first.
pub proof fn law_bytes_of_emem_words(words: Seq<u32>, i: int)
    requires
        0 <= i < words.len(),
    ensures
        word_bytes(words).len() == 4 * words.len(),
        words[i] == word_bytes(words)[4 * i] + 0x100 * word_bytes(words)[4 * i + 1] + 0x1_0000
            * word_bytes(words)[4 * i + 2] + 0x100_0000 * word_bytes(words)[4 * i + 3],
    decreases words.len(),
{
    let before = words.drop_last();
    crate::bytes::law_bytes_of_number(words.last() as nat);
    if before.len() == 0 {
        assert(word_bytes(before) =~= Seq::<u8>::empty());
    } else if i < before.len() {
        law_bytes_of_emem_words(before, i);
    } else {
        law_bytes_of_emem_words(before, 0);
    }
}

} // verus!
