//! The generic falcon bootloader.
//!
//! A small program loaded into falcon IMEM using PIO, which then DMAs a larger image into IMEM and
//! DMEM from a descriptor the driver leaves in DMEM at offset 0.

use vstd::prelude::*;
use vstd::slice::slice_subrange;

use crate::bytes::{slice_to_vec, zeros};
use crate::error::Error;
use crate::falcon::MEM_BLOCK_ALIGNMENT;
use crate::num::{align_up, lemma_align_up, spec_align_up};

verus! {

/// Code to be loaded into falcon IMEM using PIO.
pub struct FalconPioImemLoadTarget<'a> {
    /// Data to load.
    pub data: &'a [u8],
    /// Offset in IMEM to load it at.
    pub dst_start: u16,
    /// Whether it goes to secure IMEM.
    pub secure: bool,
    /// Tag of the first block.
    pub start_tag: u16,
}

/// The generic falcon bootloader image, and where in IMEM it goes.
pub struct GenericBootloader {
    /// Bootloader code, zero-padded to a whole number of falcon memory blocks.
    pub ucode: Vec<u8>,
    /// Byte offset in IMEM the code is loaded at.
    pub imem_dst_start: u16,
    /// Tag the first code block is loaded under.
    pub start_tag: u16,
}

/// The size of a code in falcon memory: a whole number of memory blocks.
pub open spec fn code_blocks(code_size: u32) -> int {
    spec_align_up(code_size as int, MEM_BLOCK_ALIGNMENT as int)
}

impl GenericBootloader {
    /// Returns the generic bootloader image, placed in the last blocks of an IMEM of `imem_size`
    /// bytes so the image it goes on to load has the rest to itself.
    ///
    /// `blob` holds the code in its first `code_size` bytes; `start_tag` is the tag it runs under.
    /// Fails with `EINVAL` if the code is not all there, does not fit in IMEM, or is placed or tagged
    /// where 16 bits cannot say.
    pub fn new(blob: &[u8], code_size: u32, start_tag: u32, imem_size: usize) -> (bootloader: Result<
        Self,
        Error,
    >)
        ensures
            ({
                let size = code_blocks(code_size);
                match bootloader {
                    Ok(bootloader) => {
                        &&& code_size <= blob@.len()
                        &&& size <= imem_size
                        &&& bootloader.ucode@ == blob@.take(code_size as int) + zeros(
                            (size - code_size) as nat,
                        )
                        &&& bootloader.imem_dst_start == imem_size - size
                        &&& bootloader.start_tag == start_tag
                    },
                    Err(error) => {
                        &&& error == Error::EINVAL
                        &&& {
                            ||| code_size > blob@.len()
                            ||| size > imem_size
                            ||| imem_size - size > u16::MAX
                            ||| start_tag > u16::MAX
                        }
                    },
                }
            }),
    {
        let total: usize = blob.len();
        if code_size as u64 > total as u64 {
            return Err(Error::EINVAL);
        }
        let code_len: usize = code_size as usize;
        proof {
            lemma_align_up(code_size as int, MEM_BLOCK_ALIGNMENT as int);
        }
        let aligned: u64 = match align_up(code_size as u64, MEM_BLOCK_ALIGNMENT as u64) {
            Some(aligned) => aligned,
            None => {
                return Err(Error::EINVAL);
            },
        };
        if aligned > imem_size as u64 {
            return Err(Error::EINVAL);
        }
        let aligned_len: usize = aligned as usize;
        let imem_dst_start: usize = imem_size - aligned_len;
        if imem_dst_start > 0xffff || start_tag > 0xffff {
            return Err(Error::EINVAL);
        }
        let mut ucode = slice_to_vec(slice_subrange(blob, 0, code_len));
        assert(blob@.subrange(0, code_len as int) =~= blob@.take(code_size as int));
        assert(ucode@ + zeros(0) =~= ucode@);
        let mut len: usize = code_len;
        while len < aligned_len
            invariant
                code_len <= len <= aligned_len,
                code_len == code_size,
                ucode@ == blob@.take(code_size as int) + zeros((len - code_len) as nat),
            decreases aligned_len - len,
        {
            ucode.push(0);
            len = len + 1;
            assert(ucode@ =~= blob@.take(code_size as int) + zeros((len - code_len) as nat));
        }
        Ok(
            GenericBootloader {
                ucode,
                imem_dst_start: imem_dst_start as u16,
                start_tag: start_tag as u16,
            },
        )
    }

    /// Returns the address the falcon must boot from to run this bootloader.
    pub fn boot_addr(&self) -> (addr: u32)
        ensures
            addr == self.start_tag * 256,
    {
        self.start_tag as u32 * 256
    }

    /// Returns the PIO parameters that place this bootloader in non-secure IMEM.
    pub fn imem_load_params(&self) -> (target: FalconPioImemLoadTarget<'_>)
        ensures
            target.data@ == self.ucode@,
            target.dst_start == self.imem_dst_start,
            !target.secure,
            target.start_tag == self.start_tag,
    {
        FalconPioImemLoadTarget {
            data: self.ucode.as_slice(),
            dst_start: self.imem_dst_start,
            secure: false,
            start_tag: self.start_tag,
        }
    }
}

/// A code takes as many whole memory blocks of 256 bytes as it needs, and no more.
pub proof fn law_code_blocks(code_size: u32)
    ensures
        code_blocks(code_size) % 256 == 0,
        code_size <= code_blocks(code_size) < code_size + 256,
{
    crate::num::lemma_align_up(code_size as int, 256);
}

} // verus!
