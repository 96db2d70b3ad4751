//! Bootloader support for the FWSEC firmware.
//!
//! On Turing, the FWSEC firmware is not loaded directly, but is instead loaded through a small
//! bootloader program that performs the required DMA operations. This bootloader itself needs to
//! be loaded using PIO.

use vstd::prelude::*;

use crate::bytes::{
    le_bytes, le_value, lemma_le_bytes_len, lemma_number_at, lemma_pow256_values, push_le, zeros,
};
use crate::error::Error;
use crate::gsp::boot::{FalconFbifTarget, NUM_CTX_DMA_SLOTS};

verus! {

/// A part of a firmware, and where in falcon memory it goes.
#[derive(Clone, Copy, Debug, PartialEq, Eq, Structural)]
pub struct LoadParams {
    /// Offset in the firmware.
    pub src_start: u32,
    /// Offset in falcon memory.
    pub dst_start: u32,
    /// Length in bytes.
    pub len: u32,
}

/// Descriptor to be loaded into DMEM for the bootloader to read.
#[derive(Clone, Copy, Debug, PartialEq, Eq, Structural)]
pub struct BootloaderDmemDescV2 {
    /// DMA index the firmware is fetched through.
    pub ctx_dma: u32,
    /// Address of the code.
    pub code_dma_base: u64,
    /// Offset of the non-secure code, in the source and in IMEM.
    pub non_sec_code_off: u32,
    /// Size of the non-secure code.
    pub non_sec_code_size: u32,
    /// Offset of the secure code, in the source and in IMEM.
    pub sec_code_off: u32,
    /// Size of the secure code.
    pub sec_code_size: u32,
    /// Entry point of the code.
    pub code_entry_point: u32,
    /// Address of the data.
    pub data_dma_base: u64,
    /// Size of the data.
    pub data_size: u32,
    /// Number of arguments.
    pub argc: u32,
    /// Arguments.
    pub argv: u32,
}

impl BootloaderDmemDescV2 {
    /// The bytes of the descriptor: four reserved words, a signature of four words, and the fields,
    /// without gaps.
    pub open spec fn spec_bytes(self) -> Seq<u8> {
        zeros(32) + le_bytes(self.ctx_dma as nat, 4) + le_bytes(self.code_dma_base as nat, 8)
            + le_bytes(self.non_sec_code_off as nat, 4) + le_bytes(
            self.non_sec_code_size as nat,
            4,
        ) + le_bytes(self.sec_code_off as nat, 4) + le_bytes(self.sec_code_size as nat, 4)
            + le_bytes(self.code_entry_point as nat, 4) + le_bytes(self.data_dma_base as nat, 8)
            + le_bytes(self.data_size as nat, 4) + le_bytes(self.argc as nat, 4) + le_bytes(
            self.argv as nat,
            4,
        )
    }

    /// Returns the bytes of the descriptor.
    pub fn as_bytes(&self) -> (bytes: Vec<u8>)
        ensures
            bytes@ == self.spec_bytes(),
    {
        let mut bytes: Vec<u8> = Vec::new();
        let mut i: usize = 0;
        while i < 32
            invariant
                i <= 32,
                bytes@ == zeros(i as nat),
            decreases 32 - i,
        {
            bytes.push(0);
            i = i + 1;
            assert(bytes@ =~= zeros(i as nat));
        }
        push_le(&mut bytes, self.ctx_dma as u64, 4);
        push_le(&mut bytes, self.code_dma_base, 8);
        push_le(&mut bytes, self.non_sec_code_off as u64, 4);
        push_le(&mut bytes, self.non_sec_code_size as u64, 4);
        push_le(&mut bytes, self.sec_code_off as u64, 4);
        push_le(&mut bytes, self.sec_code_size as u64, 4);
        push_le(&mut bytes, self.code_entry_point as u64, 4);
        push_le(&mut bytes, self.data_dma_base, 8);
        push_le(&mut bytes, self.data_size as u64, 4);
        push_le(&mut bytes, self.argc as u64, 4);
        push_le(&mut bytes, self.argv as u64, 4);
        bytes
    }
}

/// Bootloader payload is in non-coherent system memory.
pub const FALCON_DMAIDX_PHYS_SYS_NCOH: u32 = 4;

/// Returns the firmware as the bootloader will copy it from.
///
/// The bootloader expects the source to be a mirror image of the destination and uses the same offset
/// parameter for both. Thus, the start of the source needs to be padded with the difference between
/// the destination and source offsets of the secure code `imem_sec`. In practice, this is expected to
/// always be zero but is required for code correctness.
pub fn mirror_image(imem_sec: LoadParams, ucode: &[u8]) -> (image: Result<Vec<u8>, Error>)
    ensures
        match image {
            Ok(image) => {
                &&& imem_sec.dst_start >= imem_sec.src_start
                &&& image@ == zeros((imem_sec.dst_start - imem_sec.src_start) as nat) + ucode@
            },
            Err(error) => {
                &&& imem_sec.dst_start < imem_sec.src_start
                &&& error == Error::EOVERFLOW
            },
        },
{
    if imem_sec.dst_start < imem_sec.src_start {
        return Err(Error::EOVERFLOW);
    }
    let padding: u32 = imem_sec.dst_start - imem_sec.src_start;
    let mut image: Vec<u8> = Vec::new();
    let mut i: u32 = 0;
    while i < padding
        invariant
            i <= padding,
            image@ == zeros(i as nat),
        decreases padding - i,
    {
        image.push(0);
        i = i + 1;
        assert(image@ =~= zeros(i as nat));
    }
    image.extend_from_slice(ucode);
    assert(image@ =~= zeros(padding as nat) + ucode@);
    Ok(image)
}

/// Returns the descriptor for the bootloader to load a firmware whose [`mirror_image`] is at
/// `dma_address`.
///
/// The bootloader does not have a data destination offset field and copies the data at the start of
/// DMEM, so it can only be used if the destination offset of the data is 0. The firmware has to have
/// non-secure code.
pub fn dmem_desc(
    imem_sec: LoadParams,
    imem_ns: Option<LoadParams>,
    dmem: LoadParams,
    dma_address: u64,
) -> (desc: Result<BootloaderDmemDescV2, Error>)
    ensures
        ({
            let padding = imem_sec.dst_start - imem_sec.src_start;
            let data_base = dma_address + padding + dmem.src_start;
            if padding < 0 {
                desc == Err::<BootloaderDmemDescV2, Error>(Error::EOVERFLOW)
            } else if imem_ns is None || dmem.dst_start != 0 {
                desc == Err::<BootloaderDmemDescV2, Error>(Error::EINVAL)
            } else if data_base > u64::MAX {
                desc == Err::<BootloaderDmemDescV2, Error>(Error::EOVERFLOW)
            } else {
                desc == Ok::<BootloaderDmemDescV2, Error>(
                    BootloaderDmemDescV2 {
                        ctx_dma: 4,
                        code_dma_base: dma_address,
                        non_sec_code_off: imem_ns.unwrap().dst_start,
                        non_sec_code_size: imem_ns.unwrap().len,
                        sec_code_off: imem_sec.dst_start,
                        sec_code_size: imem_sec.len,
                        code_entry_point: 0,
                        data_dma_base: data_base as u64,
                        data_size: dmem.len,
                        argc: 0,
                        argv: 0,
                    },
                )
            }
        }),
{
    if imem_sec.dst_start < imem_sec.src_start {
        return Err(Error::EOVERFLOW);
    }
    let padding: u32 = imem_sec.dst_start - imem_sec.src_start;
    let imem_ns = match imem_ns {
        Some(imem_ns) => imem_ns,
        None => {
            return Err(Error::EINVAL);
        },
    };
    if dmem.dst_start != 0 {
        return Err(Error::EINVAL);
    }
    let padded: u64 = match dma_address.checked_add(padding as u64) {
        Some(padded) => padded,
        None => {
            return Err(Error::EOVERFLOW);
        },
    };
    let data_dma_base: u64 = match padded.checked_add(dmem.src_start as u64) {
        Some(base) => base,
        None => {
            return Err(Error::EOVERFLOW);
        },
    };
    Ok(
        BootloaderDmemDescV2 {
            ctx_dma: FALCON_DMAIDX_PHYS_SYS_NCOH,
            code_dma_base: dma_address,
            non_sec_code_off: imem_ns.dst_start,
            non_sec_code_size: imem_ns.len,
            sec_code_off: imem_sec.dst_start,
            sec_code_size: imem_sec.len,
            code_entry_point: 0,
            data_dma_base,
            data_size: dmem.len,
            argc: 0,
            argv: 0,
        },
    )
}

/// What the secure code and the data are in the firmware, they are in the mirror image where the
/// descriptor says: the code at its destination offset, the data after the padding.
pub proof fn law_mirror_image(
    ucode: Seq<u8>,
    imem_sec: LoadParams,
    dmem: LoadParams,
    dma_address: u64,
)
    requires
        imem_sec.src_start <= imem_sec.dst_start,
        imem_sec.src_start + imem_sec.len <= ucode.len(),
        dmem.src_start + dmem.len <= ucode.len(),
    ensures
        ({
            let padding = (imem_sec.dst_start - imem_sec.src_start) as nat;
            let image = zeros(padding) + ucode;
            let data_base = dma_address + padding + dmem.src_start;
            &&& image.subrange(
                imem_sec.dst_start as int,
                imem_sec.dst_start + imem_sec.len,
            ) == ucode.subrange(imem_sec.src_start as int, imem_sec.src_start + imem_sec.len)
            &&& image.subrange(
                data_base - dma_address,
                data_base - dma_address + dmem.len,
            ) == ucode.subrange(dmem.src_start as int, dmem.src_start + dmem.len)
        }),
{
    let padding = (imem_sec.dst_start - imem_sec.src_start) as nat;
    let image = zeros(padding) + ucode;
    let data_base = dma_address + padding + dmem.src_start;
    assert(image.subrange(imem_sec.dst_start as int, imem_sec.dst_start + imem_sec.len)
        =~= ucode.subrange(imem_sec.src_start as int, imem_sec.src_start + imem_sec.len));
    assert(image.subrange(data_base - dma_address, data_base - dma_address + dmem.len)
        =~= ucode.subrange(dmem.src_start as int, dmem.src_start + dmem.len));
}

/// A step of running the firmware.
#[derive(Clone, Copy, Debug, PartialEq, Eq, Structural)]
pub enum RunStep {
    /// Reset the falcon.
    Reset,
    /// Load the bootloader, and its descriptor at the start of DMEM.
    Load,
    /// Let a context DMA slot reach physical memory of this kind.
    SetTranscfg(u8, FalconFbifTarget),
    /// Boot the falcon with this in its first mailbox, and wait until it halts.
    Boot { mbox0: u32 },
    /// Give up with this error.
    Fail(Error),
}

/// The steps of running the firmware, where `ctx_dma` is the slot that its descriptor names.
pub open spec fn spec_run(ctx_dma: u32) -> Seq<RunStep> {
    seq![RunStep::Reset, RunStep::Load] + if ctx_dma < NUM_CTX_DMA_SLOTS {
        seq![
            RunStep::SetTranscfg(ctx_dma as u8, FalconFbifTarget::CoherentSysmem),
            RunStep::Boot { mbox0: 0 },
        ]
    } else {
        seq![RunStep::Fail(Error::EINVAL)]
    }
}

/// Returns the steps that load the bootloader into the falcon and execute it. The bootloader fetches
/// the firmware from system memory through the slot that its descriptor names, which has to exist.
///
/// What comes back in the first mailbox tells how it ended: see [`run_result`].
pub fn run(desc: &BootloaderDmemDescV2) -> (steps: Vec<RunStep>)
    ensures
        steps@ == spec_run(desc.ctx_dma),
{
    let mut steps: Vec<RunStep> = vec![RunStep::Reset, RunStep::Load];
    if desc.ctx_dma < NUM_CTX_DMA_SLOTS as u32 {
        steps.push(RunStep::SetTranscfg(desc.ctx_dma as u8, FalconFbifTarget::CoherentSysmem));
        steps.push(RunStep::Boot { mbox0: 0 });
    } else {
        steps.push(RunStep::Fail(Error::EINVAL));
    }
    assert(steps@ =~= spec_run(desc.ctx_dma));
    steps
}

/// Returns how running the firmware ended: it leaves zero in the first mailbox on success.
pub fn run_result(mbox0: u32) -> (result: Result<(), Error>)
    ensures
        result == if mbox0 == 0 {
            Ok::<(), Error>(())
        } else {
            Err(Error::EIO)
        },
{
    if mbox0 != 0 {
        Err(Error::EIO)
    } else {
        Ok(())
    }
}

/// Where the fields of the descriptor are: after 32 bytes of zeros, one after the other and without
/// gaps, lowest byte first.
pub proof fn law_descriptor_bytes(desc: BootloaderDmemDescV2)
    ensures
        ({
            let bytes = desc.spec_bytes();
            &&& bytes.len() == 84
            &&& forall|i: int| 0 <= i < 32 ==> bytes[i] == 0
            &&& le_value(bytes.subrange(32, 36)) == desc.ctx_dma
            &&& le_value(bytes.subrange(36, 44)) == desc.code_dma_base
            &&& le_value(bytes.subrange(44, 48)) == desc.non_sec_code_off
            &&& le_value(bytes.subrange(48, 52)) == desc.non_sec_code_size
            &&& le_value(bytes.subrange(52, 56)) == desc.sec_code_off
            &&& le_value(bytes.subrange(56, 60)) == desc.sec_code_size
            &&& le_value(bytes.subrange(60, 64)) == desc.code_entry_point
            &&& le_value(bytes.subrange(64, 72)) == desc.data_dma_base
            &&& le_value(bytes.subrange(72, 76)) == desc.data_size
            &&& le_value(bytes.subrange(76, 80)) == desc.argc
            &&& le_value(bytes.subrange(80, 84)) == desc.argv
        }),
{
    let bytes = desc.spec_bytes();
    lemma_pow256_values();
    lemma_le_bytes_len(desc.ctx_dma as nat, 4);
    lemma_le_bytes_len(desc.code_dma_base as nat, 8);
    lemma_le_bytes_len(desc.non_sec_code_off as nat, 4);
    lemma_le_bytes_len(desc.non_sec_code_size as nat, 4);
    lemma_le_bytes_len(desc.sec_code_off as nat, 4);
    lemma_le_bytes_len(desc.sec_code_size as nat, 4);
    lemma_le_bytes_len(desc.code_entry_point as nat, 4);
    lemma_le_bytes_len(desc.data_dma_base as nat, 8);
    lemma_le_bytes_len(desc.data_size as nat, 4);
    lemma_le_bytes_len(desc.argc as nat, 4);
    lemma_le_bytes_len(desc.argv as nat, 4);
    assert(bytes.subrange(32, 36) =~= le_bytes(desc.ctx_dma as nat, 4));
    lemma_number_at(bytes, 32, desc.ctx_dma as nat, 4);
    assert(bytes.subrange(36, 44) =~= le_bytes(desc.code_dma_base as nat, 8));
    lemma_number_at(bytes, 36, desc.code_dma_base as nat, 8);
    assert(bytes.subrange(44, 48) =~= le_bytes(desc.non_sec_code_off as nat, 4));
    lemma_number_at(bytes, 44, desc.non_sec_code_off as nat, 4);
    assert(bytes.subrange(48, 52) =~= le_bytes(desc.non_sec_code_size as nat, 4));
    lemma_number_at(bytes, 48, desc.non_sec_code_size as nat, 4);
    assert(bytes.subrange(52, 56) =~= le_bytes(desc.sec_code_off as nat, 4));
    lemma_number_at(bytes, 52, desc.sec_code_off as nat, 4);
    assert(bytes.subrange(56, 60) =~= le_bytes(desc.sec_code_size as nat, 4));
    lemma_number_at(bytes, 56, desc.sec_code_size as nat, 4);
    assert(bytes.subrange(60, 64) =~= le_bytes(desc.code_entry_point as nat, 4));
    lemma_number_at(bytes, 60, desc.code_entry_point as nat, 4);
    assert(bytes.subrange(64, 72) =~= le_bytes(desc.data_dma_base as nat, 8));
    lemma_number_at(bytes, 64, desc.data_dma_base as nat, 8);
    assert(bytes.subrange(72, 76) =~= le_bytes(desc.data_size as nat, 4));
    lemma_number_at(bytes, 72, desc.data_size as nat, 4);
    assert(bytes.subrange(76, 80) =~= le_bytes(desc.argc as nat, 4));
    lemma_number_at(bytes, 76, desc.argc as nat, 4);
    assert(bytes.subrange(80, 84) =~= le_bytes(desc.argv as nat, 4));
    lemma_number_at(bytes, 80, desc.argv as nat, 4);
}

/// Running the firmware: the falcon is reset, the bootloader is loaded, its slot is pointed at coherent
/// system memory and the falcon is booted with zero in its mailbox. There are eight slots.
pub proof fn law_run_steps(ctx_dma: u32)
    ensures
        ctx_dma < 8 ==> spec_run(ctx_dma) =~= seq![
            RunStep::Reset,
            RunStep::Load,
            RunStep::SetTranscfg(ctx_dma as u8, FalconFbifTarget::CoherentSysmem),
            RunStep::Boot { mbox0: 0 },
        ],
        ctx_dma >= 8 ==> spec_run(ctx_dma) =~= seq![
            RunStep::Reset,
            RunStep::Load,
            RunStep::Fail(Error::EINVAL),
        ],
{
}

} // verus!
