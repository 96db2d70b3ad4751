//! Booting the GSP, executing binaries for it, and unloading it.

use vstd::prelude::*;
use vstd::slice::slice_subrange;

use crate::bytes::{
    law_number_of_bytes, le_value, lemma_pow256_values, read_le, slice_to_vec,
};
use crate::error::Error;
use crate::fb::hal::{address_hi, address_lo};
use crate::gsp::fw::commands::PowerStateLevel;
use crate::regs::FalconMem;

verus! {

/// A step of booting the GSP.
#[derive(Clone, Copy, Debug)]
pub enum BootStep {
    /// Load the GSP firmware.
    LoadFirmware,
    /// Queue the command that tells GSP-RM of the system.
    SendSystemInfo,
    /// Queue the command that sets the registry of GSP-RM.
    SendRegistry,
    /// Perform the chipset-specific boot sequence.
    HalBoot,
    /// Write the version of the bootloader application.
    WriteOsVersion,
    /// Poll for RISC-V to become active, every 10 milliseconds for at most 5 seconds.
    PollRiscvActive,
    /// Perform what the chipset needs once the GSP is active.
    PostBoot,
    /// Wait until GSP is fully initialized.
    WaitInitDone,
    /// Unload the GSP, since booting it failed with this error.
    Unload(Error),
    /// Booting the GSP is over.
    Finished(Result<(), Error>),
}

impl BootStep {
    /// Whether the GSP may be running, so that it has to be unloaded if the step fails.
    pub open spec fn needs_unload(self) -> bool {
        match self {
            BootStep::WriteOsVersion
            | BootStep::PollRiscvActive
            | BootStep::PostBoot
            | BootStep::WaitInitDone => true,
            _ => false,
        }
    }

    /// The step after this one, if this one succeeds.
    pub open spec fn on_success(self) -> BootStep {
        match self {
            BootStep::LoadFirmware => BootStep::SendSystemInfo,
            BootStep::SendSystemInfo => BootStep::SendRegistry,
            BootStep::SendRegistry => BootStep::HalBoot,
            BootStep::HalBoot => BootStep::WriteOsVersion,
            BootStep::WriteOsVersion => BootStep::PollRiscvActive,
            BootStep::PollRiscvActive => BootStep::PostBoot,
            BootStep::PostBoot => BootStep::WaitInitDone,
            BootStep::WaitInitDone => BootStep::Finished(Ok(())),
            BootStep::Unload(error) => BootStep::Finished(Err(error)),
            BootStep::Finished(result) => BootStep::Finished(result),
        }
    }

    /// The step after this one.
    pub open spec fn following(self, result: Result<(), Error>) -> BootStep {
        match (self, result) {
            (BootStep::Unload(error), _) => BootStep::Finished(Err(error)),
            (BootStep::Finished(result), _) => BootStep::Finished(result),
            (_, Ok(_)) => self.on_success(),
            (_, Err(error)) => if self.needs_unload() {
                BootStep::Unload(error)
            } else {
                BootStep::Finished(Err(error))
            },
        }
    }

    /// Returns the first step.
    pub fn start() -> (step: Self)
        ensures
            step == BootStep::LoadFirmware,
    {
        BootStep::LoadFirmware
    }

    /// Returns the step after this one, which had the given result.
    ///
    /// Once the chipset-specific boot sequence has succeeded, a failure unloads the GSP again, and what
    /// comes of that does not matter.
    pub fn next(self, result: Result<(), Error>) -> (step: Self)
        ensures
            step == self.following(result),
    {
        match (self, result) {
            (BootStep::Unload(error), _) => BootStep::Finished(Err(error)),
            (BootStep::Finished(result), _) => BootStep::Finished(result),
            (BootStep::LoadFirmware, Ok(_)) => BootStep::SendSystemInfo,
            (BootStep::SendSystemInfo, Ok(_)) => BootStep::SendRegistry,
            (BootStep::SendRegistry, Ok(_)) => BootStep::HalBoot,
            (BootStep::HalBoot, Ok(_)) => BootStep::WriteOsVersion,
            (BootStep::WriteOsVersion, Ok(_)) => BootStep::PollRiscvActive,
            (BootStep::PollRiscvActive, Ok(_)) => BootStep::PostBoot,
            (BootStep::PostBoot, Ok(_)) => BootStep::WaitInitDone,
            (BootStep::WaitInitDone, Ok(_)) => BootStep::Finished(Ok(())),
            (BootStep::WriteOsVersion, Err(error)) => BootStep::Unload(error),
            (BootStep::PollRiscvActive, Err(error)) => BootStep::Unload(error),
            (BootStep::PostBoot, Err(error)) => BootStep::Unload(error),
            (BootStep::WaitInitDone, Err(error)) => BootStep::Unload(error),
            (_, Err(error)) => BootStep::Finished(Err(error)),
        }
    }
}

/// The step that is reached from another one by some results.
pub open spec fn reached(step: BootStep, results: Seq<Result<(), Error>>) -> BootStep
    decreases results.len(),
{
    if results.len() == 0 {
        step
    } else {
        reached(step, results.drop_last()).following(results.last())
    }
}

/// Booting succeeds only if each of its eight steps does, and then it does succeed.
pub proof fn law_boot_succeeds(results: Seq<Result<(), Error>>)
    requires
        results.len() == 8,
    ensures
        reached(BootStep::LoadFirmware, results) == BootStep::Finished(Ok(()))
            <==> forall|i: int| 0 <= i < 8 ==> results[i] is Ok,
{
    reveal_with_fuel(reached, 9);
    let r0 = results.take(0);
    let r1 = results.take(1);
    let r2 = results.take(2);
    let r3 = results.take(3);
    let r4 = results.take(4);
    let r5 = results.take(5);
    let r6 = results.take(6);
    let r7 = results.take(7);
    assert(results.drop_last() =~= r7);
    assert(r7.drop_last() =~= r6);
    assert(r6.drop_last() =~= r5);
    assert(r5.drop_last() =~= r4);
    assert(r4.drop_last() =~= r3);
    assert(r3.drop_last() =~= r2);
    assert(r2.drop_last() =~= r1);
    assert(r1.drop_last() =~= r0);
    assert(r7.last() == results[6]);
    assert(r6.last() == results[5]);
    assert(r5.last() == results[4]);
    assert(r4.last() == results[3]);
    assert(r3.last() == results[2]);
    assert(r2.last() == results[1]);
    assert(r1.last() == results[0]);
    assert(results.last() == results[7]);
}

/// A failure after the chipset-specific boot sequence has succeeded unloads the GSP before the error
/// is reported; no other failure does.
pub proof fn law_boot_failure_unloads(step: BootStep, error: Error, unload: Result<(), Error>)
    requires
        !(step is Finished),
        !(step is Unload),
    ensures
        ({
            let next = step.following(Err(error));
            if step.needs_unload() {
                &&& next == BootStep::Unload(error)
                &&& next.following(unload) == BootStep::Finished(Err(error))
            } else {
                next == BootStep::Finished(Err(error))
            }
        }),
{
}

/// Aperture that an image is reached through.
#[derive(Clone, Copy, Debug, PartialEq, Eq, Structural)]
pub enum FalconFbifTarget {
    /// Local framebuffer.
    LocalFb,
    /// Coherent system memory.
    CoherentSysmem,
    /// Non-coherent system memory.
    NoncoherentSysmem,
}

/// Where in its source a DMA transfer starts.
#[derive(Clone, Copy, Debug, PartialEq, Eq, Structural)]
pub enum FalconDmaSrcOffset {
    /// At an offset.
    Offset(u32),
    /// At the start, tagging each loaded block with its DMEM virtual address.
    DmemVa(u32),
}

/// Value left in the first mailbox before starting a falcon binary, so a binary that never
/// runs is distinguishable from one that ran and returned success. The write also clears the
/// suspend bit, which is what lets the next event wait on a suspend of its own.
pub const FLCN_ERR_BINARY_NOT_STARTED: u32 = 0xfe;

/// DMEM virtual address meaning the binary has none.
pub const FLCN_DMEM_VA_INVALID: u32 = 0xffff_ffff;

/// Context DMA slot the HS binary is loaded through.
pub const HS_BINARY_CTX_DMA: u8 = 0;

/// Number of context DMA slots.
pub const NUM_CTX_DMA_SLOTS: u8 = 8;

/// A step of executing a binary for GSP-RM. The first step that fails ends the sequence.
#[derive(Clone, Copy, Debug, PartialEq, Eq, Structural)]
pub enum FalconStep {
    /// Wait for the GSP to suspend.
    WaitForProcessorSuspend,
    /// Reset the GSP falcon.
    Reset,
    /// Reset the DMA of the GSP falcon.
    DmaReset,
    /// Remember the configuration of a context DMA slot.
    SaveTranscfg(u8),
    /// Point a context DMA slot at an aperture, with physical addresses.
    SetTranscfg(u8, FalconFbifTarget),
    /// Make a context DMA slot use the engine ID of BAR2.
    SetEngineIdFlag(u8),
    /// Set a context DMA slot to the configuration that was remembered.
    RestoreTranscfg(u8),
    /// Place the descriptor in DMEM and the bootloader in IMEM.
    LoadBootloader,
    /// Copy `size` bytes from `addr`, through slot `ctx_dma`, to falcon memory.
    DmaTransfer {
        ctx_dma: u8,
        addr: u64,
        mem: FalconMem,
        src: FalconDmaSrcOffset,
        dst: u32,
        size: u32,
    },
    /// Write the address of the signature in DMEM.
    WriteBromParaaddr(u32),
    /// Write the mask of the engines that the binary runs on.
    WriteBromEngidmask(u32),
    /// Write the ID of the ucode.
    WriteBromUcodeId(u8),
    /// Select RSA3K for verifying the signature.
    SelectRsa3k,
    /// Write the first mailbox.
    WriteMailbox0(u32),
    /// Write both mailboxes.
    WriteMailboxes(u32, u32),
    /// Write the boot vector.
    WriteBootvec(u32),
    /// Start the GSP falcon.
    Start,
    /// Wait for the GSP falcon to halt.
    WaitTillHalted,
    /// Start the SEC2 falcon.
    StartSec2,
    /// Wait, for at most 2 seconds, until the reload has completed.
    CheckReloadCompleted,
    /// Check what SEC2 reports in its first mailbox.
    CheckSec2Mailbox,
    /// Write the version of the bootloader application.
    WriteOsVersion(u32),
    /// Check that the GSP runs RISC-V.
    CheckRiscvActive,
    /// Fail with an error.
    Fail(Error),
}

/// The steps that restart GSP-RM once a load-and-execute image has run to completion.
///
/// Resets the GSP falcon into RISC-V, hands it the libos boot arguments address through its
/// mailboxes, and starts SEC2, which is what brings GSP-RM back up.
pub open spec fn core_resume_steps(app_version: u32, libos: u64) -> Seq<FalconStep> {
    seq![
        FalconStep::Reset,
        FalconStep::WriteMailboxes(address_lo(libos), address_hi(libos)),
        FalconStep::StartSec2,
        FalconStep::CheckReloadCompleted,
        FalconStep::CheckSec2Mailbox,
        FalconStep::WriteOsVersion(app_version),
        FalconStep::CheckRiscvActive,
    ]
}

/// Appends the steps that restart GSP-RM once a load-and-execute image has run to completion.
fn push_core_resume(steps: &mut Vec<FalconStep>, app_version: u32, libos: u64)
    ensures
        final(steps)@ == old(steps)@ + core_resume_steps(app_version, libos),
{
    let ghost before = steps@;
    let lo: u32 = (libos % 0x1_0000_0000) as u32;
    let hi: u32 = (libos / 0x1_0000_0000) as u32;
    steps.push(FalconStep::Reset);
    steps.push(FalconStep::WriteMailboxes(lo, hi));
    steps.push(FalconStep::StartSec2);
    steps.push(FalconStep::CheckReloadCompleted);
    steps.push(FalconStep::CheckSec2Mailbox);
    steps.push(FalconStep::WriteOsVersion(app_version));
    steps.push(FalconStep::CheckRiscvActive);
    assert(steps@ =~= before + core_resume_steps(app_version, libos));
}

/// Returns the steps that restart GSP-RM once a load-and-execute image has run to completion.
/// `libos` is the address of the libos boot arguments.
pub fn core_resume(app_version: u32, libos: u64) -> (steps: Vec<FalconStep>)
    ensures
        steps@ == core_resume_steps(app_version, libos),
{
    let mut steps: Vec<FalconStep> = Vec::new();
    push_core_resume(&mut steps, app_version, libos);
    assert(steps@ =~= core_resume_steps(app_version, libos));
    steps
}

/// Returns what the first mailbox of SEC2 says of a core resume.
pub fn check_sec2_mailbox(mbox0: u32) -> (result: Result<(), Error>)
    ensures
        result == if mbox0 == 0 {
            Ok::<(), Error>(())
        } else {
            Err(Error::EIO)
        },
{
    if mbox0 != 0 {
        return Err(Error::EIO);
    }
    Ok(())
}

/// Returns what it means whether the GSP runs RISC-V after a core resume.
pub fn check_riscv_active(active: bool) -> (result: Result<(), Error>)
    ensures
        result == if active {
            Ok::<(), Error>(())
        } else {
            Err(Error::EIO)
        },
{
    if !active {
        return Err(Error::EIO);
    }
    Ok(())
}

/// Size in bytes of the descriptor that the generic bootloader reads.
pub const DMEM_DESC_SIZE: usize = 84;

/// Parameters for loading and executing the generic bootloader.
///
/// Sent by GSP-RM as the payload of an event. The descriptor carries the code and data addresses,
/// while `addr_space` and `cpu_cache_attrib` say which FBIF aperture reaches them.
pub struct LoadExecGenericBootloaderParams {
    /// The descriptor, as bytes.
    pub dmem_desc: Vec<u8>,
    /// Context DMA slot in the descriptor.
    pub desc_ctx_dma: u32,
    /// Size of the descriptor, as the sender sees it.
    pub dmem_desc_size: u32,
    /// Address space of the image.
    pub addr_space: u32,
    /// Cache attribute of the image.
    pub cpu_cache_attrib: u32,
}

/// The 32-bit number at a place in a payload.
pub open spec fn payload_word(payload: Seq<u8>, at: int) -> u32 {
    le_value(payload.subrange(at, at + 4)) as u32
}

/// The aperture that reaches an image in an address space with a cache attribute: framebuffer memory
/// is address space 2; system memory is address space 1, cached with attribute 0 and uncached with
/// attribute 1.
pub open spec fn fbif_target_of(addr_space: u32, cpu_cache_attrib: u32) -> Option<FalconFbifTarget> {
    if addr_space == 2 {
        Some(FalconFbifTarget::LocalFb)
    } else if addr_space == 1 && cpu_cache_attrib == 0 {
        Some(FalconFbifTarget::CoherentSysmem)
    } else if addr_space == 1 && cpu_cache_attrib == 1 {
        Some(FalconFbifTarget::NoncoherentSysmem)
    } else {
        None
    }
}

/// Whether the payload asks for the bootloader in a way that can be done.
pub open spec fn bootloader_payload_ok(payload: Seq<u8>) -> bool {
    &&& payload.len() >= 112
    &&& payload_word(payload, 84) == DMEM_DESC_SIZE
    &&& payload_word(payload, 32) < NUM_CTX_DMA_SLOTS
    &&& fbif_target_of(payload_word(payload, 88), payload_word(payload, 92)) is Some
}

impl LoadExecGenericBootloaderParams {
    /// Returns the parameters that `payload` starts with.
    pub fn from_bytes_prefix(payload: &[u8]) -> (params: Option<Self>)
        ensures
            match params {
                Some(params) => {
                    &&& payload@.len() >= 112
                    &&& params.dmem_desc@ == payload@.take(84)
                    &&& params.desc_ctx_dma == payload_word(payload@, 32)
                    &&& params.dmem_desc_size == payload_word(payload@, 84)
                    &&& params.addr_space == payload_word(payload@, 88)
                    &&& params.cpu_cache_attrib == payload_word(payload@, 92)
                },
                None => payload@.len() < 112,
            },
    {
        if payload.len() < 112 {
            return None;
        }
        proof {
            lemma_pow256_values();
            assert(payload@.subrange(0, 84) =~= payload@.take(84));
        }
        Some(
            LoadExecGenericBootloaderParams {
                dmem_desc: slice_to_vec(slice_subrange(payload, 0, 84)),
                desc_ctx_dma: read_le(payload, 32, 4) as u32,
                dmem_desc_size: read_le(payload, 84, 4) as u32,
                addr_space: read_le(payload, 88, 4) as u32,
                cpu_cache_attrib: read_le(payload, 92, 4) as u32,
            },
        )
    }

    /// Returns the context DMA slot the bootloader is to fetch the image through, or `EINVAL` if
    /// there is no such slot.
    pub fn ctx_dma(&self) -> (slot: Result<u8, Error>)
        ensures
            slot == if self.desc_ctx_dma < NUM_CTX_DMA_SLOTS {
                Ok::<u8, Error>(self.desc_ctx_dma as u8)
            } else {
                Err(Error::EINVAL)
            },
    {
        if self.desc_ctx_dma < NUM_CTX_DMA_SLOTS as u32 {
            Ok(self.desc_ctx_dma as u8)
        } else {
            Err(Error::EINVAL)
        }
    }

    /// Returns the FBIF aperture that reaches the image, or `EINVAL` if the address space and cache
    /// attribute pair is not one this driver maps.
    pub fn fbif_target(&self) -> (target: Result<FalconFbifTarget, Error>)
        ensures
            target == match fbif_target_of(self.addr_space, self.cpu_cache_attrib) {
                Some(target) => Ok::<FalconFbifTarget, Error>(target),
                None => Err(Error::EINVAL),
            },
    {
        match (self.addr_space, self.cpu_cache_attrib) {
            (2, _) => Ok(FalconFbifTarget::LocalFb),
            (1, 0) => Ok(FalconFbifTarget::CoherentSysmem),
            (1, 1) => Ok(FalconFbifTarget::NoncoherentSysmem),
            _ => Err(Error::EINVAL),
        }
    }
}

/// The steps that run the generic bootloader.
pub open spec fn bootloader_steps(
    slot: u8,
    target: FalconFbifTarget,
    app_version: u32,
    libos: u64,
) -> Seq<FalconStep> {
    seq![
        FalconStep::WaitForProcessorSuspend,
        FalconStep::Reset,
        FalconStep::DmaReset,
        FalconStep::SaveTranscfg(slot),
        FalconStep::SetTranscfg(slot, target),
        FalconStep::LoadBootloader,
        FalconStep::WriteMailbox0(FLCN_ERR_BINARY_NOT_STARTED),
        FalconStep::Start,
        FalconStep::WaitTillHalted,
        FalconStep::RestoreTranscfg(slot),
    ] + core_resume_steps(app_version, libos)
}

/// Handle an event that asks for the generic bootloader to be executed: returns the descriptor for it,
/// and the steps.
///
/// The driver does not copy the image itself. It writes the descriptor the event carries to
/// DMEM offset 0, places the generic bootloader in IMEM, points the requested FBIF aperture
/// at the image, and runs the bootloader, which does the copy and jumps to the image.
///
/// The configuration of the aperture is restored only once the image has halted. A falcon that never
/// halted may still be reading through this aperture.
///
/// Fails with `EINVAL` if the payload is shorter than the parameter block, the descriptor is not the
/// size this driver mirrors, or the event names a context DMA slot or an aperture that does not exist.
pub fn handle_load_exec_bootloader(payload: &[u8], app_version: u32, libos: u64) -> (plan: Result<
    (Vec<u8>, Vec<FalconStep>),
    Error,
>)
    ensures
        match plan {
            Ok((dmem_desc, steps)) => {
                &&& bootloader_payload_ok(payload@)
                &&& dmem_desc@ == payload@.take(84)
                &&& steps@ == bootloader_steps(
                    payload_word(payload@, 32) as u8,
                    fbif_target_of(
                        payload_word(payload@, 88),
                        payload_word(payload@, 92),
                    ).unwrap(),
                    app_version,
                    libos,
                )
            },
            Err(error) => !bootloader_payload_ok(payload@) && error == Error::EINVAL,
        },
{
    let params = match LoadExecGenericBootloaderParams::from_bytes_prefix(payload) {
        Some(params) => params,
        None => {
            return Err(Error::EINVAL);
        },
    };
    if params.dmem_desc_size != DMEM_DESC_SIZE as u32 {
        return Err(Error::EINVAL);
    }
    let slot: u8 = match params.ctx_dma() {
        Ok(slot) => slot,
        Err(error) => {
            return Err(error);
        },
    };
    let target = match params.fbif_target() {
        Ok(target) => target,
        Err(error) => {
            return Err(error);
        },
    };
    let mut steps: Vec<FalconStep> = Vec::new();
    steps.push(FalconStep::WaitForProcessorSuspend);
    steps.push(FalconStep::Reset);
    steps.push(FalconStep::DmaReset);
    steps.push(FalconStep::SaveTranscfg(slot));
    steps.push(FalconStep::SetTranscfg(slot, target));
    steps.push(FalconStep::LoadBootloader);
    steps.push(FalconStep::WriteMailbox0(FLCN_ERR_BINARY_NOT_STARTED));
    steps.push(FalconStep::Start);
    steps.push(FalconStep::WaitTillHalted);
    steps.push(FalconStep::RestoreTranscfg(slot));
    push_core_resume(&mut steps, app_version, libos);
    assert(steps@ =~= bootloader_steps(slot, target, app_version, libos));
    Ok((params.dmem_desc, steps))
}

/// Parameters for loading and executing an HS (high-security) binary.
///
/// GSP-RM sends these as the payload of an event, having already written the code to `imem_phys_addr`
/// and the data to `dmem_phys_addr` in the framebuffer.
#[derive(Clone, Copy, Debug, PartialEq, Eq, Structural)]
pub struct HsBinaryParams {
    pub imem_phys_addr: u64,
    pub dmem_phys_addr: u64,
    pub ucode_imem_va: u32,
    pub ucode_imem_pa: u32,
    pub ucode_imem_size: u32,
    pub ucode_dmem_va: u32,
    pub ucode_dmem_pa: u32,
    pub ucode_dmem_size: u32,
    pub hs_sig_dmem_addr: u32,
    pub engine_id_mask: u32,
    pub ucode_id: u32,
}

impl HsBinaryParams {
    /// The parameters that a payload starts with. Two reserved 64-bit words follow the addresses.
    pub open spec fn spec_from_bytes(payload: Seq<u8>) -> HsBinaryParams {
        HsBinaryParams {
            imem_phys_addr: le_value(payload.subrange(0, 8)) as u64,
            dmem_phys_addr: le_value(payload.subrange(8, 16)) as u64,
            ucode_imem_va: payload_word(payload, 32),
            ucode_imem_pa: payload_word(payload, 36),
            ucode_imem_size: payload_word(payload, 40),
            ucode_dmem_va: payload_word(payload, 44),
            ucode_dmem_pa: payload_word(payload, 48),
            ucode_dmem_size: payload_word(payload, 52),
            hs_sig_dmem_addr: payload_word(payload, 56),
            engine_id_mask: payload_word(payload, 60),
            ucode_id: payload_word(payload, 64),
        }
    }

    /// Returns the parameters that `payload` starts with.
    pub fn from_bytes_prefix(payload: &[u8]) -> (params: Option<Self>)
        ensures
            params == if payload@.len() >= 80 {
                Some(HsBinaryParams::spec_from_bytes(payload@))
            } else {
                None
            },
    {
        if payload.len() < 80 {
            return None;
        }
        proof {
            lemma_pow256_values();
        }
        Some(
            HsBinaryParams {
                imem_phys_addr: read_le(payload, 0, 8),
                dmem_phys_addr: read_le(payload, 8, 8),
                ucode_imem_va: read_le(payload, 32, 4) as u32,
                ucode_imem_pa: read_le(payload, 36, 4) as u32,
                ucode_imem_size: read_le(payload, 40, 4) as u32,
                ucode_dmem_va: read_le(payload, 44, 4) as u32,
                ucode_dmem_pa: read_le(payload, 48, 4) as u32,
                ucode_dmem_size: read_le(payload, 52, 4) as u32,
                hs_sig_dmem_addr: read_le(payload, 56, 4) as u32,
                engine_id_mask: read_le(payload, 60, 4) as u32,
                ucode_id: read_le(payload, 64, 4) as u32,
            },
        )
    }

    /// The step that copies the code, if there is any.
    pub open spec fn imem_steps(self) -> Seq<FalconStep> {
        if self.ucode_imem_size > 0 {
            seq![
                FalconStep::DmaTransfer {
                    ctx_dma: HS_BINARY_CTX_DMA,
                    addr: self.imem_phys_addr,
                    mem: FalconMem::ImemSecure,
                    src: FalconDmaSrcOffset::Offset(self.ucode_imem_va),
                    dst: self.ucode_imem_pa,
                    size: self.ucode_imem_size,
                },
            ]
        } else {
            Seq::empty()
        }
    }

    /// The step that copies the data, if there is any. A valid DMEM virtual address makes the engine
    /// tag each loaded block with it, which is how the binary reaches its data.
    pub open spec fn dmem_steps(self) -> Seq<FalconStep> {
        if self.ucode_dmem_size > 0 {
            seq![
                FalconStep::DmaTransfer {
                    ctx_dma: HS_BINARY_CTX_DMA,
                    addr: self.dmem_phys_addr,
                    mem: FalconMem::Dmem,
                    src: if self.ucode_dmem_va == FLCN_DMEM_VA_INVALID {
                        FalconDmaSrcOffset::Offset(0)
                    } else {
                        FalconDmaSrcOffset::DmemVa(self.ucode_dmem_va)
                    },
                    dst: self.ucode_dmem_pa,
                    size: self.ucode_dmem_size,
                },
            ]
        } else {
            Seq::empty()
        }
    }

    /// The steps that start the binary and restart GSP-RM after it. The ID of the ucode has to fit
    /// its register field.
    pub open spec fn run_steps(self, app_version: u32, libos: u64) -> Seq<FalconStep> {
        if self.ucode_id > 0xff {
            seq![FalconStep::Fail(Error::EINVAL)]
        } else {
            seq![
                FalconStep::WriteBromUcodeId(self.ucode_id as u8),
                FalconStep::SelectRsa3k,
                FalconStep::WriteMailbox0(FLCN_ERR_BINARY_NOT_STARTED),
                FalconStep::WriteBootvec(self.ucode_imem_va),
                FalconStep::Start,
                FalconStep::WaitTillHalted,
            ] + core_resume_steps(app_version, libos)
        }
    }

    /// The steps that run the binary.
    pub open spec fn steps(self, app_version: u32, libos: u64) -> Seq<FalconStep> {
        seq![
            FalconStep::WaitForProcessorSuspend,
            FalconStep::Reset,
            FalconStep::DmaReset,
            FalconStep::SetTranscfg(HS_BINARY_CTX_DMA, FalconFbifTarget::LocalFb),
            FalconStep::SetEngineIdFlag(HS_BINARY_CTX_DMA),
        ] + self.imem_steps() + self.dmem_steps() + seq![
            FalconStep::WriteBromParaaddr(self.hs_sig_dmem_addr),
            FalconStep::WriteBromEngidmask(self.engine_id_mask),
        ] + self.run_steps(app_version, libos)
    }
}

/// Handle an event that asks for an HS binary to be executed: returns the steps.
///
/// GSP-RM has already placed a high-security binary in the framebuffer. DMA it into falcon
/// memory, program the BROM registers that make the falcon verify its PKC signature, run it,
/// and resume GSP-RM.
///
/// Fails with `EINVAL` if the payload is shorter than the parameter block.
pub fn handle_load_exec_hs_binary(payload: &[u8], app_version: u32, libos: u64) -> (plan: Result<
    Vec<FalconStep>,
    Error,
>)
    ensures
        match plan {
            Ok(steps) => {
                &&& payload@.len() >= 80
                &&& steps@ == HsBinaryParams::spec_from_bytes(payload@).steps(app_version, libos)
            },
            Err(error) => payload@.len() < 80 && error == Error::EINVAL,
        },
{
    let params = match HsBinaryParams::from_bytes_prefix(payload) {
        Some(params) => params,
        None => {
            return Err(Error::EINVAL);
        },
    };
    let mut steps: Vec<FalconStep> = Vec::new();
    steps.push(FalconStep::WaitForProcessorSuspend);
    steps.push(FalconStep::Reset);
    steps.push(FalconStep::DmaReset);
    steps.push(FalconStep::SetTranscfg(HS_BINARY_CTX_DMA, FalconFbifTarget::LocalFb));
    steps.push(FalconStep::SetEngineIdFlag(HS_BINARY_CTX_DMA));
    let ghost prepared = steps@;
    if params.ucode_imem_size > 0 {
        steps.push(
            FalconStep::DmaTransfer {
                ctx_dma: HS_BINARY_CTX_DMA,
                addr: params.imem_phys_addr,
                mem: FalconMem::ImemSecure,
                src: FalconDmaSrcOffset::Offset(params.ucode_imem_va),
                dst: params.ucode_imem_pa,
                size: params.ucode_imem_size,
            },
        );
    }
    assert(steps@ =~= prepared + params.imem_steps());
    let ghost code = steps@;
    if params.ucode_dmem_size > 0 {
        let src = if params.ucode_dmem_va == FLCN_DMEM_VA_INVALID {
            FalconDmaSrcOffset::Offset(0)
        } else {
            FalconDmaSrcOffset::DmemVa(params.ucode_dmem_va)
        };
        steps.push(
            FalconStep::DmaTransfer {
                ctx_dma: HS_BINARY_CTX_DMA,
                addr: params.dmem_phys_addr,
                mem: FalconMem::Dmem,
                src,
                dst: params.ucode_dmem_pa,
                size: params.ucode_dmem_size,
            },
        );
    }
    assert(steps@ =~= code + params.dmem_steps());
    steps.push(FalconStep::WriteBromParaaddr(params.hs_sig_dmem_addr));
    steps.push(FalconStep::WriteBromEngidmask(params.engine_id_mask));
    if params.ucode_id > 0xff {
        steps.push(FalconStep::Fail(Error::EINVAL));
    } else {
        steps.push(FalconStep::WriteBromUcodeId(params.ucode_id as u8));
        steps.push(FalconStep::SelectRsa3k);
        steps.push(FalconStep::WriteMailbox0(FLCN_ERR_BINARY_NOT_STARTED));
        steps.push(FalconStep::WriteBootvec(params.ucode_imem_va));
        steps.push(FalconStep::Start);
        steps.push(FalconStep::WaitTillHalted);
        push_core_resume(&mut steps, app_version, libos);
    }
    assert(steps@ =~= params.steps(app_version, libos));
    Ok(steps)
}

/// Whether every step of a kind comes after some step of another kind.
pub open spec fn only_after(steps: Seq<FalconStep>, later: FalconStep, earlier: FalconStep) -> bool {
    forall|i: int|
        #![trigger steps[i]]
        0 <= i < steps.len() && steps[i] == later ==> exists|j: int|
            0 <= j < i && #[trigger] steps[j] == earlier
}

/// The generic bootloader is started only once the mailbox tells that it has not run, its aperture is
/// given back only once it has halted, and GSP-RM is resumed only after that.
pub proof fn law_bootloader_order(
    slot: u8,
    target: FalconFbifTarget,
    app_version: u32,
    libos: u64,
)
    ensures
        ({
            let steps = bootloader_steps(slot, target, app_version, libos);
            &&& only_after(
                steps,
                FalconStep::Start,
                FalconStep::WriteMailbox0(FLCN_ERR_BINARY_NOT_STARTED),
            )
            &&& only_after(steps, FalconStep::RestoreTranscfg(slot), FalconStep::WaitTillHalted)
            &&& only_after(steps, FalconStep::StartSec2, FalconStep::RestoreTranscfg(slot))
        }),
{
    let steps = bootloader_steps(slot, target, app_version, libos);
    assert(steps[6] == FalconStep::WriteMailbox0(FLCN_ERR_BINARY_NOT_STARTED));
    assert(steps[8] == FalconStep::WaitTillHalted);
    assert(steps[9] == FalconStep::RestoreTranscfg(slot));
}

/// How shutting down the GSP ends: the command has to be sent, and the GSP has to be seen suspended in
/// time.
pub open spec fn shutdown_result(sent: Result<(), Error>, suspended: Option<bool>) -> Result<
    (),
    Error,
> {
    match sent {
        Err(error) => Err(error),
        Ok(_) => if suspended == Some(true) {
            Ok(())
        } else {
            Err(Error::ETIMEDOUT)
        },
    }
}

/// Returns how shutting down the GSP ends.
pub fn shutdown_gsp(sent: Result<(), Error>, suspended: Option<bool>) -> (result: Result<(), Error>)
    ensures
        result == shutdown_result(sent, suspended),
{
    match sent {
        Err(error) => Err(error),
        Ok(_) => match suspended {
            Some(suspended) => {
                if suspended {
                    Ok(())
                } else {
                    Err(Error::ETIMEDOUT)
                }
            },
            None => Err(Error::ETIMEDOUT),
        },
    }
}

/// How unloading the GSP firmware ends, given how the shutdown and the unload bundle did. The error of
/// the shutdown is reported first. A missing bundle means that the GSP is not properly reset.
pub open spec fn unload_result(
    shutdown: Result<(), Error>,
    bundle: Option<Result<(), Error>>,
) -> Result<(), Error> {
    match bundle {
        Some(bundle) => match shutdown {
            Ok(_) => bundle,
            Err(error) => Err(error),
        },
        None => Err(Error::EAGAIN),
    }
}

/// Returns how unloading the GSP firmware ends.
pub fn unload(shutdown: Result<(), Error>, bundle: Option<Result<(), Error>>) -> (result: Result<
    (),
    Error,
>)
    ensures
        result == unload_result(shutdown, bundle),
{
    match bundle {
        Some(bundle) => match shutdown {
            Ok(_) => bundle,
            Err(error) => Err(error),
        },
        None => Err(Error::EAGAIN),
    }
}

/// A step of unloading the GSP firmware.
#[derive(Clone, Copy, Debug, PartialEq, Eq)]
pub enum UnloadStep {
    /// Send the command that shuts the GSP down to this power level.
    SendShutdown(PowerStateLevel),
    /// Wait until the GSP signals that it is suspended, every 10 milliseconds for at most 5 seconds.
    WaitSuspended,
    /// Run the unload bundle, if there is one, to reset the GSP so it can be booted again. This is
    /// how the shutdown ended.
    RunBundle(Result<(), Error>),
    /// Unloading is over.
    Finished(Result<(), Error>),
}

/// What came of a step of unloading the GSP firmware.
#[derive(Clone, Copy, Debug, PartialEq, Eq)]
pub enum UnloadEvent {
    /// The command was sent and answered, or was not.
    Sent(Result<(), Error>),
    /// Whether the GSP was seen suspended in time.
    Suspended(bool),
    /// How the bundle ended, if there is one.
    Bundle(Option<Result<(), Error>>),
}

impl UnloadStep {
    /// The step after this one. An event of another step leaves this one to be made.
    pub open spec fn following(self, event: UnloadEvent) -> UnloadStep {
        match (self, event) {
            (UnloadStep::SendShutdown(_), UnloadEvent::Sent(Ok(_))) => UnloadStep::WaitSuspended,
            (UnloadStep::SendShutdown(_), UnloadEvent::Sent(Err(error))) => UnloadStep::RunBundle(
                shutdown_result(Err(error), None),
            ),
            (UnloadStep::WaitSuspended, UnloadEvent::Suspended(suspended)) => {
                UnloadStep::RunBundle(shutdown_result(Ok(()), Some(suspended)))
            },
            (UnloadStep::RunBundle(shutdown), UnloadEvent::Bundle(bundle)) => {
                UnloadStep::Finished(unload_result(shutdown, bundle))
            },
            _ => self,
        }
    }

    /// Returns the first step, which asks for a full unload.
    pub fn start() -> (step: Self)
        ensures
            step == UnloadStep::SendShutdown(PowerStateLevel::Level0),
    {
        UnloadStep::SendShutdown(PowerStateLevel::Level0)
    }

    /// Returns the step after this one. However the shutdown ends, the bundle is run.
    pub fn next(self, event: UnloadEvent) -> (step: Self)
        ensures
            step == self.following(event),
    {
        match (self, event) {
            (UnloadStep::SendShutdown(_), UnloadEvent::Sent(Ok(_))) => UnloadStep::WaitSuspended,
            (UnloadStep::SendShutdown(_), UnloadEvent::Sent(Err(error))) => {
                UnloadStep::RunBundle(shutdown_gsp(Err(error), None))
            },
            (UnloadStep::WaitSuspended, UnloadEvent::Suspended(suspended)) => {
                UnloadStep::RunBundle(shutdown_gsp(Ok(()), Some(suspended)))
            },
            (UnloadStep::RunBundle(shutdown), UnloadEvent::Bundle(bundle)) => {
                UnloadStep::Finished(unload(shutdown, bundle))
            },
            _ => self,
        }
    }
}

/// The bundle is run after any shutdown, whether it succeeded or failed, and unloading is not over
/// before that.
pub proof fn law_bundle_runs_after_any_shutdown(
    level: PowerStateLevel,
    sent: Result<(), Error>,
    suspended: bool,
    step: UnloadStep,
    event: UnloadEvent,
)
    ensures
        ({
            let after = UnloadStep::SendShutdown(level).following(UnloadEvent::Sent(sent));
            let asked = match after {
                UnloadStep::WaitSuspended => after.following(UnloadEvent::Suspended(suspended)),
                _ => after,
            };
            asked == UnloadStep::RunBundle(shutdown_result(sent, Some(suspended)))
        }),
        step.following(event) is Finished ==> step is Finished || step is RunBundle,
{
}

/// The order of a boot in which every step succeeds.
pub proof fn law_boot_order()
    ensures
        BootStep::LoadFirmware.following(Ok(())) == BootStep::SendSystemInfo,
        BootStep::SendSystemInfo.following(Ok(())) == BootStep::SendRegistry,
        BootStep::SendRegistry.following(Ok(())) == BootStep::HalBoot,
        BootStep::HalBoot.following(Ok(())) == BootStep::WriteOsVersion,
        BootStep::WriteOsVersion.following(Ok(())) == BootStep::PollRiscvActive,
        BootStep::PollRiscvActive.following(Ok(())) == BootStep::PostBoot,
        BootStep::PostBoot.following(Ok(())) == BootStep::WaitInitDone,
        BootStep::WaitInitDone.following(Ok(())) == BootStep::Finished(Ok(())),
{
}

/// The GSP has to be unloaded where a step fails that comes after the chipset-specific boot sequence,
/// and not where one fails that comes before or is that sequence.
pub proof fn law_unload_from_boot_on(
    step: BootStep,
    result: Result<(), Error>,
    again: Result<(), Error>,
)
    ensures
        step is LoadFirmware || step is SendSystemInfo || step is SendRegistry || step is HalBoot
            ==> !step.needs_unload(),
        step is WriteOsVersion || step is PollRiscvActive || step is PostBoot || step is WaitInitDone
            ==> step.needs_unload(),
        BootStep::Finished(result).following(again) == BootStep::Finished(result),
{
}

/// A word of a payload is the number of four of its bytes.
proof fn lemma_payload_word(payload: Seq<u8>, at: int)
    requires
        0 <= at,
        at + 4 <= payload.len(),
    ensures
        payload_word(payload, at) == le_value(payload.subrange(at, at + 4)),
{
    law_number_of_bytes(payload.subrange(at, at + 4));
}

/// Where the parameters of an HS binary are in the payload: the two addresses, eight bytes each, at the
/// start, and from 32 on the numbers, four bytes each.
pub proof fn law_hs_binary_fields(payload: Seq<u8>)
    requires
        payload.len() >= 80,
    ensures
        ({
            let params = HsBinaryParams::spec_from_bytes(payload);
            &&& params.imem_phys_addr == le_value(payload.subrange(0, 8))
            &&& params.dmem_phys_addr == le_value(payload.subrange(8, 16))
            &&& params.ucode_imem_va == le_value(payload.subrange(32, 36))
            &&& params.ucode_imem_pa == le_value(payload.subrange(36, 40))
            &&& params.ucode_imem_size == le_value(payload.subrange(40, 44))
            &&& params.ucode_dmem_va == le_value(payload.subrange(44, 48))
            &&& params.ucode_dmem_pa == le_value(payload.subrange(48, 52))
            &&& params.ucode_dmem_size == le_value(payload.subrange(52, 56))
            &&& params.hs_sig_dmem_addr == le_value(payload.subrange(56, 60))
            &&& params.engine_id_mask == le_value(payload.subrange(60, 64))
            &&& params.ucode_id == le_value(payload.subrange(64, 68))
        }),
{
    law_number_of_bytes(payload.subrange(0, 8));
    law_number_of_bytes(payload.subrange(8, 16));
    lemma_payload_word(payload, 32);
    lemma_payload_word(payload, 36);
    lemma_payload_word(payload, 40);
    lemma_payload_word(payload, 44);
    lemma_payload_word(payload, 48);
    lemma_payload_word(payload, 52);
    lemma_payload_word(payload, 56);
    lemma_payload_word(payload, 60);
    lemma_payload_word(payload, 64);
}

/// A payload asks for the bootloader in a way that can be done where it has 112 bytes, its descriptor
/// has 84 as the number at 84 says, the number at 32 is one of the eight slots, and the numbers at 88
/// and 92 are an address space with a cache attribute that can be reached.
pub proof fn law_bootloader_payload(payload: Seq<u8>)
    ensures
        payload.len() < 112 ==> !bootloader_payload_ok(payload),
        payload.len() >= 112 ==> (bootloader_payload_ok(payload) <==> {
            let space = le_value(payload.subrange(88, 92));
            let cache = le_value(payload.subrange(92, 96));
            &&& le_value(payload.subrange(84, 88)) == 84
            &&& le_value(payload.subrange(32, 36)) < 8
            &&& space == 2 || (space == 1 && cache <= 1)
        }),
        payload.len() >= 112 ==> payload_word(payload, 32) == le_value(payload.subrange(32, 36))
            && payload_word(payload, 88) == le_value(payload.subrange(88, 92)) && payload_word(
            payload,
            92,
        ) == le_value(payload.subrange(92, 96)),
{
    if payload.len() >= 112 {
        lemma_payload_word(payload, 32);
        lemma_payload_word(payload, 84);
        lemma_payload_word(payload, 88);
        lemma_payload_word(payload, 92);
    }
}

/// Framebuffer memory is reached whatever its cache attribute is. System memory is coherent with the
/// attribute 0 and not coherent with the attribute 1. Nothing else is reached.
pub proof fn law_image_apertures(addr_space: u32, cache: u32)
    ensures
        fbif_target_of(2, cache) == Some(FalconFbifTarget::LocalFb),
        fbif_target_of(1, 0) == Some(FalconFbifTarget::CoherentSysmem),
        fbif_target_of(1, 1) == Some(FalconFbifTarget::NoncoherentSysmem),
        cache > 1 ==> fbif_target_of(1, cache) is None,
        addr_space != 1 && addr_space != 2 ==> fbif_target_of(addr_space, cache) is None,
{
}

/// Resuming GSP-RM: the falcon is reset, the two mailboxes get the lower and the upper half of the
/// address of the boot arguments, and SEC2 is started and has to report success before the version
/// of the application is written and RISC-V has to run.
pub proof fn law_core_resume(app_version: u32, libos: u64)
    ensures
        ({
            let steps = core_resume_steps(app_version, libos);
            &&& steps.len() == 7
            &&& steps[0] == FalconStep::Reset
            &&& steps[1] == FalconStep::WriteMailboxes(
                (libos % 0x1_0000_0000) as u32,
                (libos / 0x1_0000_0000) as u32,
            )
            &&& steps[2] == FalconStep::StartSec2
            &&& steps[3] == FalconStep::CheckReloadCompleted
            &&& steps[4] == FalconStep::CheckSec2Mailbox
            &&& steps[5] == FalconStep::WriteOsVersion(app_version)
            &&& steps[6] == FalconStep::CheckRiscvActive
        }),
{
}

/// Running the bootloader: the GSP has to be suspended and its falcon is reset, the aperture of the
/// slot is remembered and pointed at the image, the bootloader is loaded, started with the mailbox at
/// `0xfe` and waited for, and the aperture is given back. Then GSP-RM is resumed.
pub proof fn law_bootloader_steps(
    slot: u8,
    target: FalconFbifTarget,
    app_version: u32,
    libos: u64,
)
    ensures
        ({
            let steps = bootloader_steps(slot, target, app_version, libos);
            &&& steps[0] == FalconStep::WaitForProcessorSuspend
            &&& steps[1] == FalconStep::Reset
            &&& steps[2] == FalconStep::DmaReset
            &&& steps[3] == FalconStep::SaveTranscfg(slot)
            &&& steps[4] == FalconStep::SetTranscfg(slot, target)
            &&& steps[5] == FalconStep::LoadBootloader
            &&& steps[6] == FalconStep::WriteMailbox0(0xfe)
            &&& steps[7] == FalconStep::Start
            &&& steps[8] == FalconStep::WaitTillHalted
            &&& steps[9] == FalconStep::RestoreTranscfg(slot)
            &&& steps.skip(10) =~= core_resume_steps(app_version, libos)
        }),
{
}

/// Copying an HS binary: its code goes to secure IMEM and its data to DMEM, from the framebuffer and
/// through slot 0, each of them only if there is any. The code comes from its virtual address. The
/// data comes from the start, and is tagged with its virtual address unless that is all ones.
pub proof fn law_hs_binary_transfers(params: HsBinaryParams)
    ensures
        params.ucode_imem_size == 0 ==> params.imem_steps().len() == 0,
        params.ucode_imem_size > 0 ==> params.imem_steps() =~= seq![
            FalconStep::DmaTransfer {
                ctx_dma: 0,
                addr: params.imem_phys_addr,
                mem: FalconMem::ImemSecure,
                src: FalconDmaSrcOffset::Offset(params.ucode_imem_va),
                dst: params.ucode_imem_pa,
                size: params.ucode_imem_size,
            },
        ],
        params.ucode_dmem_size == 0 ==> params.dmem_steps().len() == 0,
        params.ucode_dmem_size > 0 ==> params.dmem_steps() =~= seq![
            FalconStep::DmaTransfer {
                ctx_dma: 0,
                addr: params.dmem_phys_addr,
                mem: FalconMem::Dmem,
                src: if params.ucode_dmem_va == 0xffff_ffff {
                    FalconDmaSrcOffset::Offset(0)
                } else {
                    FalconDmaSrcOffset::DmemVa(params.ucode_dmem_va)
                },
                dst: params.ucode_dmem_pa,
                size: params.ucode_dmem_size,
            },
        ],
{
}

/// Running an HS binary: the GSP has to be suspended and its falcon is reset, slot 0 is pointed at the
/// framebuffer with the engine ID of BAR2, the code and the data are copied, the BROM is told of the
/// signature and the engines, and the binary is started and waited for before GSP-RM is resumed. A
/// ucode ID of more than eight bits fails where it would be written.
pub proof fn law_hs_binary_steps(params: HsBinaryParams, app_version: u32, libos: u64)
    ensures
        ({
            let steps = params.steps(app_version, libos);
            let copied = 5 + params.imem_steps().len() as int;
            let loaded = copied + params.dmem_steps().len();
            &&& steps[0] == FalconStep::WaitForProcessorSuspend
            &&& steps[1] == FalconStep::Reset
            &&& steps[2] == FalconStep::DmaReset
            &&& steps[3] == FalconStep::SetTranscfg(0, FalconFbifTarget::LocalFb)
            &&& steps[4] == FalconStep::SetEngineIdFlag(0)
            &&& steps.subrange(5, copied) =~= params.imem_steps()
            &&& steps.subrange(copied, loaded) =~= params.dmem_steps()
            &&& steps[loaded] == FalconStep::WriteBromParaaddr(params.hs_sig_dmem_addr)
            &&& steps[loaded + 1] == FalconStep::WriteBromEngidmask(params.engine_id_mask)
            &&& params.ucode_id > 0xff ==> steps.skip(loaded + 2) =~= seq![
                FalconStep::Fail(Error::EINVAL),
            ]
            &&& params.ucode_id <= 0xff ==> {
                &&& steps[loaded + 2] == FalconStep::WriteBromUcodeId(params.ucode_id as u8)
                &&& steps[loaded + 3] == FalconStep::SelectRsa3k
                &&& steps[loaded + 4] == FalconStep::WriteMailbox0(0xfe)
                &&& steps[loaded + 5] == FalconStep::WriteBootvec(params.ucode_imem_va)
                &&& steps[loaded + 6] == FalconStep::Start
                &&& steps[loaded + 7] == FalconStep::WaitTillHalted
                &&& steps.skip(loaded + 8) =~= core_resume_steps(app_version, libos)
            }
        }),
{
    let steps = params.steps(app_version, libos);
    let first = params.imem_steps();
    let second = params.dmem_steps();
    let run = params.run_steps(app_version, libos);
    assert(steps.len() == 5 + first.len() + second.len() + 2 + run.len());
    assert(steps.skip(5 + first.len() as int + second.len() + 2) =~= run);
}

/// Unloading succeeds where the command was sent, the GSP was seen suspended in time, and there is a
/// bundle that succeeded. Without a bundle it fails with `EAGAIN`. With one it fails with the error of
/// the command, else for want of the suspension, else with that of the bundle.
pub proof fn law_unload_outcome(
    level: PowerStateLevel,
    sent: Result<(), Error>,
    suspended: bool,
    bundle: Option<Result<(), Error>>,
)
    ensures
        ({
            let after = UnloadStep::SendShutdown(level).following(UnloadEvent::Sent(sent));
            let asked = if sent is Ok {
                after.following(UnloadEvent::Suspended(suspended))
            } else {
                after
            };
            asked.following(UnloadEvent::Bundle(bundle)) == UnloadStep::Finished(
                match (bundle, sent) {
                    (None, _) => Err::<(), Error>(Error::EAGAIN),
                    (Some(_), Err(error)) => Err(error),
                    (Some(ended), Ok(_)) => if suspended {
                        ended
                    } else {
                        Err(Error::ETIMEDOUT)
                    },
                },
            )
        }),
        shutdown_result(Ok(()), None) == Err::<(), Error>(Error::ETIMEDOUT),
{
}

} // verus!
