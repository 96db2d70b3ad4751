//! Firmware data types of the GSP.

pub mod commands;
pub mod r000_00;
pub mod rm;

use core::ops::Range;

use vstd::prelude::*;

use crate::bytes::{
    le_bytes, le_value, lemma_le_bytes_len, lemma_number_at, lemma_pow256_values, push_le, zeros,
};
use crate::error::Error;
use crate::fb::FbLayout;
use crate::gpu::{Architecture, Chipset};
use crate::gsp::fw::r000_00::bindings::{
    GspFwWprMeta, GspFwWprMeta__bindgen_ty_1, GspFwWprMeta__bindgen_ty_1__bindgen_ty_1,
    GspFwWprMeta__bindgen_ty_2, GSP_ARGUMENTS_CACHED, GSP_ARGUMENTS_CACHED__bindgen_ty_3,
    GSP_ARGUMENTS_CACHED__bindgen_ty_4, GSP_VF_INFO, MESSAGE_QUEUE_INIT_ARGUMENTS,
};
use crate::gsp::GSP_PAGE_SIZE;
use crate::mctp::{
    law_nvdm_header_number, law_transport_header_number, nvdm_word, transport_word, NvdmHeader,
    TransportHeader, NVDM_TYPE_GMCAPI, NVDM_TYPE_RM_RPC,
};
use crate::num::{align_up, lemma_align_up, spec_align_up};

verus! {

/// Maximum size of a single GSP message queue element in bytes.
pub const GSP_MSG_QUEUE_ELEMENT_SIZE_MAX: usize = 65536;

/// Size of 1MB, which the GSP heap is aligned to.
pub const SZ_1M: u64 = 0x10_0000;

/// Size of 1GB.
pub const SZ_1G: u64 = 0x4000_0000;

/// Whether a chipset is Hopper or later.
pub open spec fn hopper_or_later(chipset: Chipset) -> bool {
    match chipset.arch() {
        Architecture::Hopper | Architecture::BlackwellGB10x | Architecture::BlackwellGB20x => true,
        _ => false,
    }
}

/// Parameters for the heap that the GSP firmware runs with.
pub struct GspFwHeapParams;

impl GspFwHeapParams {
    /// The amount of GSP-RM heap memory used during boot and initialization: 14MB for
    /// Hopper/Blackwell+, 8MB before.
    pub open spec fn spec_base_rm_size(chipset: Chipset) -> u64 {
        if hopper_or_later(chipset) {
            0xe0_0000
        } else {
            0x80_0000
        }
    }

    /// The amount of heap memory required to support a single channel allocation: 142MB for
    /// Hopper/Blackwell+, 96MB before.
    pub open spec fn spec_client_alloc_size(chipset: Chipset) -> u64 {
        if hopper_or_later(chipset) {
            0x8e0_0000
        } else {
            0x600_0000
        }
    }

    /// The amount of memory to reserve for management purposes: 96KB for each GB of the framebuffer,
    /// in whole MBs.
    pub open spec fn spec_management_overhead(fb_size: u64) -> int {
        spec_align_up(98304 * ((fb_size + SZ_1G - 1) / SZ_1G as int), SZ_1M as int)
    }

    /// Returns the amount of GSP-RM heap memory used during GSP-RM boot and initialization (up to
    /// and including the first client subdevice allocation).
    pub fn base_rm_size(chipset: Chipset) -> (size: u64)
        ensures
            size == GspFwHeapParams::spec_base_rm_size(chipset),
    {
        match chipset.arch() {
            Architecture::Hopper | Architecture::BlackwellGB10x | Architecture::BlackwellGB20x => {
                0xe0_0000
            },
            _ => 0x80_0000,
        }
    }

    /// Returns the amount of heap memory required to support a single channel allocation.
    pub fn client_alloc_size(chipset: Chipset) -> (size: Result<u64, Error>)
        ensures
            size == Ok::<u64, Error>(GspFwHeapParams::spec_client_alloc_size(chipset)),
    {
        let size: u64 = match chipset.arch() {
            Architecture::Hopper | Architecture::BlackwellGB10x | Architecture::BlackwellGB20x => {
                0x8e0_0000
            },
            _ => 0x600_0000,
        };
        match align_up(size, SZ_1M) {
            Some(size) => Ok(size),
            None => Err(Error::EINVAL),
        }
    }

    /// Returns the amount of memory to reserve for management purposes for a framebuffer of size
    /// `fb_size`.
    pub fn management_overhead(fb_size: u64) -> (size: Result<u64, Error>)
        ensures
            GspFwHeapParams::spec_management_overhead(fb_size) <= u64::MAX,
            size == Ok::<u64, Error>(GspFwHeapParams::spec_management_overhead(fb_size) as u64),
    {
        let fb_size_gb: u64 = if fb_size % SZ_1G == 0 {
            fb_size / SZ_1G
        } else {
            fb_size / SZ_1G + 1
        };
        proof {
            lemma_align_up(98304 * fb_size_gb, SZ_1M as int);
        }
        match align_up(98304 * fb_size_gb, SZ_1M) {
            Some(size) => Ok(size),
            None => Err(Error::EINVAL),
        }
    }
}

/// Heap memory requirements and constraints for a given version of the GSP LIBOS.
pub struct LibosParams {
    /// The base amount of heap required by the GSP operating system, in bytes.
    pub carveout_size: u64,
    /// The minimum and maximum sizes allowed for the GSP FW heap, in bytes.
    pub allowed_heap_size: Range<u64>,
}

impl LibosParams {
    /// Version 2 of the GSP LIBOS (Turing and GA100), version 3 (GA102+), or version 3 with the larger
    /// minimum heap size that Hopper/Blackwell+ need.
    pub open spec fn spec_from_chipset(chipset: Chipset) -> LibosParams {
        if chipset.arch() == Architecture::Turing || chipset == Chipset::GA100 {
            LibosParams {
                carveout_size: 0,
                allowed_heap_size: Range { start: 0x400_0000, end: 0x1000_0000 },
            }
        } else if hopper_or_later(chipset) {
            LibosParams {
                carveout_size: 0x160_0000,
                allowed_heap_size: Range { start: 0xaa0_0000, end: 0x1180_0000 },
            }
        } else {
            LibosParams {
                carveout_size: 0x160_0000,
                allowed_heap_size: Range { start: 0x580_0000, end: 0x1180_0000 },
            }
        }
    }

    /// Some heap size is allowed.
    pub open spec fn wf(self) -> bool {
        self.allowed_heap_size.start < self.allowed_heap_size.end
    }

    /// What the heap has to hold: the LIBOS carveout, the RM boot working memory, one RM client, and
    /// the overhead for memory management.
    pub open spec fn wanted(self, chipset: Chipset, fb_size: u64) -> int {
        self.carveout_size + GspFwHeapParams::spec_base_rm_size(chipset)
            + GspFwHeapParams::spec_client_alloc_size(chipset)
            + GspFwHeapParams::spec_management_overhead(fb_size)
    }

    /// What the heap has to hold, clamped to the supported heap sizes.
    pub open spec fn spec_wpr_heap_size(self, chipset: Chipset, fb_size: u64) -> int {
        if self.wanted(chipset, fb_size) < self.allowed_heap_size.start {
            self.allowed_heap_size.start as int
        } else if self.wanted(chipset, fb_size) > self.allowed_heap_size.end - 1 {
            self.allowed_heap_size.end - 1
        } else {
            self.wanted(chipset, fb_size)
        }
    }

    /// Returns the libos parameters corresponding to `chipset`.
    pub fn from_chipset(chipset: Chipset) -> (params: LibosParams)
        ensures
            params == LibosParams::spec_from_chipset(chipset),
            params.wf(),
    {
        match chipset.arch() {
            Architecture::Turing => LibosParams {
                carveout_size: 0,
                allowed_heap_size: Range { start: 64 * SZ_1M, end: 256 * SZ_1M },
            },
            Architecture::Ampere | Architecture::Ada => {
                if chipset == Chipset::GA100 {
                    LibosParams {
                        carveout_size: 0,
                        allowed_heap_size: Range { start: 64 * SZ_1M, end: 256 * SZ_1M },
                    }
                } else {
                    LibosParams {
                        carveout_size: 0x160_0000,
                        allowed_heap_size: Range { start: 88 * SZ_1M, end: 280 * SZ_1M },
                    }
                }
            },
            Architecture::Hopper | Architecture::BlackwellGB10x | Architecture::BlackwellGB20x => {
                LibosParams {
                    carveout_size: 0x160_0000,
                    allowed_heap_size: Range { start: 170 * SZ_1M, end: 280 * SZ_1M },
                }
            },
        }
    }

    /// Returns the amount of memory (in bytes) to allocate for the WPR heap for a framebuffer size
    /// of `fb_size` (in bytes) for `chipset`.
    pub fn wpr_heap_size(&self, chipset: Chipset, fb_size: u64) -> (size: Result<u64, Error>)
        requires
            self.wf(),
        ensures
            size == Ok::<u64, Error>(self.spec_wpr_heap_size(chipset, fb_size) as u64),
    {
        let client: u64 = match GspFwHeapParams::client_alloc_size(chipset) {
            Ok(size) => size,
            Err(error) => {
                return Err(error);
            },
        };
        let overhead: u64 = match GspFwHeapParams::management_overhead(fb_size) {
            Ok(size) => size,
            Err(error) => {
                return Err(error);
            },
        };
        let base: u64 = GspFwHeapParams::base_rm_size(chipset);
        let wanted: u64 = self.carveout_size.saturating_add(base).saturating_add(
            client,
        ).saturating_add(overhead);
        let largest: u64 = self.allowed_heap_size.end - 1;
        if wanted < self.allowed_heap_size.start {
            Ok(self.allowed_heap_size.start)
        } else if wanted > largest {
            Ok(largest)
        } else {
            Ok(wanted)
        }
    }
}

/// The WPR heap is always of an allowed size, and no smaller for a larger framebuffer.
pub proof fn law_wpr_heap_size(params: LibosParams, chipset: Chipset, fb_size: u64, larger: u64)
    requires
        params.wf(),
        fb_size <= larger,
    ensures
        params.allowed_heap_size.start <= params.spec_wpr_heap_size(chipset, fb_size)
            < params.allowed_heap_size.end,
        params.spec_wpr_heap_size(chipset, fb_size) <= params.spec_wpr_heap_size(chipset, larger),
{
    let gb = (fb_size + SZ_1G - 1) / SZ_1G as int;
    let larger_gb = (larger + SZ_1G - 1) / SZ_1G as int;
    lemma_align_up(98304 * gb, SZ_1M as int);
    lemma_align_up(98304 * larger_gb, SZ_1M as int);
    assert(gb <= larger_gb);
}

/// Where the parts of the GSP firmware are.
#[derive(Clone, Copy, Debug, PartialEq, Eq, Structural)]
pub struct GspFirmwareAddresses {
    /// Address of the radix3 page table of the firmware image.
    pub radix3: u64,
    /// Size of the firmware image.
    pub size: u64,
    /// Address of the bootloader.
    pub bootloader: u64,
    /// Size of the bootloader.
    pub bootloader_size: u64,
    /// Offset of the code in the bootloader.
    pub code_offset: u32,
    /// Offset of the data in the bootloader.
    pub data_offset: u32,
    /// Offset of the manifest in the bootloader.
    pub manifest_offset: u32,
    /// Address of the signatures.
    pub signatures: u64,
    /// Size of the signatures.
    pub signatures_size: u64,
}

/// Value that marks the structure passed to the GSP bootloader.
pub const GSP_FW_WPR_META_MAGIC: u64 = 0xdc3a_ae21_371a_60b3;

/// Returns the structure passed to the GSP bootloader for booting `firmware` using the `fb_layout`
/// layout: the framebuffer layout as well as the DMA addresses of the GSP bootloader and firmware.
pub fn wpr_meta(firmware: GspFirmwareAddresses, fb_layout: &FbLayout, pmu_reserved_size: u32) -> (meta:
    GspFwWprMeta)
    requires
        fb_layout.wf(),
    ensures
        meta.magic == GSP_FW_WPR_META_MAGIC,
        meta.revision == 1,
        meta.sysmemAddrOfRadix3Elf == firmware.radix3,
        meta.sizeOfRadix3Elf == firmware.size,
        meta.sysmemAddrOfBootloader == firmware.bootloader,
        meta.sizeOfBootloader == firmware.bootloader_size,
        meta.bootloaderCodeOffset == firmware.code_offset,
        meta.bootloaderDataOffset == firmware.data_offset,
        meta.bootloaderManifestOffset == firmware.manifest_offset,
        meta.__bindgen_anon_1 == GspFwWprMeta__bindgen_ty_1::First(
            GspFwWprMeta__bindgen_ty_1__bindgen_ty_1 {
                sysmemAddrOfSignature: firmware.signatures,
                sizeOfSignature: firmware.signatures_size,
            },
        ),
        meta.gspFwRsvdStart == fb_layout.heap.start,
        meta.nonWprHeapOffset == fb_layout.heap.start,
        meta.nonWprHeapSize == fb_layout.heap.end - fb_layout.heap.start,
        meta.gspFwWprStart == fb_layout.wpr2.start,
        meta.gspFwHeapOffset == fb_layout.wpr2_heap.start,
        meta.gspFwHeapSize == fb_layout.wpr2_heap.end - fb_layout.wpr2_heap.start,
        meta.gspFwOffset == fb_layout.fw_image.start,
        meta.bootBinOffset == fb_layout.boot.start,
        meta.frtsOffset == fb_layout.frts.start,
        meta.frtsSize == fb_layout.frts.end - fb_layout.frts.start,
        meta.gspFwWprEnd == fb_layout.vga_workspace.start - fb_layout.vga_workspace.start % 0x2_0000,
        meta.fbSize == fb_layout.fb.end - fb_layout.fb.start,
        meta.vgaWorkspaceOffset == fb_layout.vga_workspace.start,
        meta.vgaWorkspaceSize == fb_layout.vga_workspace.end - fb_layout.vga_workspace.start,
        meta.bootCount == 0,
        meta.__bindgen_anon_2.is_zeroed(),
        meta.gspFwHeapVfPartitionCount == fb_layout.vf_partition_count,
        meta.flags == 0,
        meta.pagingConfig == 0,
        meta.pmuReservedSize == pmu_reserved_size,
        meta.verified == 0,
{
    GspFwWprMeta {
        magic: GSP_FW_WPR_META_MAGIC,
        revision: 1,
        sysmemAddrOfRadix3Elf: firmware.radix3,
        sizeOfRadix3Elf: firmware.size,
        sysmemAddrOfBootloader: firmware.bootloader,
        sizeOfBootloader: firmware.bootloader_size,
        bootloaderCodeOffset: firmware.code_offset as u64,
        bootloaderDataOffset: firmware.data_offset as u64,
        bootloaderManifestOffset: firmware.manifest_offset as u64,
        __bindgen_anon_1: GspFwWprMeta__bindgen_ty_1::First(
            GspFwWprMeta__bindgen_ty_1__bindgen_ty_1 {
                sysmemAddrOfSignature: firmware.signatures,
                sizeOfSignature: firmware.signatures_size,
            },
        ),
        gspFwRsvdStart: fb_layout.heap.start,
        nonWprHeapOffset: fb_layout.heap.start,
        nonWprHeapSize: fb_layout.heap.end - fb_layout.heap.start,
        gspFwWprStart: fb_layout.wpr2.start,
        gspFwHeapOffset: fb_layout.wpr2_heap.start,
        gspFwHeapSize: fb_layout.wpr2_heap.end - fb_layout.wpr2_heap.start,
        gspFwOffset: fb_layout.fw_image.start,
        bootBinOffset: fb_layout.boot.start,
        frtsOffset: fb_layout.frts.start,
        frtsSize: fb_layout.frts.end - fb_layout.frts.start,
        gspFwWprEnd: fb_layout.vga_workspace.start - fb_layout.vga_workspace.start % 0x2_0000,
        fbSize: fb_layout.fb.end - fb_layout.fb.start,
        vgaWorkspaceOffset: fb_layout.vga_workspace.start,
        vgaWorkspaceSize: fb_layout.vga_workspace.end - fb_layout.vga_workspace.start,
        bootCount: 0,
        __bindgen_anon_2: GspFwWprMeta__bindgen_ty_2::default(),
        gspFwHeapVfPartitionCount: fb_layout.vf_partition_count,
        flags: 0,
        pagingConfig: 0,
        pmuReservedSize: pmu_reserved_size,
        verified: 0,
    }
}

/// Function of a message exchanged with the GSP: a common function, or an event.
#[derive(Clone, Copy, Debug, PartialEq, Eq, Structural)]
pub enum MsgFunction {
    AllocChannelDma,
    AllocCtxDma,
    AllocDevice,
    AllocMemory,
    AllocObject,
    AllocRoot,
    BindCtxDma,
    ContinuationRecord,
    Free,
    GetGspStaticInfo,
    GetStaticInfo,
    GspInitPostObjGpu,
    GspRmControl,
    GspSetSystemInfo,
    Log,
    MapMemory,
    Nop,
    SetGuestSystemInfo,
    SetRegistry,
    GspInitDone,
    GspLockdownNotice,
    GspLoadExecGenericBootloader,
    GspLoadExecHsBinary,
    GspPostNoCat,
    MmuFaultQueued,
    OsErrorLog,
    PostEvent,
    RcTriggered,
    GpuacctPerfmonUtilSamples,
    UcodeLibOsPrint,
}

impl MsgFunction {
    /// The number of this function.
    pub open spec fn code(self) -> u32 {
        match self {
            MsgFunction::AllocChannelDma => 6,
            MsgFunction::AllocCtxDma => 5,
            MsgFunction::AllocDevice => 3,
            MsgFunction::AllocMemory => 4,
            MsgFunction::AllocObject => 9,
            MsgFunction::AllocRoot => 2,
            MsgFunction::BindCtxDma => 8,
            MsgFunction::ContinuationRecord => 71,
            MsgFunction::Free => 10,
            MsgFunction::GetGspStaticInfo => 65,
            MsgFunction::GetStaticInfo => 51,
            MsgFunction::GspInitPostObjGpu => 74,
            MsgFunction::GspRmControl => 76,
            MsgFunction::GspSetSystemInfo => 72,
            MsgFunction::Log => 11,
            MsgFunction::MapMemory => 7,
            MsgFunction::Nop => 0,
            MsgFunction::SetGuestSystemInfo => 1,
            MsgFunction::SetRegistry => 73,
            MsgFunction::GspInitDone => 0x1001,
            MsgFunction::GspLockdownNotice => 0x101c,
            MsgFunction::GspLoadExecGenericBootloader => 0x1026,
            MsgFunction::GspLoadExecHsBinary => 0x1027,
            MsgFunction::GspPostNoCat => 0x1020,
            MsgFunction::MmuFaultQueued => 0x1005,
            MsgFunction::OsErrorLog => 0x1006,
            MsgFunction::PostEvent => 0x1003,
            MsgFunction::RcTriggered => 0x1004,
            MsgFunction::GpuacctPerfmonUtilSamples => 0x1008,
            MsgFunction::UcodeLibOsPrint => 0x100c,
        }
    }

    /// The function of a number.
    pub open spec fn of_code(code: u32) -> Option<MsgFunction> {
        if code == 6 {
            Some(MsgFunction::AllocChannelDma)
        } else if code == 5 {
            Some(MsgFunction::AllocCtxDma)
        } else if code == 3 {
            Some(MsgFunction::AllocDevice)
        } else if code == 4 {
            Some(MsgFunction::AllocMemory)
        } else if code == 9 {
            Some(MsgFunction::AllocObject)
        } else if code == 2 {
            Some(MsgFunction::AllocRoot)
        } else if code == 8 {
            Some(MsgFunction::BindCtxDma)
        } else if code == 71 {
            Some(MsgFunction::ContinuationRecord)
        } else if code == 10 {
            Some(MsgFunction::Free)
        } else if code == 65 {
            Some(MsgFunction::GetGspStaticInfo)
        } else if code == 51 {
            Some(MsgFunction::GetStaticInfo)
        } else if code == 74 {
            Some(MsgFunction::GspInitPostObjGpu)
        } else if code == 76 {
            Some(MsgFunction::GspRmControl)
        } else if code == 72 {
            Some(MsgFunction::GspSetSystemInfo)
        } else if code == 11 {
            Some(MsgFunction::Log)
        } else if code == 7 {
            Some(MsgFunction::MapMemory)
        } else if code == 0 {
            Some(MsgFunction::Nop)
        } else if code == 1 {
            Some(MsgFunction::SetGuestSystemInfo)
        } else if code == 73 {
            Some(MsgFunction::SetRegistry)
        } else if code == 0x1001 {
            Some(MsgFunction::GspInitDone)
        } else if code == 0x101c {
            Some(MsgFunction::GspLockdownNotice)
        } else if code == 0x1026 {
            Some(MsgFunction::GspLoadExecGenericBootloader)
        } else if code == 0x1027 {
            Some(MsgFunction::GspLoadExecHsBinary)
        } else if code == 0x1020 {
            Some(MsgFunction::GspPostNoCat)
        } else if code == 0x1005 {
            Some(MsgFunction::MmuFaultQueued)
        } else if code == 0x1006 {
            Some(MsgFunction::OsErrorLog)
        } else if code == 0x1003 {
            Some(MsgFunction::PostEvent)
        } else if code == 0x1004 {
            Some(MsgFunction::RcTriggered)
        } else if code == 0x1008 {
            Some(MsgFunction::GpuacctPerfmonUtilSamples)
        } else if code == 0x100c {
            Some(MsgFunction::UcodeLibOsPrint)
        } else {
            None
        }
    }

    /// Returns the function of a number.
    pub fn try_from(value: u32) -> (function: Result<MsgFunction, Error>)
        ensures
            function == match MsgFunction::of_code(value) {
                Some(function) => Ok::<MsgFunction, Error>(function),
                None => Err(Error::EINVAL),
            },
    {
        match value {
            6 => Ok(MsgFunction::AllocChannelDma),
            5 => Ok(MsgFunction::AllocCtxDma),
            3 => Ok(MsgFunction::AllocDevice),
            4 => Ok(MsgFunction::AllocMemory),
            9 => Ok(MsgFunction::AllocObject),
            2 => Ok(MsgFunction::AllocRoot),
            8 => Ok(MsgFunction::BindCtxDma),
            71 => Ok(MsgFunction::ContinuationRecord),
            10 => Ok(MsgFunction::Free),
            65 => Ok(MsgFunction::GetGspStaticInfo),
            51 => Ok(MsgFunction::GetStaticInfo),
            74 => Ok(MsgFunction::GspInitPostObjGpu),
            76 => Ok(MsgFunction::GspRmControl),
            72 => Ok(MsgFunction::GspSetSystemInfo),
            11 => Ok(MsgFunction::Log),
            7 => Ok(MsgFunction::MapMemory),
            0 => Ok(MsgFunction::Nop),
            1 => Ok(MsgFunction::SetGuestSystemInfo),
            73 => Ok(MsgFunction::SetRegistry),
            0x1001 => Ok(MsgFunction::GspInitDone),
            0x101c => Ok(MsgFunction::GspLockdownNotice),
            0x1026 => Ok(MsgFunction::GspLoadExecGenericBootloader),
            0x1027 => Ok(MsgFunction::GspLoadExecHsBinary),
            0x1020 => Ok(MsgFunction::GspPostNoCat),
            0x1005 => Ok(MsgFunction::MmuFaultQueued),
            0x1006 => Ok(MsgFunction::OsErrorLog),
            0x1003 => Ok(MsgFunction::PostEvent),
            0x1004 => Ok(MsgFunction::RcTriggered),
            0x1008 => Ok(MsgFunction::GpuacctPerfmonUtilSamples),
            0x100c => Ok(MsgFunction::UcodeLibOsPrint),
            _ => Err(Error::EINVAL),
        }
    }

    /// Returns the number of this function.
    pub fn into_raw(self) -> (code: u32)
        ensures
            code == self.code(),
    {
        match self {
            MsgFunction::AllocChannelDma => 6,
            MsgFunction::AllocCtxDma => 5,
            MsgFunction::AllocDevice => 3,
            MsgFunction::AllocMemory => 4,
            MsgFunction::AllocObject => 9,
            MsgFunction::AllocRoot => 2,
            MsgFunction::BindCtxDma => 8,
            MsgFunction::ContinuationRecord => 71,
            MsgFunction::Free => 10,
            MsgFunction::GetGspStaticInfo => 65,
            MsgFunction::GetStaticInfo => 51,
            MsgFunction::GspInitPostObjGpu => 74,
            MsgFunction::GspRmControl => 76,
            MsgFunction::GspSetSystemInfo => 72,
            MsgFunction::Log => 11,
            MsgFunction::MapMemory => 7,
            MsgFunction::Nop => 0,
            MsgFunction::SetGuestSystemInfo => 1,
            MsgFunction::SetRegistry => 73,
            MsgFunction::GspInitDone => 0x1001,
            MsgFunction::GspLockdownNotice => 0x101c,
            MsgFunction::GspLoadExecGenericBootloader => 0x1026,
            MsgFunction::GspLoadExecHsBinary => 0x1027,
            MsgFunction::GspPostNoCat => 0x1020,
            MsgFunction::MmuFaultQueued => 0x1005,
            MsgFunction::OsErrorLog => 0x1006,
            MsgFunction::PostEvent => 0x1003,
            MsgFunction::RcTriggered => 0x1004,
            MsgFunction::GpuacctPerfmonUtilSamples => 0x1008,
            MsgFunction::UcodeLibOsPrint => 0x100c,
        }
    }

    /// Returns true if this is a GSP-initiated async event (NV_VGPU_MSG_EVENT_*), as opposed to
    /// a command response (NV_VGPU_MSG_FUNCTION_*). The numbers of the events start after 0x1000.
    pub fn is_event(&self) -> (event: bool)
        ensures
            event == (self.code() > 0x1000),
    {
        match *self {
            MsgFunction::GspInitDone
            | MsgFunction::GspLockdownNotice
            | MsgFunction::GspLoadExecGenericBootloader
            | MsgFunction::GspLoadExecHsBinary
            | MsgFunction::GspPostNoCat
            | MsgFunction::MmuFaultQueued
            | MsgFunction::OsErrorLog
            | MsgFunction::PostEvent
            | MsgFunction::RcTriggered
            | MsgFunction::GpuacctPerfmonUtilSamples
            | MsgFunction::UcodeLibOsPrint => true,
            _ => false,
        }
    }
}

/// The number of a function identifies it.
pub proof fn law_function_codes(function: MsgFunction, code: u32)
    ensures
        MsgFunction::of_code(function.code()) == Some(function),
        MsgFunction::of_code(code) matches Some(found) ==> found.code() == code,
{
}

/// Struct containing the arguments required to pass a memory buffer to the GSP
/// for use during initialisation.
///
/// The GSP only understands 4K pages (GSP_PAGE_SIZE), so even if the kernel is
/// configured for a larger page size (e.g. 64K pages), we need to give
/// the GSP an array of 4K pages. Since we only create physically contiguous
/// buffers the math to calculate the addresses is simple.
///
/// The buffers must be a multiple of GSP_PAGE_SIZE.  GSP-RM also currently
/// ignores the kind field for LOGINIT, LOGINTR, and LOGRM, but expects the
/// buffers to be physically contiguous anyway.
#[derive(Clone, Copy, Debug, PartialEq, Eq, Structural)]
pub struct LibosMemoryRegionInitArgument {
    /// Identifier of the region.
    pub id8: u64,
    /// Address of the region.
    pub pa: u64,
    /// Size of the region.
    pub size: u64,
    /// Kind of the region.
    pub kind: u8,
    /// Where the region is.
    pub loc: u8,
}

/// The number that the bytes of a name make, the first byte the highest.
pub open spec fn name_value(name: Seq<u8>) -> nat
    decreases name.len(),
{
    if name.len() == 0 {
        0
    } else {
        name_value(name.drop_last()) * 256 + name.last() as nat
    }
}

/// The `ID8` identifier of a name: the number that its last eight bytes make.
pub open spec fn spec_id8(name: Seq<u8>) -> nat {
    if name.len() <= 8 {
        name_value(name)
    } else {
        name_value(name.skip(name.len() - 8))
    }
}

/// The bound on the number that some bytes make.
proof fn lemma_name_value(name: Seq<u8>)
    requires
        name.len() <= 8,
    ensures
        name_value(name) < crate::bytes::pow256(name.len()),
    decreases name.len(),
{
    if name.len() > 0 {
        lemma_name_value(name.drop_last());
    }
}

/// Generates the `ID8` identifier required for some GSP objects.
pub fn id8(name: &[u8]) -> (id: u64)
    ensures
        id == spec_id8(name@),
{
    let total: usize = name.len();
    let start: usize = if total > 8 {
        total - 8
    } else {
        0
    };
    let ghost used = if name@.len() <= 8 {
        name@
    } else {
        name@.skip(name@.len() - 8)
    };
    let mut id: u64 = 0;
    let mut i: usize = start;
    while i < total
        invariant
            start <= i <= total,
            total - start <= 8,
            total == name@.len(),
            used == name@.skip(start as int),
            id == name_value(used.take(i - start)),
        decreases total - i,
    {
        proof {
            let next = used.take(i - start + 1);
            assert(next.drop_last() =~= used.take(i - start));
            assert(next.last() == name@[i as int]);
            lemma_name_value(used.take(i - start));
            crate::bytes::lemma_pow256_monotonic((i - start) as nat, 7);
            crate::bytes::lemma_pow256_values();
        }
        id = id * 256 + name[i] as u64;
        i = i + 1;
    }
    assert(used.take(total - start) =~= used);
    id
}

impl LibosMemoryRegionInitArgument {
    /// The argument that passes a buffer.
    pub open spec fn spec_new(name: Seq<u8>, pa: u64, size: u64) -> LibosMemoryRegionInitArgument {
        LibosMemoryRegionInitArgument { id8: spec_id8(name) as u64, pa, size, kind: 1, loc: 1 }
    }

    /// The argument that passes nothing.
    pub open spec fn spec_zeroed() -> LibosMemoryRegionInitArgument {
        LibosMemoryRegionInitArgument { id8: 0, pa: 0, size: 0, kind: 0, loc: 0 }
    }

    /// Returns the argument that passes the buffer at `pa` under `name`: contiguous, and in system
    /// memory.
    pub fn new(name: &[u8], pa: u64, size: u64) -> (argument: Self)
        ensures
            argument == LibosMemoryRegionInitArgument::spec_new(name@, pa, size),
    {
        LibosMemoryRegionInitArgument { id8: id8(name), pa, size, kind: 1, loc: 1 }
    }

    /// Returns the argument that passes nothing.
    pub fn zeroed() -> (argument: Self)
        ensures
            argument == LibosMemoryRegionInitArgument::spec_zeroed(),
    {
        LibosMemoryRegionInitArgument { id8: 0, pa: 0, size: 0, kind: 0, loc: 0 }
    }

    /// The bytes of the argument, 32 of them.
    pub open spec fn spec_bytes(self) -> Seq<u8> {
        le_bytes(self.id8 as nat, 8) + le_bytes(self.pa as nat, 8) + le_bytes(self.size as nat, 8)
            + seq![self.kind, self.loc] + zeros(6)
    }

    /// Returns the bytes of the argument.
    pub fn as_bytes(&self) -> (bytes: Vec<u8>)
        ensures
            bytes@ == self.spec_bytes(),
    {
        let mut bytes: Vec<u8> = Vec::new();
        push_le(&mut bytes, self.id8, 8);
        push_le(&mut bytes, self.pa, 8);
        push_le(&mut bytes, self.size, 8);
        let ghost before = bytes@;
        bytes.push(self.kind);
        bytes.push(self.loc);
        bytes.push(0);
        bytes.push(0);
        bytes.push(0);
        bytes.push(0);
        bytes.push(0);
        bytes.push(0);
        assert(bytes@ =~= before + seq![self.kind, self.loc] + zeros(6));
        bytes
    }
}

/// TX header for setting up a message queue with the GSP.
#[derive(Clone, Copy, Debug, PartialEq, Eq, Structural)]
pub struct MsgqTxHeader {
    pub version: u32,
    pub size: u32,
    pub msg_size: u32,
    pub msg_count: u32,
    pub write_ptr: u32,
    pub flags: u32,
    pub rx_hdr_off: u32,
    pub entry_off: u32,
}

impl MsgqTxHeader {
    /// Create a new TX queue header.
    ///
    /// # Arguments
    ///
    /// * `msgq_size` - Total size of the message queue structure, in bytes.
    /// * `rx_hdr_offset` - Offset, in bytes, of the start of the RX header in the message queue
    ///   structure.
    /// * `msg_count` - Number of messages that can be sent, i.e. the number of memory pages
    ///   allocated for the message queue in the message queue structure.
    pub fn new(msgq_size: u32, rx_hdr_offset: u32, msg_count: u32) -> (header: Self)
        ensures
            header == (MsgqTxHeader {
                version: 0,
                size: msgq_size,
                msg_size: 4096,
                msg_count,
                write_ptr: 0,
                flags: 1,
                rx_hdr_off: rx_hdr_offset,
                entry_off: 4096,
            }),
    {
        MsgqTxHeader {
            version: 0,
            size: msgq_size,
            msg_size: GSP_PAGE_SIZE as u32,
            msg_count,
            write_ptr: 0,
            flags: 1,
            rx_hdr_off: rx_hdr_offset,
            entry_off: GSP_PAGE_SIZE as u32,
        }
    }
}

/// RX header for setting up a message queue with the GSP.
#[derive(Clone, Copy, Debug, PartialEq, Eq, Structural)]
pub struct MsgqRxHeader {
    pub read_ptr: u32,
}

impl MsgqRxHeader {
    /// Creates a new RX queue header.
    pub fn new() -> (header: Self)
        ensures
            header.read_ptr == 0,
    {
        MsgqRxHeader { read_ptr: 0 }
    }
}

/// Header of an RPC message.
#[derive(Clone, Copy, Debug, PartialEq, Eq, Structural)]
pub struct RpcMessageHeader {
    pub header_version: u32,
    pub signature: u32,
    pub length: u32,
    pub function: u32,
    pub rpc_result: u32,
    pub rpc_result_private: u32,
    pub sequence: u32,
    pub spare: u32,
}

/// Size of [`RpcMessageHeader`] in bytes.
pub const RPC_HEADER_SIZE: usize = 32;

/// Version of the RPC header: major version 3 in bits 31:24, minor version 0 in bits 23:16.
pub const MSG_HEADER_VERSION: u32 = 0x0300_0000;

/// Value that marks a valid RPC header.
pub const NV_VGPU_MSG_SIGNATURE_VALID: u32 = 0x4350_5256;

impl RpcMessageHeader {
    /// The header of a command.
    pub open spec fn spec_init(cmd_size: usize, function: MsgFunction, sequence: u32)
        -> RpcMessageHeader {
        RpcMessageHeader {
            header_version: MSG_HEADER_VERSION,
            signature: NV_VGPU_MSG_SIGNATURE_VALID,
            length: (RPC_HEADER_SIZE + cmd_size) as u32,
            function: function.code(),
            rpc_result: 0xffff_ffff,
            rpc_result_private: 0xffff_ffff,
            sequence,
            spare: 0,
        }
    }

    /// Returns the header of a command of `cmd_size` bytes.
    pub fn init(cmd_size: usize, function: MsgFunction, sequence: u32) -> (header: Result<
        Self,
        Error,
    >)
        ensures
            header == if RPC_HEADER_SIZE + cmd_size > usize::MAX {
                Err::<RpcMessageHeader, Error>(Error::EOVERFLOW)
            } else if RPC_HEADER_SIZE + cmd_size > u32::MAX {
                Err(Error::EINVAL)
            } else {
                Ok(RpcMessageHeader::spec_init(cmd_size, function, sequence))
            },
    {
        let length: usize = match RPC_HEADER_SIZE.checked_add(cmd_size) {
            Some(length) => length,
            None => {
                return Err(Error::EOVERFLOW);
            },
        };
        if length as u64 > 0xffff_ffff {
            return Err(Error::EINVAL);
        }
        Ok(
            RpcMessageHeader {
                header_version: MSG_HEADER_VERSION,
                signature: NV_VGPU_MSG_SIGNATURE_VALID,
                length: length as u32,
                function: function.into_raw(),
                rpc_result: 0xffff_ffff,
                rpc_result_private: 0xffff_ffff,
                sequence,
                spare: 0,
            },
        )
    }

    /// The bytes of the header.
    pub open spec fn spec_bytes(self) -> Seq<u8> {
        le_bytes(self.header_version as nat, 4) + le_bytes(self.signature as nat, 4) + le_bytes(
            self.length as nat,
            4,
        ) + le_bytes(self.function as nat, 4) + le_bytes(self.rpc_result as nat, 4) + le_bytes(
            self.rpc_result_private as nat,
            4,
        ) + le_bytes(self.sequence as nat, 4) + le_bytes(self.spare as nat, 4)
    }
}

/// MCTP magic value identifying valid GSP message queue elements.
pub const MCTP_MAGIC: u32 = 0x4D43_5450;

/// The transport part of a message exchanged with the GSP, in MCTP/NVDM framing.
#[derive(Clone, Copy, Debug, PartialEq, Eq, Structural)]
pub struct MctpPrefix {
    pub mctp_magic: u32,
    pub mctp_payload_size: u32,
    pub mctp_header: u32,
    pub nvdm_header: u32,
    pub nvdm_payload_size: u32,
    pub reserved: u32,
}

/// Size of [`MctpPrefix`] in bytes.
pub const MCTP_PREFIX_SIZE: usize = 24;

impl MctpPrefix {
    /// The prefix of a message with `size` bytes after it.
    pub open spec fn spec_new(nvdm_type: u8, size: int) -> MctpPrefix {
        MctpPrefix {
            mctp_magic: MCTP_MAGIC,
            mctp_payload_size: (16 + size) as u32,
            mctp_header: transport_word(true, true, 0, 0, 0),
            nvdm_header: nvdm_word(nvdm_type),
            nvdm_payload_size: size as u32,
            reserved: 0,
        }
    }

    /// Returns the prefix of a message with `size` bytes after it.
    pub fn new(nvdm_type: u8, size: usize) -> (prefix: Self)
        requires
            size + 16 <= usize::MAX,
        ensures
            prefix == MctpPrefix::spec_new(nvdm_type, size as int),
    {
        MctpPrefix {
            mctp_magic: MCTP_MAGIC,
            mctp_payload_size: (16 + size) as u32,
            mctp_header: TransportHeader::new(true, true, 0, 0, 0).raw,
            nvdm_header: NvdmHeader::new(nvdm_type).raw,
            nvdm_payload_size: size as u32,
            reserved: 0,
        }
    }

    /// Returns the total length of the message, transport and inner headers included.
    pub fn length(&self) -> (length: usize)
        requires
            8 + self.mctp_payload_size <= usize::MAX,
        ensures
            length == 8 + self.mctp_payload_size,
    {
        8 + self.mctp_payload_size as usize
    }

    /// Returns the length of what comes after an inner header of `header_size` bytes.
    pub fn payload_length(&self, header_size: usize) -> (length: usize)
        ensures
            length == if self.nvdm_payload_size >= header_size {
                self.nvdm_payload_size - header_size
            } else {
                0
            },
    {
        (self.nvdm_payload_size as usize).saturating_sub(header_size)
    }

    /// Returns `true` if the MCTP magic field contains the expected value.
    pub fn has_valid_magic(&self) -> (valid: bool)
        ensures
            valid == (self.mctp_magic == MCTP_MAGIC),
    {
        self.mctp_magic == MCTP_MAGIC
    }

    /// The number of memory pages that the message takes.
    pub open spec fn pages(self) -> int {
        (8 + self.mctp_payload_size + GSP_PAGE_SIZE - 1) / GSP_PAGE_SIZE as int
    }

    /// Returns the number of elements (i.e. memory pages) used by this message.
    pub fn element_count(&self) -> (count: u32)
        ensures
            count == self.pages(),
    {
        let length: u64 = 8 + self.mctp_payload_size as u64;
        ((length + (GSP_PAGE_SIZE as u64 - 1)) / GSP_PAGE_SIZE as u64) as u32
    }

    /// The bytes of the prefix.
    pub open spec fn spec_bytes(self) -> Seq<u8> {
        le_bytes(self.mctp_magic as nat, 4) + le_bytes(self.mctp_payload_size as nat, 4)
            + le_bytes(self.mctp_header as nat, 4) + le_bytes(self.nvdm_header as nat, 4)
            + le_bytes(self.nvdm_payload_size as nat, 4) + le_bytes(self.reserved as nat, 4)
    }

    /// Appends the bytes of the prefix.
    fn push_bytes(&self, bytes: &mut Vec<u8>)
        ensures
            final(bytes)@ == old(bytes)@ + self.spec_bytes(),
    {
        let ghost before = bytes@;
        push_le(bytes, self.mctp_magic as u64, 4);
        push_le(bytes, self.mctp_payload_size as u64, 4);
        push_le(bytes, self.mctp_header as u64, 4);
        push_le(bytes, self.nvdm_header as u64, 4);
        push_le(bytes, self.nvdm_payload_size as u64, 4);
        push_le(bytes, self.reserved as u64, 4);
        assert(bytes@ =~= before + self.spec_bytes());
    }
}

/// GSP Message Element (MCTP/NVDM format).
///
/// This is the transport-layer header for messages exchanged with GSP-RM.
#[derive(Clone, Copy, Debug, PartialEq, Eq, Structural)]
pub struct GspMsgElement {
    pub prefix: MctpPrefix,
    pub rpc: RpcMessageHeader,
}

impl GspMsgElement {
    /// Creates a new message element.
    ///
    /// # Arguments
    ///
    /// * `rpc_seq` - RPC-level sequence number of the RPC header.
    ///   Set to 0 for async (fire-and-forget) commands, or to the sequence counter
    ///   for command/response pairs.
    /// * `cmd_size` - Size of the command (not including the message element), in bytes.
    /// * `function` - Function of the message.
    pub fn init(rpc_seq: u32, cmd_size: usize, function: MsgFunction) -> (element: Result<
        Self,
        Error,
    >)
        requires
            48 + cmd_size <= usize::MAX,
        ensures
            element == if RPC_HEADER_SIZE + cmd_size > u32::MAX {
                Err::<GspMsgElement, Error>(Error::EINVAL)
            } else {
                Ok(
                    GspMsgElement {
                        prefix: MctpPrefix::spec_new(NVDM_TYPE_RM_RPC, RPC_HEADER_SIZE + cmd_size),
                        rpc: RpcMessageHeader::spec_init(cmd_size, function, rpc_seq),
                    },
                )
            },
    {
        let prefix = MctpPrefix::new(NVDM_TYPE_RM_RPC, RPC_HEADER_SIZE + cmd_size);
        match RpcMessageHeader::init(cmd_size, function, rpc_seq) {
            Ok(rpc) => Ok(GspMsgElement { prefix, rpc }),
            Err(error) => Err(error),
        }
    }

    /// Returns the length of the message's payload (command data after the RPC header).
    pub fn payload_length(&self) -> (length: usize)
        ensures
            length == if self.prefix.nvdm_payload_size >= 32 {
                self.prefix.nvdm_payload_size - 32
            } else {
                0
            },
    {
        self.prefix.payload_length(RPC_HEADER_SIZE)
    }

    /// Returns the total length of the message, transport and RPC headers included.
    pub fn length(&self) -> (length: usize)
        requires
            8 + self.prefix.mctp_payload_size <= usize::MAX,
        ensures
            length == 8 + self.prefix.mctp_payload_size,
    {
        self.prefix.length()
    }

    /// Returns `true` if the MCTP magic field contains the expected value.
    pub fn has_valid_magic(&self) -> (valid: bool)
        ensures
            valid == (self.prefix.mctp_magic == MCTP_MAGIC),
    {
        self.prefix.has_valid_magic()
    }

    /// Returns the sequence number of the message.
    pub fn sequence(&self) -> (sequence: u32)
        ensures
            sequence == self.rpc.sequence,
    {
        self.rpc.sequence
    }

    /// Returns the function of the message, if it is valid, or the invalid function number as an
    /// error.
    pub fn function(&self) -> (function: Result<MsgFunction, u32>)
        ensures
            function == match MsgFunction::of_code(self.rpc.function) {
                Some(function) => Ok::<MsgFunction, u32>(function),
                None => Err(self.rpc.function),
            },
    {
        match MsgFunction::try_from(self.rpc.function) {
            Ok(function) => Ok(function),
            Err(_) => Err(self.rpc.function),
        }
    }

    /// Returns the number of elements (i.e. memory pages) used by this message.
    pub fn element_count(&self) -> (count: u32)
        ensures
            count == self.prefix.pages(),
    {
        self.prefix.element_count()
    }

    /// Returns the bytes of the element.
    pub fn as_bytes(&self) -> (bytes: Vec<u8>)
        ensures
            bytes@ == self.prefix.spec_bytes() + self.rpc.spec_bytes(),
    {
        let mut bytes: Vec<u8> = Vec::new();
        self.prefix.push_bytes(&mut bytes);
        push_le(&mut bytes, self.rpc.header_version as u64, 4);
        push_le(&mut bytes, self.rpc.signature as u64, 4);
        push_le(&mut bytes, self.rpc.length as u64, 4);
        push_le(&mut bytes, self.rpc.function as u64, 4);
        push_le(&mut bytes, self.rpc.rpc_result as u64, 4);
        push_le(&mut bytes, self.rpc.rpc_result_private as u64, 4);
        push_le(&mut bytes, self.rpc.sequence as u64, 4);
        push_le(&mut bytes, self.rpc.spare as u64, 4);
        assert(bytes@ =~= self.prefix.spec_bytes() + self.rpc.spec_bytes());
        bytes
    }
}

/// A message element says how long the message and its command are, and which function and sequence
/// number it was made with.
pub proof fn law_message_element(cmd_size: usize, function: MsgFunction, sequence: u32)
    requires
        RPC_HEADER_SIZE + MCTP_PREFIX_SIZE + cmd_size <= u32::MAX,
    ensures
        ({
            let prefix = MctpPrefix::spec_new(NVDM_TYPE_RM_RPC, RPC_HEADER_SIZE + cmd_size);
            let rpc = RpcMessageHeader::spec_init(cmd_size, function, sequence);
            &&& prefix.mctp_magic == MCTP_MAGIC
            &&& 8 + prefix.mctp_payload_size == prefix.spec_bytes().len() + rpc.spec_bytes().len()
                + cmd_size
            &&& prefix.nvdm_payload_size - RPC_HEADER_SIZE == cmd_size
            &&& rpc.length == rpc.spec_bytes().len() + cmd_size
            &&& MsgFunction::of_code(rpc.function) == Some(function)
            &&& rpc.sequence == sequence
        }),
{
    let prefix = MctpPrefix::spec_new(NVDM_TYPE_RM_RPC, RPC_HEADER_SIZE + cmd_size);
    let rpc = RpcMessageHeader::spec_init(cmd_size, function, sequence);
    law_function_codes(function, 0);
    lemma_le_bytes_len(prefix.mctp_magic as nat, 4);
    lemma_le_bytes_len(prefix.mctp_payload_size as nat, 4);
    lemma_le_bytes_len(prefix.mctp_header as nat, 4);
    lemma_le_bytes_len(prefix.nvdm_header as nat, 4);
    lemma_le_bytes_len(prefix.nvdm_payload_size as nat, 4);
    lemma_le_bytes_len(prefix.reserved as nat, 4);
    lemma_le_bytes_len(rpc.header_version as nat, 4);
    lemma_le_bytes_len(rpc.signature as nat, 4);
    lemma_le_bytes_len(rpc.length as nat, 4);
    lemma_le_bytes_len(rpc.function as nat, 4);
    lemma_le_bytes_len(rpc.rpc_result as nat, 4);
    lemma_le_bytes_len(rpc.rpc_result_private as nat, 4);
    lemma_le_bytes_len(rpc.sequence as nat, 4);
    lemma_le_bytes_len(rpc.spare as nat, 4);
}

/// GMC API message header.
///
/// The two middle `u32` fields have two readings: for requests they carry the size and the maximum
/// response size, for responses they carry the status and the size.
#[derive(Clone, Copy, Debug, PartialEq, Eq, Structural)]
pub struct GmcApiHeader {
    /// GMC command identifier.
    pub command_id: u32,
    pub reserved1: u32,
    /// Sequence number for matching requests to responses.
    pub sequence: u64,
    /// Request: payload size in bytes. Response: `NV_STATUS` code.
    pub size_or_status: u32,
    /// Request: maximum response size. Response: actual response size.
    pub max_resp_or_resp_size: u32,
    pub reserved2: u64,
}

/// Size of [`GmcApiHeader`] in bytes.
pub const GMC_API_HEADER_SIZE: usize = 32;

impl GmcApiHeader {
    /// The bytes of the header.
    pub open spec fn spec_bytes(self) -> Seq<u8> {
        le_bytes(self.command_id as nat, 4) + le_bytes(self.reserved1 as nat, 4) + le_bytes(
            self.sequence as nat,
            8,
        ) + le_bytes(self.size_or_status as nat, 4) + le_bytes(
            self.max_resp_or_resp_size as nat,
            4,
        ) + le_bytes(self.reserved2 as nat, 8)
    }
}

/// GSP GMC Message Element (MCTP/NVDM format).
///
/// Same transport prefix as [`GspMsgElement`] but with a [`GmcApiHeader`] instead of the RPC header.
/// The NVDM header carries the type of the GMC API to route the message through the GSP GMC
/// dispatch path.
#[derive(Clone, Copy, Debug, PartialEq, Eq, Structural)]
pub struct GspGmcMsgElement {
    pub prefix: MctpPrefix,
    pub gmc: GmcApiHeader,
}

impl GspGmcMsgElement {
    /// Creates a new GMC message element.
    ///
    /// `payload_size` is the size of the command payload following this header.
    /// `command_id` is the GMC command identifier.
    /// `sequence` is the sequence number for request/response matching.
    /// `max_response_size` is the maximum expected response payload size.
    pub fn init(command_id: u32, sequence: u64, payload_size: usize, max_response_size: u32)
        -> (element: Self)
        requires
            48 + payload_size <= usize::MAX,
        ensures
            element == (GspGmcMsgElement {
                prefix: MctpPrefix::spec_new(NVDM_TYPE_GMCAPI, GMC_API_HEADER_SIZE + payload_size),
                gmc: GmcApiHeader {
                    command_id,
                    reserved1: 0,
                    sequence,
                    size_or_status: payload_size as u32,
                    max_resp_or_resp_size: max_response_size,
                    reserved2: 0,
                },
            }),
    {
        GspGmcMsgElement {
            prefix: MctpPrefix::new(NVDM_TYPE_GMCAPI, GMC_API_HEADER_SIZE + payload_size),
            gmc: GmcApiHeader {
                command_id,
                reserved1: 0,
                sequence,
                size_or_status: payload_size as u32,
                max_resp_or_resp_size: max_response_size,
                reserved2: 0,
            },
        }
    }

    /// Returns the length of the response payload (data after the [`GmcApiHeader`]).
    pub fn payload_length(&self) -> (length: usize)
        ensures
            length == if self.prefix.nvdm_payload_size >= 32 {
                self.prefix.nvdm_payload_size - 32
            } else {
                0
            },
    {
        self.prefix.payload_length(GMC_API_HEADER_SIZE)
    }

    /// Returns the total length of the message, transport and GMC headers included.
    pub fn length(&self) -> (length: usize)
        requires
            8 + self.prefix.mctp_payload_size <= usize::MAX,
        ensures
            length == 8 + self.prefix.mctp_payload_size,
    {
        self.prefix.length()
    }

    /// Returns `true` if the MCTP magic field contains the expected value.
    pub fn has_valid_magic(&self) -> (valid: bool)
        ensures
            valid == (self.prefix.mctp_magic == MCTP_MAGIC),
    {
        self.prefix.has_valid_magic()
    }

    /// Returns the number of elements (i.e. memory pages) used by this message.
    pub fn element_count(&self) -> (count: u32)
        ensures
            count == self.prefix.pages(),
    {
        self.prefix.element_count()
    }

    /// Returns the bytes of the element.
    pub fn as_bytes(&self) -> (bytes: Vec<u8>)
        ensures
            bytes@ == self.prefix.spec_bytes() + self.gmc.spec_bytes(),
    {
        let mut bytes: Vec<u8> = Vec::new();
        self.prefix.push_bytes(&mut bytes);
        push_le(&mut bytes, self.gmc.command_id as u64, 4);
        push_le(&mut bytes, self.gmc.reserved1 as u64, 4);
        push_le(&mut bytes, self.gmc.sequence, 8);
        push_le(&mut bytes, self.gmc.size_or_status as u64, 4);
        push_le(&mut bytes, self.gmc.max_resp_or_resp_size as u64, 4);
        push_le(&mut bytes, self.gmc.reserved2, 8);
        assert(bytes@ =~= self.prefix.spec_bytes() + self.gmc.spec_bytes());
        bytes
    }
}

/// Optional bindata (ucodes) firmware info for GSP startup arguments.
#[derive(Clone, Copy, Debug, PartialEq, Eq, Structural)]
pub struct BindataArgs {
    /// DMA address of the radix3 level 0 page table for the bindata firmware.
    pub radix3: u64,
    /// Size in bytes of the bindata firmware.
    pub size: u64,
}

/// Where the command queue is, and where its parts are in it.
#[derive(Clone, Copy, Debug, PartialEq, Eq, Structural)]
pub struct CmdqLayout {
    /// Address of the command queue.
    pub dma_handle: u64,
    /// Number of pages it is mapped with.
    pub num_ptes: u32,
    /// Offset of the CPU-to-GSP queue.
    pub cmdq_offset: u64,
    /// Offset of the GSP-to-CPU queue.
    pub statq_offset: u64,
}

/// Magic value for the startup arguments header.
pub const GSP_ARGUMENTS_MAGIC_VALUE: u32 = 0x2050_5347;

/// Flag indicating the GSP stack should be placed in DMEM.
pub const GSP_ARGUMENTS_FLAG_STACK_IN_DMEM: u64 = 0x02;

/// Size of the startup arguments in bytes.
pub const GSP_ARGUMENTS_SIZE: u16 = 184;

/// Whether the init arguments of the message queue describe `cmdq`.
pub open spec fn queue_arguments_for(args: MESSAGE_QUEUE_INIT_ARGUMENTS, cmdq: CmdqLayout) -> bool {
    &&& args.flags == 0
    &&& args.sharedMemPhysAddr == cmdq.dma_handle
    &&& args.cmdQueueOffset == cmdq.cmdq_offset
    &&& args.statQueueOffset == cmdq.statq_offset
    &&& args.queueElementHdrSize == MCTP_PREFIX_SIZE
    &&& args.queueElementSizeMin == 4096
    &&& args.queueElementSizeMax == 65536
    &&& args.queueHeaderAlign == 4
    &&& args.queueElementAlign == 12
    &&& args.pageTableEntryCount == cmdq.num_ptes
    &&& forall|i: int| 0 <= i < 8 ==> args.reserved[i] == 0
}

/// Creates a new init arguments structure for `cmdq`.
pub fn message_queue_init_arguments(cmdq: CmdqLayout) -> (args: MESSAGE_QUEUE_INIT_ARGUMENTS)
    ensures
        queue_arguments_for(args, cmdq),
{
    MESSAGE_QUEUE_INIT_ARGUMENTS {
        flags: 0,
        sharedMemPhysAddr: cmdq.dma_handle,
        cmdQueueOffset: cmdq.cmdq_offset,
        statQueueOffset: cmdq.statq_offset,
        queueElementHdrSize: MCTP_PREFIX_SIZE as u32,
        queueElementSizeMin: GSP_PAGE_SIZE as u32,
        queueElementSizeMax: (GSP_PAGE_SIZE * 16) as u32,
        queueHeaderAlign: 4,
        queueElementAlign: 12,
        pageTableEntryCount: cmdq.num_ptes,
        reserved: [0;8],
    }
}

/// Creates the arguments for starting the GSP up using `cmdq` as its command queue.
///
/// If `bindata` is provided, the GSP will be told where to find the ucodes firmware.
///
/// `state_monitor` is the address of the RM state monitor buffer, and `state_monitor_size` its size.
/// GSP-RM maps this buffer during init for diagnostics.
pub fn gsp_arguments_cached(
    cmdq: CmdqLayout,
    bindata: Option<BindataArgs>,
    state_monitor: u64,
    state_monitor_size: u64,
) -> (args: GSP_ARGUMENTS_CACHED)
    ensures
        args.magic == GSP_ARGUMENTS_MAGIC_VALUE,
        args.size == GSP_ARGUMENTS_SIZE,
        forall|i: int| 0 <= i < 2 ==> args.reserved[i] == 0,
        args.flags == GSP_ARGUMENTS_FLAG_STACK_IN_DMEM,
        queue_arguments_for(args.messageQueueInitArguments, cmdq),
        args.srInitArguments.is_zeroed(),
        forall|i: int| 0 <= i < 4 ==> args.reserved2[i] == 0,
        args.gpuInstance == 0,
        args.profilerArgs.is_zeroed(),
        args.sysmemHeapArgs.is_zeroed(),
        args.rmStateMonitorBufferArgs.pa == state_monitor,
        args.rmStateMonitorBufferArgs.size == state_monitor_size,
        match bindata {
            Some(bindata) => {
                &&& args.bindataArgs.radix3 == bindata.radix3
                &&& args.bindataArgs.size == bindata.size
            },
            None => args.bindataArgs.is_zeroed(),
        },
        args.vbiosOverrideArgs.is_zeroed(),
{
    let mut args = GSP_ARGUMENTS_CACHED::default();
    args.magic = GSP_ARGUMENTS_MAGIC_VALUE;
    args.size = GSP_ARGUMENTS_SIZE;
    args.flags = GSP_ARGUMENTS_FLAG_STACK_IN_DMEM;
    args.messageQueueInitArguments = message_queue_init_arguments(cmdq);
    if let Some(bindata) = bindata {
        args.bindataArgs =
        GSP_ARGUMENTS_CACHED__bindgen_ty_4 { radix3: bindata.radix3, size: bindata.size };
    }
    args.rmStateMonitorBufferArgs =
    GSP_ARGUMENTS_CACHED__bindgen_ty_3 { pa: state_monitor, size: state_monitor_size };
    args
}

/// What the SR-IOV extended capability of a PCI device says.
#[derive(Clone, Copy, Debug)]
pub struct SriovCapability {
    /// Number of virtual functions, as the PCI core reports it.
    pub total_vfs: i32,
    /// Offset of the first virtual function.
    pub vf_offset: u16,
    /// First BAR of the virtual functions.
    pub vf_bar0: u32,
    /// Whether the BAR that starts at index 1 is a 64-bit BAR, and its address.
    pub vf_bar1: (bool, u64),
    /// Whether the BAR that starts at index 3 is a 64-bit BAR, and its address.
    pub vf_bar3: (bool, u64),
}

/// Builds the VF information required by GSP firmware from the SR-IOV capability of the device. A
/// negative number of virtual functions counts as none.
pub fn vf_info(sriov: SriovCapability) -> (info: GSP_VF_INFO)
    ensures
        info.totalVFs == if sriov.total_vfs >= 0 {
            sriov.total_vfs as int
        } else {
            0
        },
        info.firstVFOffset == sriov.vf_offset,
        info.FirstVFBar0Address == sriov.vf_bar0,
        info.FirstVFBar1Address == sriov.vf_bar1.1,
        info.FirstVFBar2Address == sriov.vf_bar3.1,
        info.b64bitBar0 == 0,
        info.b64bitBar1 == if sriov.vf_bar1.0 {
            1int
        } else {
            0
        },
        info.b64bitBar2 == if sriov.vf_bar3.0 {
            1int
        } else {
            0
        },
        forall|i: int| 0 <= i < 5 ==> info.__bindgen_padding_0[i] == 0,
{
    let total_vfs: u32 = if sriov.total_vfs >= 0 {
        sriov.total_vfs as u32
    } else {
        0
    };
    GSP_VF_INFO {
        totalVFs: total_vfs,
        firstVFOffset: sriov.vf_offset as u32,
        FirstVFBar0Address: sriov.vf_bar0 as u64,
        FirstVFBar1Address: sriov.vf_bar1.1,
        FirstVFBar2Address: sriov.vf_bar3.1,
        b64bitBar0: 0,
        b64bitBar1: if sriov.vf_bar1.0 {
            1
        } else {
            0
        },
        b64bitBar2: if sriov.vf_bar3.0 {
            1
        } else {
            0
        },
        __bindgen_padding_0: [0;5],
    }
}

/// The bytes of a message element are its 32-bit fields one after the other, lowest byte first: the
/// magic number at 0, the sizes and headers of the transport after it, and the RPC header from 24 on,
/// with its length at 32, its function at 36 and its sequence number at 48.
pub proof fn law_message_element_bytes(prefix: MctpPrefix, rpc: RpcMessageHeader)
    ensures
        ({
            let bytes = prefix.spec_bytes() + rpc.spec_bytes();
            &&& bytes.len() == 56
            &&& le_value(bytes.subrange(0, 4)) == prefix.mctp_magic
            &&& le_value(bytes.subrange(4, 8)) == prefix.mctp_payload_size
            &&& le_value(bytes.subrange(8, 12)) == prefix.mctp_header
            &&& le_value(bytes.subrange(12, 16)) == prefix.nvdm_header
            &&& le_value(bytes.subrange(16, 20)) == prefix.nvdm_payload_size
            &&& le_value(bytes.subrange(20, 24)) == prefix.reserved
            &&& le_value(bytes.subrange(24, 28)) == rpc.header_version
            &&& le_value(bytes.subrange(28, 32)) == rpc.signature
            &&& le_value(bytes.subrange(32, 36)) == rpc.length
            &&& le_value(bytes.subrange(36, 40)) == rpc.function
            &&& le_value(bytes.subrange(40, 44)) == rpc.rpc_result
            &&& le_value(bytes.subrange(44, 48)) == rpc.rpc_result_private
            &&& le_value(bytes.subrange(48, 52)) == rpc.sequence
            &&& le_value(bytes.subrange(52, 56)) == rpc.spare
        }),
{
    let bytes = prefix.spec_bytes() + rpc.spec_bytes();
    lemma_pow256_values();
    lemma_le_bytes_len(prefix.mctp_magic as nat, 4);
    lemma_le_bytes_len(prefix.mctp_payload_size as nat, 4);
    lemma_le_bytes_len(prefix.mctp_header as nat, 4);
    lemma_le_bytes_len(prefix.nvdm_header as nat, 4);
    lemma_le_bytes_len(prefix.nvdm_payload_size as nat, 4);
    lemma_le_bytes_len(prefix.reserved as nat, 4);
    lemma_le_bytes_len(rpc.header_version as nat, 4);
    lemma_le_bytes_len(rpc.signature as nat, 4);
    lemma_le_bytes_len(rpc.length as nat, 4);
    lemma_le_bytes_len(rpc.function as nat, 4);
    lemma_le_bytes_len(rpc.rpc_result as nat, 4);
    lemma_le_bytes_len(rpc.rpc_result_private as nat, 4);
    lemma_le_bytes_len(rpc.sequence as nat, 4);
    lemma_le_bytes_len(rpc.spare as nat, 4);
    assert(bytes.subrange(0, 4) =~= le_bytes(prefix.mctp_magic as nat, 4));
    lemma_number_at(bytes, 0, prefix.mctp_magic as nat, 4);
    assert(bytes.subrange(4, 8) =~= le_bytes(prefix.mctp_payload_size as nat, 4));
    lemma_number_at(bytes, 4, prefix.mctp_payload_size as nat, 4);
    assert(bytes.subrange(8, 12) =~= le_bytes(prefix.mctp_header as nat, 4));
    lemma_number_at(bytes, 8, prefix.mctp_header as nat, 4);
    assert(bytes.subrange(12, 16) =~= le_bytes(prefix.nvdm_header as nat, 4));
    lemma_number_at(bytes, 12, prefix.nvdm_header as nat, 4);
    assert(bytes.subrange(16, 20) =~= le_bytes(prefix.nvdm_payload_size as nat, 4));
    lemma_number_at(bytes, 16, prefix.nvdm_payload_size as nat, 4);
    assert(bytes.subrange(20, 24) =~= le_bytes(prefix.reserved as nat, 4));
    lemma_number_at(bytes, 20, prefix.reserved as nat, 4);
    assert(bytes.subrange(24, 28) =~= le_bytes(rpc.header_version as nat, 4));
    lemma_number_at(bytes, 24, rpc.header_version as nat, 4);
    assert(bytes.subrange(28, 32) =~= le_bytes(rpc.signature as nat, 4));
    lemma_number_at(bytes, 28, rpc.signature as nat, 4);
    assert(bytes.subrange(32, 36) =~= le_bytes(rpc.length as nat, 4));
    lemma_number_at(bytes, 32, rpc.length as nat, 4);
    assert(bytes.subrange(36, 40) =~= le_bytes(rpc.function as nat, 4));
    lemma_number_at(bytes, 36, rpc.function as nat, 4);
    assert(bytes.subrange(40, 44) =~= le_bytes(rpc.rpc_result as nat, 4));
    lemma_number_at(bytes, 40, rpc.rpc_result as nat, 4);
    assert(bytes.subrange(44, 48) =~= le_bytes(rpc.rpc_result_private as nat, 4));
    lemma_number_at(bytes, 44, rpc.rpc_result_private as nat, 4);
    assert(bytes.subrange(48, 52) =~= le_bytes(rpc.sequence as nat, 4));
    lemma_number_at(bytes, 48, rpc.sequence as nat, 4);
    assert(bytes.subrange(52, 56) =~= le_bytes(rpc.spare as nat, 4));
    lemma_number_at(bytes, 52, rpc.spare as nat, 4);
}

/// The bytes of a GMC message element are its fields one after the other, lowest byte first: the
/// transport as in an RPC message, then the command at 24, the 64-bit sequence number at 32, the size
/// or status at 40 and the response size at 44.
pub proof fn law_gmc_message_element_bytes(prefix: MctpPrefix, gmc: GmcApiHeader)
    ensures
        ({
            let bytes = prefix.spec_bytes() + gmc.spec_bytes();
            &&& bytes.len() == 56
            &&& le_value(bytes.subrange(0, 4)) == prefix.mctp_magic
            &&& le_value(bytes.subrange(4, 8)) == prefix.mctp_payload_size
            &&& le_value(bytes.subrange(8, 12)) == prefix.mctp_header
            &&& le_value(bytes.subrange(12, 16)) == prefix.nvdm_header
            &&& le_value(bytes.subrange(16, 20)) == prefix.nvdm_payload_size
            &&& le_value(bytes.subrange(20, 24)) == prefix.reserved
            &&& le_value(bytes.subrange(24, 28)) == gmc.command_id
            &&& le_value(bytes.subrange(28, 32)) == gmc.reserved1
            &&& le_value(bytes.subrange(32, 40)) == gmc.sequence
            &&& le_value(bytes.subrange(40, 44)) == gmc.size_or_status
            &&& le_value(bytes.subrange(44, 48)) == gmc.max_resp_or_resp_size
            &&& le_value(bytes.subrange(48, 56)) == gmc.reserved2
        }),
{
    let bytes = prefix.spec_bytes() + gmc.spec_bytes();
    lemma_pow256_values();
    lemma_le_bytes_len(prefix.mctp_magic as nat, 4);
    lemma_le_bytes_len(prefix.mctp_payload_size as nat, 4);
    lemma_le_bytes_len(prefix.mctp_header as nat, 4);
    lemma_le_bytes_len(prefix.nvdm_header as nat, 4);
    lemma_le_bytes_len(prefix.nvdm_payload_size as nat, 4);
    lemma_le_bytes_len(prefix.reserved as nat, 4);
    lemma_le_bytes_len(gmc.command_id as nat, 4);
    lemma_le_bytes_len(gmc.reserved1 as nat, 4);
    lemma_le_bytes_len(gmc.sequence as nat, 8);
    lemma_le_bytes_len(gmc.size_or_status as nat, 4);
    lemma_le_bytes_len(gmc.max_resp_or_resp_size as nat, 4);
    lemma_le_bytes_len(gmc.reserved2 as nat, 8);
    assert(bytes.subrange(0, 4) =~= le_bytes(prefix.mctp_magic as nat, 4));
    lemma_number_at(bytes, 0, prefix.mctp_magic as nat, 4);
    assert(bytes.subrange(4, 8) =~= le_bytes(prefix.mctp_payload_size as nat, 4));
    lemma_number_at(bytes, 4, prefix.mctp_payload_size as nat, 4);
    assert(bytes.subrange(8, 12) =~= le_bytes(prefix.mctp_header as nat, 4));
    lemma_number_at(bytes, 8, prefix.mctp_header as nat, 4);
    assert(bytes.subrange(12, 16) =~= le_bytes(prefix.nvdm_header as nat, 4));
    lemma_number_at(bytes, 12, prefix.nvdm_header as nat, 4);
    assert(bytes.subrange(16, 20) =~= le_bytes(prefix.nvdm_payload_size as nat, 4));
    lemma_number_at(bytes, 16, prefix.nvdm_payload_size as nat, 4);
    assert(bytes.subrange(20, 24) =~= le_bytes(prefix.reserved as nat, 4));
    lemma_number_at(bytes, 20, prefix.reserved as nat, 4);
    assert(bytes.subrange(24, 28) =~= le_bytes(gmc.command_id as nat, 4));
    lemma_number_at(bytes, 24, gmc.command_id as nat, 4);
    assert(bytes.subrange(28, 32) =~= le_bytes(gmc.reserved1 as nat, 4));
    lemma_number_at(bytes, 28, gmc.reserved1 as nat, 4);
    assert(bytes.subrange(32, 40) =~= le_bytes(gmc.sequence as nat, 8));
    lemma_number_at(bytes, 32, gmc.sequence as nat, 8);
    assert(bytes.subrange(40, 44) =~= le_bytes(gmc.size_or_status as nat, 4));
    lemma_number_at(bytes, 40, gmc.size_or_status as nat, 4);
    assert(bytes.subrange(44, 48) =~= le_bytes(gmc.max_resp_or_resp_size as nat, 4));
    lemma_number_at(bytes, 44, gmc.max_resp_or_resp_size as nat, 4);
    assert(bytes.subrange(48, 56) =~= le_bytes(gmc.reserved2 as nat, 8));
    lemma_number_at(bytes, 48, gmc.reserved2 as nat, 8);
}

/// What the headers of a command hold: the magic number, the size of all that comes after the first
/// eight bytes, one packet of the given NVDM type, the size of all that comes after the prefix, and
/// in the RPC header the version, the signature, its own length with that of the command, the number
/// of the function, no result yet and the sequence number.
pub proof fn law_headers_of_command(
    nvdm_type: u8,
    cmd_size: usize,
    function: MsgFunction,
    sequence: u32,
)
    requires
        48 + cmd_size <= u32::MAX,
    ensures
        ({
            let prefix = MctpPrefix::spec_new(nvdm_type, 32 + cmd_size);
            &&& prefix.mctp_magic == 0x4d43_5450
            &&& prefix.mctp_payload_size == 48 + cmd_size
            &&& prefix.mctp_header == 0xc000_0001
            &&& prefix.nvdm_header == 0x10_de7e + nvdm_type * 0x100_0000
            &&& prefix.nvdm_payload_size == 32 + cmd_size
            &&& prefix.reserved == 0
        }),
        ({
            let rpc = RpcMessageHeader::spec_init(cmd_size, function, sequence);
            &&& rpc.header_version == 0x0300_0000
            &&& rpc.signature == 0x4350_5256
            &&& rpc.length == 32 + cmd_size
            &&& rpc.function == function.code()
            &&& rpc.rpc_result == 0xffff_ffff
            &&& rpc.rpc_result_private == 0xffff_ffff
            &&& rpc.sequence == sequence
            &&& rpc.spare == 0
        }),
        RPC_HEADER_SIZE == 32,
        GMC_API_HEADER_SIZE == 32,
        MCTP_PREFIX_SIZE == 24,
        MCTP_MAGIC == 0x4d43_5450,
{
    law_transport_header_number(true, true, 0, 0, 0);
    law_nvdm_header_number(nvdm_type);
}

/// A message takes as many memory pages of 4096 bytes as it needs, and no more.
pub proof fn law_message_pages(prefix: MctpPrefix)
    ensures
        prefix.pages() * 4096 >= prefix.mctp_payload_size + 8,
        (prefix.pages() - 1) * 4096 < prefix.mctp_payload_size + 8,
{
}

/// The numbers of the functions and events.
pub proof fn law_function_numbers()
    ensures
        MsgFunction::Nop.code() == 0,
        MsgFunction::SetGuestSystemInfo.code() == 1,
        MsgFunction::AllocRoot.code() == 2,
        MsgFunction::AllocDevice.code() == 3,
        MsgFunction::AllocMemory.code() == 4,
        MsgFunction::AllocCtxDma.code() == 5,
        MsgFunction::AllocChannelDma.code() == 6,
        MsgFunction::MapMemory.code() == 7,
        MsgFunction::BindCtxDma.code() == 8,
        MsgFunction::AllocObject.code() == 9,
        MsgFunction::Free.code() == 10,
        MsgFunction::Log.code() == 11,
        MsgFunction::GetStaticInfo.code() == 51,
        MsgFunction::GetGspStaticInfo.code() == 65,
        MsgFunction::ContinuationRecord.code() == 71,
        MsgFunction::GspSetSystemInfo.code() == 72,
        MsgFunction::SetRegistry.code() == 73,
        MsgFunction::GspInitPostObjGpu.code() == 74,
        MsgFunction::GspRmControl.code() == 76,
        MsgFunction::GspInitDone.code() == 0x1001,
        MsgFunction::PostEvent.code() == 0x1003,
        MsgFunction::RcTriggered.code() == 0x1004,
        MsgFunction::MmuFaultQueued.code() == 0x1005,
        MsgFunction::OsErrorLog.code() == 0x1006,
        MsgFunction::GpuacctPerfmonUtilSamples.code() == 0x1008,
        MsgFunction::UcodeLibOsPrint.code() == 0x100c,
        MsgFunction::GspLockdownNotice.code() == 0x101c,
        MsgFunction::GspPostNoCat.code() == 0x1020,
        MsgFunction::GspLoadExecGenericBootloader.code() == 0x1026,
        MsgFunction::GspLoadExecHsBinary.code() == 0x1027,
{
}

/// The identifier of a name is its bytes as one number, the last byte the lowest. Only the last eight
/// count.
pub proof fn law_id8_of_name(name: Seq<u8>, last: u8)
    ensures
        spec_id8(Seq::empty()) == 0,
        spec_id8(seq![last]) == last,
        name.len() < 8 ==> spec_id8(name.push(last)) == spec_id8(name) * 256 + last,
        name.len() >= 8 ==> spec_id8(name.push(last)) == spec_id8(name.skip(name.len() - 7))
            * 256 + last,
{
    assert(name.push(last).drop_last() =~= name);
    assert(seq![last].drop_last() =~= Seq::<u8>::empty());
    if name.len() >= 8 {
        let tail = name.skip(name.len() - 7);
        assert(name.push(last).skip(name.len() - 7) =~= tail.push(last));
        assert(tail.push(last).drop_last() =~= tail);
    }
}

/// The bytes of a region argument: its identifier, address and size, eight bytes each, then its kind
/// and its location, one byte each, and zeros up to 32 bytes. A buffer has the kind 1, contiguous, and
/// the location 1, system memory.
pub proof fn law_region_argument_bytes(argument: LibosMemoryRegionInitArgument)
    ensures
        ({
            let bytes = argument.spec_bytes();
            &&& bytes.len() == 32
            &&& le_value(bytes.subrange(0, 8)) == argument.id8
            &&& le_value(bytes.subrange(8, 16)) == argument.pa
            &&& le_value(bytes.subrange(16, 24)) == argument.size
            &&& bytes[24] == argument.kind
            &&& bytes[25] == argument.loc
            &&& forall|i: int| 26 <= i < 32 ==> bytes[i] == 0
        }),
{
    let bytes = argument.spec_bytes();
    lemma_pow256_values();
    lemma_le_bytes_len(argument.id8 as nat, 8);
    lemma_le_bytes_len(argument.pa as nat, 8);
    lemma_le_bytes_len(argument.size as nat, 8);
    assert(bytes.subrange(0, 8) =~= le_bytes(argument.id8 as nat, 8));
    lemma_number_at(bytes, 0, argument.id8 as nat, 8);
    assert(bytes.subrange(8, 16) =~= le_bytes(argument.pa as nat, 8));
    lemma_number_at(bytes, 8, argument.pa as nat, 8);
    assert(bytes.subrange(16, 24) =~= le_bytes(argument.size as nat, 8));
    lemma_number_at(bytes, 16, argument.size as nat, 8);
}

/// A region argument for a buffer names it and says where it is, and the empty one says nothing.
pub proof fn law_region_argument_fields(name: Seq<u8>, pa: u64, size: u64)
    ensures
        ({
            let argument = LibosMemoryRegionInitArgument::spec_new(name, pa, size);
            &&& argument.id8 == spec_id8(name)
            &&& argument.pa == pa
            &&& argument.size == size
            &&& argument.kind == 1
            &&& argument.loc == 1
        }),
        ({
            let argument = LibosMemoryRegionInitArgument::spec_zeroed();
            &&& argument.id8 == 0 && argument.pa == 0 && argument.size == 0
            &&& argument.kind == 0 && argument.loc == 0
        }),
{
    let used = if name.len() <= 8 {
        name
    } else {
        name.skip(name.len() - 8)
    };
    lemma_name_value(used);
    lemma_pow256_values();
    crate::bytes::lemma_pow256_monotonic(used.len(), 8);
}

/// The parameters of the heap. Before Hopper RM takes 8MB to boot and 96MB for a client, from Hopper on
/// 14MB and 142MB. Turing and GA100 need no carveout and allow from 64MB to below 256MB. The others
/// need 22MB and allow less than 280MB, from 88MB on before Hopper and from 170MB on later.
pub proof fn law_heap_parameters(chipset: Chipset)
    ensures
        ({
            let generation = chipset.code() / 16;
            let late = generation == 0x18 || generation >= 0x1a;
            let params = LibosParams::spec_from_chipset(chipset);
            let allowed = params.allowed_heap_size;
            &&& GspFwHeapParams::spec_base_rm_size(chipset) == if late {
                14 * 0x10_0000
            } else {
                8 * 0x10_0000
            }
            &&& GspFwHeapParams::spec_client_alloc_size(chipset) == if late {
                142 * 0x10_0000
            } else {
                96 * 0x10_0000
            }
            &&& chipset.code() <= 0x170 ==> params.carveout_size == 0 && allowed.start == 64
                * 0x10_0000 && allowed.end == 256 * 0x10_0000
            &&& chipset.code() > 0x170 ==> params.carveout_size == 22 * 0x10_0000 && allowed.end
                == 280 * 0x10_0000
            &&& chipset.code() > 0x170 && !late ==> allowed.start == 88 * 0x10_0000
            &&& late ==> allowed.start == 170 * 0x10_0000
        }),
{
}

/// The overhead for memory management is 96KB for each GB that the framebuffer has or starts, rounded
/// up to a whole MB.
pub proof fn law_management_overhead(gigabytes: u64, rest: u64)
    requires
        0 < rest <= 0x4000_0000,
        gigabytes * 0x4000_0000 + rest <= u64::MAX,
    ensures
        ({
            let overhead = GspFwHeapParams::spec_management_overhead(
                (gigabytes * 0x4000_0000 + rest) as u64,
            );
            let needed = (gigabytes + 1) * 0x1_8000;
            &&& overhead % 0x10_0000 == 0
            &&& needed <= overhead < needed + 0x10_0000
        }),
        GspFwHeapParams::spec_management_overhead(0) == 0,
{
    lemma_align_up(0x1_8000 * (gigabytes + 1), SZ_1M as int);
    lemma_align_up(0, SZ_1M as int);
}

/// The heap is what the carveout, RM, a client and the overhead add up to, where that is allowed. Where
/// it is less than the least allowed it is that, and where it is more than the most allowed it is that.
pub proof fn law_heap_is_clamped_sum(params: LibosParams, chipset: Chipset, fb_size: u64)
    requires
        params.wf(),
    ensures
        ({
            let sum = params.carveout_size + GspFwHeapParams::spec_base_rm_size(chipset)
                + GspFwHeapParams::spec_client_alloc_size(chipset)
                + GspFwHeapParams::spec_management_overhead(fb_size);
            let size = params.spec_wpr_heap_size(chipset, fb_size);
            let allowed = params.allowed_heap_size;
            &&& params.wanted(chipset, fb_size) == sum
            &&& allowed.start <= sum < allowed.end ==> size == sum
            &&& sum < allowed.start ==> size == allowed.start
            &&& sum >= allowed.end ==> size == allowed.end - 1
            &&& allowed.start < allowed.end
        }),
{
}

/// The init arguments of the message queue say where it is and where its two parts are, how many pages
/// it has, that elements have a prefix of 24 bytes and from 4096 to 65536 bytes, and that headers are
/// aligned to 16 bytes and elements to 4096.
pub proof fn law_queue_arguments(args: MESSAGE_QUEUE_INIT_ARGUMENTS, cmdq: CmdqLayout)
    requires
        queue_arguments_for(args, cmdq),
    ensures
        args.sharedMemPhysAddr == cmdq.dma_handle,
        args.pageTableEntryCount == cmdq.num_ptes,
        args.cmdQueueOffset == cmdq.cmdq_offset,
        args.statQueueOffset == cmdq.statq_offset,
        args.queueElementHdrSize == 24,
        args.queueElementSizeMin == 4096,
        args.queueElementSizeMax == 65536,
        args.queueHeaderAlign == 4,
        args.queueElementAlign == 12,
        args.flags == 0,
        forall|i: int| 0 <= i < 8 ==> args.reserved[i] == 0,
{
}

/// The numbers that mark the structures handed to the GSP.
pub proof fn law_structure_marks()
    ensures
        GSP_FW_WPR_META_MAGIC == 0xdc3a_ae21_371a_60b3,
        GSP_ARGUMENTS_MAGIC_VALUE == 0x2050_5347,
        GSP_ARGUMENTS_FLAG_STACK_IN_DMEM == 2,
        GSP_ARGUMENTS_SIZE == 184,
        GSP_MSG_QUEUE_ELEMENT_SIZE_MAX == 65536,
{
}

/// The arguments that are left out are zero in every field.
pub proof fn law_left_out_arguments(args: GSP_ARGUMENTS_CACHED)
    requires
        args.srInitArguments.is_zeroed(),
        args.profilerArgs.is_zeroed(),
        args.sysmemHeapArgs.is_zeroed(),
        args.bindataArgs.is_zeroed(),
        args.vbiosOverrideArgs.is_zeroed(),
    ensures
        args.srInitArguments.oldLevel == 0,
        args.srInitArguments.flags == 0,
        forall|i: int| 0 <= i < 8 ==> args.srInitArguments.reserved[i] == 0,
        args.profilerArgs.pa == 0 && args.profilerArgs.size == 0,
        args.sysmemHeapArgs.pa == 0 && args.sysmemHeapArgs.size == 0,
        args.bindataArgs.radix3 == 0 && args.bindataArgs.size == 0,
        args.vbiosOverrideArgs.pa == 0 && args.vbiosOverrideArgs.size == 0,
{
}

/// A boot that has not run yet leaves no partition information: the metadata holds the reading of it
/// that is the partition RPC information, with zero in every field.
pub proof fn law_no_partition_information(part: GspFwWprMeta__bindgen_ty_2)
    requires
        part.is_zeroed(),
    ensures
        match part {
            GspFwWprMeta__bindgen_ty_2::First(rpc) => {
                &&& rpc.partitionRpcAddr == 0
                &&& rpc.partitionRpcRequestOffset == 0
                &&& rpc.partitionRpcReplyOffset == 0
                &&& rpc.elfCodeOffset == 0
                &&& rpc.elfDataOffset == 0
                &&& rpc.elfCodeSize == 0
                &&& rpc.elfDataSize == 0
                &&& rpc.lsUcodeVersion == 0
            },
            GspFwWprMeta__bindgen_ty_2::Second(_) => false,
        },
{
}

} // verus!
