//! Registers of the GPU.

#![allow(non_camel_case_types)]

use vstd::arithmetic::power2::{lemma2_to64, lemma_pow2_strictly_increases, pow2};
use vstd::bits::lemma_u64_shl_is_mul;
use vstd::prelude::*;

use crate::bits::{
    bit32, field32, get_bit32, get_field32, lemma_mask64_values, set_bit32, set_field32,
    with_field32,
};
use crate::error::Error;
use crate::gpu::{Architecture, Chipset, Revision};
use crate::mm::addr::VramAddress;

verus! {

/// Identification register of all GPUs.
#[derive(Debug, Clone, Copy, PartialEq, Eq, Structural)]
pub struct NV_PMC_BOOT_0 {
    pub raw: u32,
}

impl NV_PMC_BOOT_0 {
    /// Whether the architecture is older than Fermi. Its number has a ninth bit in bit 8.
    pub open spec fn older_than_fermi(self) -> bool {
        !bit32(self.raw, 8) && field32(self.raw, 24, 5) < 0xc
    }

    /// Returns whether the GPU is older than Fermi.
    pub fn is_older_than_fermi(self) -> (older: bool)
        ensures
            older == self.older_than_fermi(),
    {
        !get_bit32(self.raw, 8) && get_field32(self.raw, 24, 5) < 0xc
    }
}

/// Identification register of recent GPUs: the architecture in bits 29:24, the implementation in
/// bits 23:20, the major revision in bits 19:16 and the minor revision in bits 15:12.
#[derive(Debug, Clone, Copy, PartialEq, Eq, Structural)]
pub struct NV_PMC_BOOT_42 {
    pub raw: u32,
}

impl NV_PMC_BOOT_42 {
    /// The chipset that the register identifies. An architecture without a name is one error, an
    /// implementation without a name another.
    pub open spec fn spec_chipset(self) -> Result<Chipset, Error> {
        match Architecture::of_code(field32(self.raw, 24, 6)) {
            None => Err(Error::EINVAL),
            Some(arch) => match Chipset::of_code(
                (arch.code() * 16 + field32(self.raw, 20, 4)) as u32,
            ) {
                None => Err(Error::ENODEV),
                Some(chipset) => Ok(chipset),
            },
        }
    }

    /// The revision that the register holds.
    pub open spec fn spec_revision(self) -> Revision {
        Revision {
            major: field32(self.raw, 16, 4) as u8,
            minor: field32(self.raw, 12, 4) as u8,
        }
    }

    /// Returns the chipset that the register identifies.
    pub fn chipset(self) -> (chipset: Result<Chipset, Error>)
        ensures
            chipset == self.spec_chipset(),
    {
        proof {
            lemma_mask64_values();
        }
        match Architecture::try_from(get_field32(self.raw, 24, 6)) {
            Ok(arch) => Chipset::try_from(arch.into_raw() * 16 + get_field32(self.raw, 20, 4)),
            Err(error) => Err(error),
        }
    }

    /// Returns the revision that the register holds.
    pub fn revision(self) -> (revision: Revision)
        ensures
            revision == self.spec_revision(),
            revision.major < 16,
            revision.minor < 16,
    {
        proof {
            lemma_mask64_values();
        }
        Revision {
            major: get_field32(self.raw, 16, 4) as u8,
            minor: get_field32(self.raw, 12, 4) as u8,
        }
    }

    /// Returns the number of the architecture, whether or not it has a name.
    pub fn architecture_raw(self) -> (code: u8)
        ensures
            code == field32(self.raw, 24, 6),
    {
        proof {
            lemma_mask64_values();
        }
        get_field32(self.raw, 24, 6) as u8
    }
}

/// Size of the local memory: ECC in bit 30, a magnitude in bits 9:4 and a scale in bits 3:0.
#[derive(Debug, Clone, Copy, PartialEq, Eq, Structural)]
pub struct NV_PFB_PRI_MMU_LOCAL_MEMORY_RANGE {
    pub raw: u32,
}

impl NV_PFB_PRI_MMU_LOCAL_MEMORY_RANGE {
    /// The size in bytes: the magnitude shifted by the scale, in MiB. ECC takes a sixteenth.
    pub open spec fn spec_usable_fb_size(self) -> int {
        let size = field32(self.raw, 4, 6) * pow2(field32(self.raw, 0, 4) as nat) * 0x10_0000;
        if bit32(self.raw, 30) {
            size / 16 * 15
        } else {
            size
        }
    }

    /// Returns the size of the framebuffer that can be used, in bytes.
    pub fn usable_fb_size(self) -> (size: u64)
        ensures
            size == self.spec_usable_fb_size(),
    {
        proof {
            lemma_mask64_values();
        }
        let mag: u64 = get_field32(self.raw, 4, 6) as u64;
        let scale: u64 = get_field32(self.raw, 0, 4) as u64;
        proof {
            lemma2_to64();
            if scale < 15 {
                lemma_pow2_strictly_increases(scale as nat, 15);
            }
            let power = pow2(scale as nat);
            assert(mag * power <= 64 * 0x8000) by (nonlinear_arith)
                requires
                    mag <= 64,
                    power <= 0x8000,
            ;
            lemma_u64_shl_is_mul(mag, scale);
        }
        let size: u64 = (mag << scale) * 0x10_0000;
        if get_bit32(self.raw, 30) {
            size / 16 * 15
        } else {
            size
        }
    }
}

/// Lower bound of the WPR2 region, bits 39:12 of its address in bits 31:4.
#[derive(Debug, Clone, Copy, PartialEq, Eq, Structural)]
pub struct NV_PFB_PRI_MMU_WPR2_ADDR_LO {
    pub raw: u32,
}

impl NV_PFB_PRI_MMU_WPR2_ADDR_LO {
    /// Returns the lower (inclusive) bound of the WPR2 region, in bytes.
    pub fn lower_bound(self) -> (bound: u64)
        ensures
            bound == field32(self.raw, 4, 28) * 0x1000,
    {
        proof {
            lemma_mask64_values();
        }
        get_field32(self.raw, 4, 28) as u64 * 0x1000
    }
}

/// Upper bound of the WPR2 region, bits 39:12 of its address in bits 31:4.
#[derive(Debug, Clone, Copy, PartialEq, Eq, Structural)]
pub struct NV_PFB_PRI_MMU_WPR2_ADDR_HI {
    pub raw: u32,
}

impl NV_PFB_PRI_MMU_WPR2_ADDR_HI {
    /// Returns the higher (exclusive) bound of the WPR2 region, in bytes.
    pub fn higher_bound(self) -> (bound: u64)
        ensures
            bound == field32(self.raw, 4, 28) * 0x1000,
    {
        proof {
            lemma_mask64_values();
        }
        get_field32(self.raw, 4, 28) as u64 * 0x1000
    }

    /// Returns whether the WPR2 region is set, which is so if its upper bound is not zero.
    pub fn is_wpr2_set(self) -> (set: bool)
        ensures
            set == (field32(self.raw, 4, 28) != 0),
    {
        get_field32(self.raw, 4, 28) != 0
    }
}

/// Progress of the GPU firmware boot, in bits 7:0.
#[derive(Debug, Clone, Copy, PartialEq, Eq, Structural)]
pub struct NV_PGC6_AON_SECURE_SCRATCH_GROUP_05_0_GFW_BOOT {
    pub raw: u32,
}

impl NV_PGC6_AON_SECURE_SCRATCH_GROUP_05_0_GFW_BOOT {
    /// Returns whether the GPU firmware boot is complete.
    pub fn completed(self) -> (completed: bool)
        ensures
            completed == (field32(self.raw, 0, 8) == 0xff),
    {
        get_field32(self.raw, 0, 8) == 0xff
    }
}

/// Size of the framebuffer in MiB.
#[derive(Debug, Clone, Copy, PartialEq, Eq, Structural)]
pub struct NV_USABLE_FB_SIZE_IN_MB {
    pub raw: u32,
}

impl NV_USABLE_FB_SIZE_IN_MB {
    /// Returns the size of the framebuffer that can be used, in bytes.
    pub fn usable_fb_size(self) -> (size: u64)
        ensures
            size == self.raw * 0x10_0000,
    {
        self.raw as u64 * 0x10_0000
    }
}

/// Falcon DMA control: scrubbing of IMEM in bit 2 and of DMEM in bit 1.
#[derive(Debug, Clone, Copy, PartialEq, Eq, Structural)]
pub struct NV_PFALCON_FALCON_DMACTL {
    pub raw: u32,
}

impl NV_PFALCON_FALCON_DMACTL {
    /// Returns `true` if memory scrubbing is completed.
    pub fn mem_scrubbing_done(self) -> (done: bool)
        ensures
            done == (!bit32(self.raw, 1) && !bit32(self.raw, 2)),
    {
        !get_bit32(self.raw, 1) && !get_bit32(self.raw, 2)
    }
}

/// Falcon hardware configuration: scrubbing of memory in bit 12.
#[derive(Debug, Clone, Copy, PartialEq, Eq, Structural)]
pub struct NV_PFALCON_FALCON_HWCFG2 {
    pub raw: u32,
}

impl NV_PFALCON_FALCON_HWCFG2 {
    /// Returns `true` if memory scrubbing is completed.
    pub fn mem_scrubbing_done(self) -> (done: bool)
        ensures
            done == !bit32(self.raw, 12),
    {
        !get_bit32(self.raw, 12)
    }

    /// Returns whether the RISC-V branch privilege lockdown is in force.
    pub fn riscv_br_priv_lockdown(self) -> (locked: bool)
        ensures
            locked == bit32(self.raw, 13),
    {
        get_bit32(self.raw, 13)
    }
}

/// The memory of a falcon that a transfer goes to.
#[derive(Debug, Clone, Copy, PartialEq, Eq, Structural)]
pub enum FalconMem {
    /// Secure instruction memory.
    ImemSecure,
    /// Non-secure instruction memory.
    ImemNonSecure,
    /// Data memory.
    Dmem,
}

/// Falcon DMA transfer command: the security of the target in bits 3:2, and whether it is IMEM in
/// bit 4.
#[derive(Debug, Clone, Copy, PartialEq, Eq, Structural)]
pub struct NV_PFALCON_FALCON_DMATRFCMD {
    pub raw: u32,
}

impl NV_PFALCON_FALCON_DMATRFCMD {
    /// Programs the `imem` and `sec` fields for the given FalconMem.
    pub fn with_falcon_mem(self, mem: FalconMem) -> (cmd: Self)
        ensures
            cmd.raw == with_field32(
                with_field32(self.raw, 4, 1, if mem == FalconMem::Dmem {
                    0
                } else {
                    1
                }),
                2,
                2,
                if mem == FalconMem::ImemSecure {
                    1
                } else {
                    0
                },
            ),
    {
        let raw: u32 = set_bit32(self.raw, 4, mem != FalconMem::Dmem);
        match mem {
            FalconMem::ImemSecure => NV_PFALCON_FALCON_DMATRFCMD { raw: set_field32(raw, 2, 2, 1) },
            _ => NV_PFALCON_FALCON_DMATRFCMD { raw: set_field32(raw, 2, 2, 0) },
        }
    }
}

/// The first address that the base of the PRAMIN window cannot have.
pub open spec fn window_base_limit(arch: Architecture) -> u64 {
    match arch {
        Architecture::Turing | Architecture::Ampere | Architecture::Ada => 0x100_0000_0000,
        Architecture::Hopper => 0x40_0000_0000,
        Architecture::BlackwellGB10x | Architecture::BlackwellGB20x => 0x80_0000_0000,
    }
}

/// Returns the offset of the PRAMIN window register.
pub fn pramin_window_offset(arch: Architecture) -> (offset: usize)
    ensures
        offset == match arch {
            Architecture::Turing | Architecture::Ampere | Architecture::Ada => 0x1700usize,
            _ => 0x10_fd40,
        },
{
    match arch {
        Architecture::Turing | Architecture::Ampere | Architecture::Ada => 0x1700,
        _ => 0x10_fd40,
    }
}

/// Returns the window base that a value of the PRAMIN window register stands for: the register holds
/// the base without its lowest 16 bits.
pub fn pramin_window_read_base(arch: Architecture, raw: u32) -> (base: VramAddress)
    ensures
        base.raw == (raw as int % (window_base_limit(arch) as int / 0x1_0000)) * 0x1_0000,
{
    let limit: u64 = match arch {
        Architecture::Turing | Architecture::Ampere | Architecture::Ada => 0x100_0000,
        Architecture::Hopper => 0x40_0000,
        Architecture::BlackwellGB10x | Architecture::BlackwellGB20x => 0x80_0000,
    };
    VramAddress { raw: (raw as u64 % limit) * 0x1_0000 }
}

/// Returns the value of the PRAMIN window register for a window base in VRAM, which is target 0.
pub fn pramin_window_write_base(arch: Architecture, base: VramAddress) -> (raw: Result<u32, Error>)
    ensures
        match raw {
            Ok(raw) => base.raw < window_base_limit(arch) && raw == base.raw / 0x1_0000,
            Err(error) => base.raw >= window_base_limit(arch) && error == Error::EINVAL,
        },
{
    let limit: u64 = match arch {
        Architecture::Turing | Architecture::Ampere | Architecture::Ada => 0x100_0000_0000,
        Architecture::Hopper => 0x40_0000_0000,
        Architecture::BlackwellGB10x | Architecture::BlackwellGB20x => 0x80_0000_0000,
    };
    if base.raw >= limit {
        return Err(Error::EINVAL);
    }
    Ok((base.raw / 0x1_0000) as u32)
}

/// A window base that is a multiple of 64KB reads back as it was written.
pub proof fn law_window_base_reads_back(arch: Architecture, base: u64)
    requires
        base < window_base_limit(arch),
        base % 0x1_0000 == 0,
    ensures
        ({
            let written = base as int / 0x1_0000;
            (written % (window_base_limit(arch) as int / 0x1_0000)) * 0x1_0000 == base
        }),
{
    let written = base as int / 0x1_0000;
    let count = window_base_limit(arch) as int / 0x1_0000;
    assert(written < count);
    vstd::arithmetic::div_mod::lemma_small_mod(written as nat, count as nat);
}

/// Returns the value of `NV_TLB_FLUSH_PDB_LO` for a PDB address: its bits 39:8.
pub fn tlb_flush_pdb_lo(addr: u64) -> (raw: u32)
    ensures
        raw == (addr as int / 0x100) % 0x1_0000_0000,
{
    ((addr / 0x100) % 0x1_0000_0000) as u32
}

/// Returns the value of `NV_TLB_FLUSH_PDB_HI` for a PDB address: its bits 47:40.
pub fn tlb_flush_pdb_hi(addr: u64) -> (raw: u8)
    ensures
        raw == (addr as int / 0x100_0000_0000) % 0x100,
{
    ((addr / 0x100_0000_0000) % 0x100) as u8
}

/// The two registers hold bits 47:8 of a PDB address between them.
pub proof fn law_tlb_flush_address(addr: u64)
    ensures
        ((addr as int / 0x100_0000_0000) % 0x100) * 0x100_0000_0000 + ((addr as int / 0x100)
            % 0x1_0000_0000) * 0x100 == addr as int % 0x1_0000_0000_0000 - addr as int % 0x100,
{
}

/// TLB invalidation acknowledgment scope.
///
/// Controls how far the hardware waits for the invalidation to propagate before clearing the
/// `trigger` bit of `NV_TLB_FLUSH_CTRL`.
#[derive(Debug, Clone, Copy, PartialEq, Eq, Structural)]
pub enum TlbAckMode {
    /// Fire-and-forget: no acknowledgment required.
    NotNeeded,
    /// Wait for acknowledgment from all consumers, including remote GPUs reachable over NVLink.
    Globally,
    /// Wait for acknowledgment from consumers within the local NVLink fabric node only; skip
    /// cross-node ack.
    Intranode,
}

impl TlbAckMode {
    /// The number that stands for this scope.
    pub open spec fn code(self) -> u32 {
        match self {
            TlbAckMode::NotNeeded => 0,
            TlbAckMode::Globally => 1,
            TlbAckMode::Intranode => 2,
        }
    }

    /// Returns the number that stands for this scope.
    pub fn into_raw(self) -> (raw: u32)
        ensures
            raw == self.code(),
    {
        match self {
            TlbAckMode::NotNeeded => 0,
            TlbAckMode::Globally => 1,
            TlbAckMode::Intranode => 2,
        }
    }

    /// Returns the scope that `value` stands for.
    pub fn try_from(value: u32) -> (mode: Result<TlbAckMode, Error>)
        ensures
            match mode {
                Ok(mode) => mode.code() == value,
                Err(error) => value > 2 && error == Error::EINVAL,
            },
    {
        match value {
            0 => Ok(TlbAckMode::NotNeeded),
            1 => Ok(TlbAckMode::Globally),
            2 => Ok(TlbAckMode::Intranode),
            _ => Err(Error::EINVAL),
        }
    }
}

/// TLB flush control: all addresses of the PDB in bit 0, the acknowledgment scope in bits 8:7 and
/// the trigger in bit 31.
#[derive(Debug, Clone, Copy, PartialEq, Eq, Structural)]
pub struct NV_TLB_FLUSH_CTRL {
    pub raw: u32,
}

impl NV_TLB_FLUSH_CTRL {
    /// Returns the value that starts a flush of every address of the selected PDB.
    pub fn flush_all(ack: TlbAckMode) -> (ctrl: Self)
        ensures
            ctrl.raw == with_field32(
                with_field32(with_field32(0, 0, 1, 1), 7, 2, ack.code()),
                31,
                1,
                1,
            ),
    {
        let raw: u32 = set_field32(set_bit32(0, 0, true), 7, 2, ack.into_raw());
        NV_TLB_FLUSH_CTRL { raw: set_bit32(raw, 31, true) }
    }

    /// Returns whether a flush is in progress.
    pub fn trigger(self) -> (set: bool)
        ensures
            set == bit32(self.raw, 31),
    {
        get_bit32(self.raw, 31)
    }
}

/// The fields of the identification and memory size registers are digits of their numbers.
proof fn lemma_register_digits(raw: u32)
    by (bit_vector)
    ensures
        bit32(raw, 8) == (raw / 0x100 % 2 == 1),
        bit32(raw, 30) == (raw / 0x4000_0000 % 2 == 1),
        field32(raw, 24, 5) == raw / 0x100_0000 % 0x20,
        field32(raw, 24, 6) == raw / 0x100_0000 % 0x40,
        field32(raw, 20, 4) == raw / 0x10_0000 % 0x10,
        field32(raw, 16, 4) == raw / 0x1_0000 % 0x10,
        field32(raw, 12, 4) == raw / 0x1000 % 0x10,
        field32(raw, 4, 6) == raw / 0x10 % 0x40,
        field32(raw, 0, 4) == raw % 0x10,
        raw / 0x10_0000 % 0x400 == (raw / 0x100_0000 % 0x40) * 16 + raw / 0x10_0000 % 0x10,
        raw / 0x10_0000 % 0x400 / 16 == raw / 0x100_0000 % 0x40,
{
}

/// A GPU is older than Fermi where bit 8 is clear and the five bits from bit 24 on are below 12.
pub proof fn law_older_than_fermi(boot0: NV_PMC_BOOT_0)
    ensures
        boot0.older_than_fermi() <==> boot0.raw / 0x100 % 2 == 0 && boot0.raw / 0x100_0000 % 0x20
            < 12,
{
    lemma_register_digits(boot0.raw);
}

/// The chipset is the one whose number is in the ten bits from bit 20 on. Where there is none, the
/// error says whether the generation, in the upper six of these, has a name.
pub proof fn law_chipset_of_register(boot42: NV_PMC_BOOT_42)
    ensures
        ({
            let code = boot42.raw / 0x10_0000 % 0x400;
            match boot42.spec_chipset() {
                Ok(chipset) => chipset.code() == code,
                Err(Error::EINVAL) => code / 16 < 0x16 || code / 16 > 0x1b,
                Err(error) => error == Error::ENODEV && 0x16 <= code / 16 <= 0x1b
                    && Chipset::of_code(code as u32) is None,
            }
        }),
{
    let raw = boot42.raw;
    let code = raw / 0x10_0000 % 0x400;
    lemma_register_digits(raw);
    let generation = field32(raw, 24, 6);
    crate::gpu::law_architecture_numbers(generation);
    crate::gpu::law_chipset_numbers(code);
    if let Some(arch) = Architecture::of_code(generation) {
        assert((arch.code() * 16 + field32(raw, 20, 4)) as u32 == code);
    }
}

/// The revision is the two four-bit numbers from bit 16 on and from bit 12 on.
pub proof fn law_revision_of_register(boot42: NV_PMC_BOOT_42)
    ensures
        boot42.spec_revision().major == boot42.raw / 0x1_0000 % 0x10,
        boot42.spec_revision().minor == boot42.raw / 0x1000 % 0x10,
{
    lemma_register_digits(boot42.raw);
}

/// The size of the local memory is the six-bit number from bit 4 on, doubled as often as the lowest
/// four bits say, in MiB. Where bit 30 is set, it is fifteen sixteenths of that.
pub proof fn law_usable_fb_size(range: NV_PFB_PRI_MMU_LOCAL_MEMORY_RANGE)
    ensures
        ({
            let size = range.spec_usable_fb_size();
            let mag = range.raw / 0x10 % 0x40;
            let full = mag * pow2((range.raw % 0x10) as nat) * 0x10_0000;
            &&& range.raw / 0x4000_0000 % 2 == 0 ==> size == full
            &&& range.raw / 0x4000_0000 % 2 == 1 ==> size * 16 == full * 15
        }),
{
    lemma_register_digits(range.raw);
}

/// The base of the PRAMIN window has 40 bits up to Ada, 38 bits on Hopper and 39 bits on Blackwell.
pub proof fn law_window_base_limits(arch: Architecture)
    ensures
        arch == Architecture::Turing || arch == Architecture::Ampere || arch == Architecture::Ada
            ==> window_base_limit(arch) == 0x100_0000_0000,
        arch == Architecture::Hopper ==> window_base_limit(arch) == 0x40_0000_0000,
        arch == Architecture::BlackwellGB10x || arch == Architecture::BlackwellGB20x
            ==> window_base_limit(arch) == 0x80_0000_0000,
{
}

/// The numbers of the acknowledgment scopes.
pub proof fn law_ack_mode_numbers()
    ensures
        TlbAckMode::NotNeeded.code() == 0,
        TlbAckMode::Globally.code() == 1,
        TlbAckMode::Intranode.code() == 2,
{
}

} // verus!
