//! Direct VRAM access through the PRAMIN aperture.
//!
//! PRAMIN provides a 1MB sliding window into VRAM through BAR0, allowing the CPU to access video
//! memory directly. The aperture is a region at a fixed offset from BAR0. The window base is
//! controlled by an architecture-specific register and is 64KB aligned.

use core::ops::Range;

use vstd::prelude::*;

use crate::error::Error;
use crate::mm::addr::VramAddress;

verus! {

/// PRAMIN aperture base offset in BAR0.
pub const PRAMIN_BASE: usize = 0x70_0000;

/// PRAMIN aperture size (1MB).
pub const PRAMIN_SIZE: usize = 0x10_0000;

/// Where an access goes: the offset in BAR0, and the base that the window has to be moved to first,
/// if it has to be.
#[derive(Debug, Clone, Copy, PartialEq, Eq, Structural)]
pub struct WindowAccess {
    pub bar_offset: usize,
    pub new_base: Option<VramAddress>,
}

/// The window over VRAM, at its current base.
pub struct PraminWindow {
    /// Valid VRAM region. Accesses outside this range are rejected.
    pub vram_region: Range<VramAddress>,
    /// Current base of the window.
    pub base: VramAddress,
}

/// Where an access of `size` bytes at `addr` goes, with the window at `base`.
///
/// The window stays where it is if the whole access lies in it, and moves to the multiple of 64KB
/// below the address otherwise.
pub open spec fn window_access(region: Range<VramAddress>, base: u64, addr: u64, size: int) -> Result<
    WindowAccess,
    Error,
> {
    if addr + size > u64::MAX || addr < region.start.raw || addr + size > region.end.raw {
        Err(Error::EINVAL)
    } else if base <= addr && addr - base + size <= PRAMIN_SIZE {
        Ok(WindowAccess { bar_offset: (PRAMIN_BASE + (addr - base)) as usize, new_base: None })
    } else if addr % 0x1_0000 + size > PRAMIN_SIZE {
        Err(Error::EINVAL)
    } else {
        Ok(
            WindowAccess {
                bar_offset: (PRAMIN_BASE + addr % 0x1_0000) as usize,
                new_base: Some(VramAddress { raw: (addr - addr % 0x1_0000) as u64 }),
            },
        )
    }
}

impl PraminWindow {
    /// Compute window parameters for a VRAM access.
    pub fn compute_window(&self, vram_addr: VramAddress, access_size: usize) -> (access: Result<
        WindowAccess,
        Error,
    >)
        ensures
            access == window_access(
                self.vram_region,
                self.base.raw,
                vram_addr.raw,
                access_size as int,
            ),
    {
        let end_addr = match vram_addr.checked_add(access_size) {
            Some(end_addr) => end_addr,
            None => {
                return Err(Error::EINVAL);
            },
        };
        if vram_addr < self.vram_region.start || end_addr > self.vram_region.end {
            return Err(Error::EINVAL);
        }
        let size: u64 = access_size as u64;
        if vram_addr >= self.base {
            let offset_within: u64 = vram_addr - self.base;
            if offset_within + size <= PRAMIN_SIZE as u64 {
                return Ok(
                    WindowAccess {
                        bar_offset: PRAMIN_BASE + offset_within as usize,
                        new_base: None,
                    },
                );
            }
        }
        let offset_within: u64 = vram_addr.raw % 0x1_0000;
        let needed_base = VramAddress { raw: vram_addr.raw - offset_within };
        if size > PRAMIN_SIZE as u64 || offset_within + size > PRAMIN_SIZE as u64 {
            return Err(Error::EINVAL);
        }
        Ok(
            WindowAccess {
                bar_offset: PRAMIN_BASE + offset_within as usize,
                new_base: Some(needed_base),
            },
        )
    }

    /// Moves the window to where an access needs it, and returns where the access goes.
    ///
    /// The caller asks [`PraminWindow::compute_window`] first and, if there is a new base, writes it to
    /// the window register. Only once that has succeeded does the window move here: a base that the
    /// register refuses leaves the window where the hardware has it.
    pub fn reposition(&mut self, vram_addr: VramAddress, access_size: usize) -> (access: Result<
        WindowAccess,
        Error,
    >)
        ensures
            access == window_access(
                old(self).vram_region,
                old(self).base.raw,
                vram_addr.raw,
                access_size as int,
            ),
            final(self).vram_region == old(self).vram_region,
            final(self).base == match access {
                Ok(access) => match access.new_base {
                    Some(base) => base,
                    None => old(self).base,
                },
                Err(_) => old(self).base,
            },
    {
        let access = self.compute_window(vram_addr, access_size);
        match access {
            Ok(access) => match access.new_base {
                Some(base) => {
                    self.base = base;
                },
                None => {},
            },
            Err(_) => {},
        }
        access
    }
}

/// An access always reaches the bytes that it asks for: the base of the window and the offset in the
/// aperture add up to the address, and the whole access lies in the aperture and in the valid
/// region. Where the window moves, its new base is a multiple of 64KB.
pub proof fn law_window_reaches_address(
    region: Range<VramAddress>,
    base: u64,
    addr: u64,
    size: int,
)
    requires
        size >= 0,
    ensures
        window_access(region, base, addr, size) matches Ok(access) ==> {
            let now = match access.new_base {
                Some(moved) => moved.raw,
                None => base,
            };
            &&& now + (access.bar_offset - PRAMIN_BASE) == addr
            &&& PRAMIN_BASE <= access.bar_offset
            &&& access.bar_offset + size <= PRAMIN_BASE + PRAMIN_SIZE
            &&& region.start.raw <= addr
            &&& addr + size <= region.end.raw
            &&& access.new_base matches Some(moved) ==> moved.raw % 0x1_0000 == 0
        },
{
}

/// An access of up to eight bytes inside the valid region never fails.
pub proof fn law_small_access_succeeds(
    region: Range<VramAddress>,
    base: u64,
    addr: u64,
    size: int,
)
    requires
        0 <= size <= 8,
        region.start.raw <= addr,
        addr + size <= region.end.raw,
    ensures
        window_access(region, base, addr, size) is Ok,
{
}

/// The window is 1MB at `0x700000`. It stays where the whole access lies in the 1MB from its base on,
/// and otherwise moves to the 64KB that the address is in. An access that does not fit there either is
/// refused.
pub proof fn law_window_moves_only_where_needed(
    region: Range<VramAddress>,
    base: u64,
    addr: u64,
    size: int,
)
    requires
        0 <= size,
        region.start.raw <= addr,
        addr + size <= region.end.raw,
    ensures
        base <= addr && addr + size <= base + 0x10_0000 ==> window_access(region, base, addr, size)
            == Ok::<WindowAccess, Error>(
            WindowAccess { bar_offset: (0x70_0000 + addr - base) as usize, new_base: None },
        ),
        base > addr || addr + size > base + 0x10_0000 ==> window_access(region, base, addr, size)
            == if addr % 0x1_0000 + size <= 0x10_0000 {
            Ok::<WindowAccess, Error>(
                WindowAccess {
                    bar_offset: (0x70_0000 + addr % 0x1_0000) as usize,
                    new_base: Some(VramAddress { raw: (addr / 0x1_0000 * 0x1_0000) as u64 }),
                },
            )
        } else {
            Err(Error::EINVAL)
        },
{
}

/// An access outside the valid region is refused, and so is one that is larger than the window.
pub proof fn law_window_refusals(
    region: Range<VramAddress>,
    base: u64,
    addr: u64,
    size: int,
)
    requires
        size >= 0,
    ensures
        addr < region.start.raw || addr + size > region.end.raw || size > 0x10_0000
            ==> window_access(region, base, addr, size) == Err::<WindowAccess, Error>(
            Error::EINVAL,
        ),
{
}

} // verus!
