//! Addresses and frame numbers.

use core::cmp::Ordering;
use core::ops::Range;

use vstd::prelude::*;
use vstd::std_specs::cmp::{PartialOrdSpec, PartialOrdSpecImpl};
use vstd::std_specs::convert::{FromSpec, FromSpecImpl};
use vstd::std_specs::ops::{AddSpec, AddSpecImpl, SubSpec, SubSpecImpl};

use crate::num::power_of_two;

verus! {

/// Physical VRAM address in GPU video memory.
#[derive(Debug, Clone, Copy, PartialEq, Eq, Ord, Structural)]
pub struct VramAddress {
    pub raw: u64,
}

impl VramAddress {
    /// Create a new VRAM address from a raw value.
    pub fn new(addr: u64) -> (address: Self)
        ensures
            address.raw == addr,
    {
        VramAddress { raw: addr }
    }

    /// Get the raw address value as `u64`.
    pub fn raw(&self) -> (raw: u64)
        ensures
            raw == self.raw,
    {
        self.raw
    }

    /// Returns the offset within the 4KB page.
    pub fn offset(&self) -> (offset: u64)
        ensures
            offset == self.raw % 4096,
    {
        self.raw % 4096
    }

    /// Returns the number of the page.
    pub fn frame_number(&self) -> (pfn: Pfn)
        ensures
            pfn.0 == self.raw / 4096,
    {
        Pfn(self.raw / 4096)
    }

    /// Align the address down to the given power-of-two `alignment`.
    pub fn align_down(self, alignment: u64) -> (address: Self)
        requires
            power_of_two(alignment as nat),
        ensures
            address.raw % alignment == 0,
            address.raw <= self.raw < address.raw + alignment,
    {
        proof {
            vstd::arithmetic::div_mod::lemma_fundamental_div_mod(self.raw as int, alignment as int);
            let q = self.raw as int / alignment as int;
            assert(q * alignment == alignment * q) by (nonlinear_arith);
            vstd::arithmetic::div_mod::lemma_mod_multiples_basic(q, alignment as int);
        }
        VramAddress { raw: self.raw - self.raw % alignment }
    }

    /// Add `rhs` to this address, returning `None` on overflow.
    pub fn checked_add<O: IntoVramOffset>(self, rhs: O) -> (address: Option<Self>)
        ensures
            match address {
                Some(address) => address.raw == self.raw + rhs.spec_vram_offset(),
                None => self.raw + rhs.spec_vram_offset() > u64::MAX,
            },
    {
        match self.raw.checked_add(rhs.into_vram_offset()) {
            Some(raw) => Some(VramAddress { raw }),
            None => None,
        }
    }
}

/// Lossless conversion into a `u64` byte offset, for use as a [`VramAddress`] `checked_add()`
/// operand which can be either a `u64` or a `usize`.
pub trait IntoVramOffset: Sized {
    /// The byte offset.
    spec fn spec_vram_offset(self) -> u64;

    /// Convert `self` into a `u64` byte offset.
    fn into_vram_offset(self) -> (offset: u64)
        ensures
            offset == self.spec_vram_offset(),
    ;
}

impl IntoVramOffset for u64 {
    open spec fn spec_vram_offset(self) -> u64 {
        self
    }

    fn into_vram_offset(self) -> (offset: u64) {
        self
    }
}

impl IntoVramOffset for usize {
    open spec fn spec_vram_offset(self) -> u64 {
        self as u64
    }

    fn into_vram_offset(self) -> (offset: u64) {
        self as u64
    }
}

impl PartialOrd for VramAddress {
    fn partial_cmp(&self, other: &Self) -> (order: Option<Ordering>) {
        if self.raw < other.raw {
            Some(Ordering::Less)
        } else if self.raw == other.raw {
            Some(Ordering::Equal)
        } else {
            Some(Ordering::Greater)
        }
    }
}

impl PartialOrdSpecImpl for VramAddress {
    open spec fn obeys_partial_cmp_spec() -> bool {
        true
    }

    open spec fn partial_cmp_spec(&self, other: &Self) -> Option<Ordering> {
        if self.raw < other.raw {
            Some(Ordering::Less)
        } else if self.raw == other.raw {
            Some(Ordering::Equal)
        } else {
            Some(Ordering::Greater)
        }
    }
}

impl From<Pfn> for VramAddress {
    fn from(pfn: Pfn) -> (address: Self) {
        VramAddress { raw: (pfn.0 % 0x10_0000_0000_0000) * 4096 }
    }
}

impl FromSpecImpl<Pfn> for VramAddress {
    open spec fn obeys_from_spec() -> bool {
        true
    }

    /// An address has 52 bits for the number of its page.
    open spec fn from_spec(pfn: Pfn) -> Self {
        VramAddress { raw: ((pfn.0 % 0x10_0000_0000_0000) * 4096) as u64 }
    }
}

impl core::ops::Add<u64> for VramAddress {
    type Output = VramAddress;

    fn add(self, rhs: u64) -> (address: VramAddress) {
        VramAddress { raw: self.raw + rhs }
    }
}

impl AddSpecImpl<u64> for VramAddress {
    open spec fn obeys_add_spec() -> bool {
        true
    }

    open spec fn add_req(self, rhs: u64) -> bool {
        self.raw + rhs <= u64::MAX
    }

    open spec fn add_spec(self, rhs: u64) -> VramAddress {
        VramAddress { raw: (self.raw + rhs) as u64 }
    }
}

impl core::ops::Sub<VramAddress> for VramAddress {
    type Output = u64;

    fn sub(self, rhs: VramAddress) -> (distance: u64) {
        self.raw - rhs.raw
    }
}

impl SubSpecImpl<VramAddress> for VramAddress {
    open spec fn obeys_sub_spec() -> bool {
        true
    }

    open spec fn sub_req(self, rhs: VramAddress) -> bool {
        rhs.raw <= self.raw
    }

    open spec fn sub_spec(self, rhs: VramAddress) -> u64 {
        (self.raw - rhs.raw) as u64
    }
}

/// Converts a range of byte addresses into a range of VRAM addresses.
pub fn into_vram_range(range: Range<u64>) -> (vram_range: Range<VramAddress>)
    ensures
        vram_range.start.raw == range.start,
        vram_range.end.raw == range.end,
{
    Range { start: VramAddress { raw: range.start }, end: VramAddress { raw: range.end } }
}

/// Virtual address in GPU address space.
#[derive(Debug, Clone, Copy, PartialEq, Eq, Structural)]
pub struct VirtualAddress {
    pub raw: u64,
}

impl VirtualAddress {
    /// Create a new virtual address from a raw value.
    pub fn new(addr: u64) -> (address: Self)
        ensures
            address.raw == addr,
    {
        VirtualAddress { raw: addr }
    }

    /// Returns the number of the page.
    pub fn frame_number(&self) -> (vfn: Vfn)
        ensures
            vfn.0 == self.raw / 4096,
    {
        Vfn(self.raw / 4096)
    }
}

impl From<Vfn> for VirtualAddress {
    fn from(vfn: Vfn) -> (address: Self) {
        VirtualAddress { raw: (vfn.0 % 0x10_0000_0000_0000) * 4096 }
    }
}

impl FromSpecImpl<Vfn> for VirtualAddress {
    open spec fn obeys_from_spec() -> bool {
        true
    }

    /// An address has 52 bits for the number of its page.
    open spec fn from_spec(vfn: Vfn) -> Self {
        VirtualAddress { raw: ((vfn.0 % 0x10_0000_0000_0000) * 4096) as u64 }
    }
}

/// Physical Frame Number.
///
/// Represents a physical page in VRAM.
#[derive(Debug, Clone, Copy, PartialEq, Eq, Structural)]
pub struct Pfn(pub u64);

impl Pfn {
    /// Create a new PFN from a frame number.
    pub fn new(frame_number: u64) -> (pfn: Self)
        ensures
            pfn.0 == frame_number,
    {
        Pfn(frame_number)
    }

    /// Get the raw frame number.
    pub fn raw(self) -> (raw: u64)
        ensures
            raw == self.0,
    {
        self.0
    }
}

impl From<VramAddress> for Pfn {
    fn from(addr: VramAddress) -> (pfn: Self) {
        Pfn(addr.raw / 4096)
    }
}

impl FromSpecImpl<VramAddress> for Pfn {
    open spec fn obeys_from_spec() -> bool {
        true
    }

    open spec fn from_spec(addr: VramAddress) -> Self {
        Pfn(addr.raw / 4096)
    }
}

impl From<u64> for Pfn {
    fn from(val: u64) -> (pfn: Self) {
        Pfn(val)
    }
}

impl FromSpecImpl<u64> for Pfn {
    open spec fn obeys_from_spec() -> bool {
        true
    }

    open spec fn from_spec(val: u64) -> Self {
        Pfn(val)
    }
}

impl From<Pfn> for u64 {
    fn from(pfn: Pfn) -> (val: Self) {
        pfn.0
    }
}

impl FromSpecImpl<Pfn> for u64 {
    open spec fn obeys_from_spec() -> bool {
        true
    }

    open spec fn from_spec(pfn: Pfn) -> Self {
        pfn.0
    }
}

/// Virtual Frame Number.
///
/// Represents a virtual page in GPU address space.
#[derive(Debug, Clone, Copy, PartialEq, Eq, Structural)]
pub struct Vfn(pub u64);

impl Vfn {
    /// Create a new VFN from a frame number.
    pub fn new(frame_number: u64) -> (vfn: Self)
        ensures
            vfn.0 == frame_number,
    {
        Vfn(frame_number)
    }

    /// Get the raw frame number.
    pub fn raw(self) -> (raw: u64)
        ensures
            raw == self.0,
    {
        self.0
    }
}

impl From<VirtualAddress> for Vfn {
    fn from(addr: VirtualAddress) -> (vfn: Self) {
        Vfn(addr.raw / 4096)
    }
}

impl FromSpecImpl<VirtualAddress> for Vfn {
    open spec fn obeys_from_spec() -> bool {
        true
    }

    open spec fn from_spec(addr: VirtualAddress) -> Self {
        Vfn(addr.raw / 4096)
    }
}

impl From<u64> for Vfn {
    fn from(val: u64) -> (vfn: Self) {
        Vfn(val)
    }
}

impl FromSpecImpl<u64> for Vfn {
    open spec fn obeys_from_spec() -> bool {
        true
    }

    open spec fn from_spec(val: u64) -> Self {
        Vfn(val)
    }
}

impl From<Vfn> for u64 {
    fn from(vfn: Vfn) -> (val: Self) {
        vfn.0
    }
}

impl FromSpecImpl<Vfn> for u64 {
    open spec fn obeys_from_spec() -> bool {
        true
    }

    open spec fn from_spec(vfn: Vfn) -> Self {
        vfn.0
    }
}

/// The address of a page that an address can name leads back to the page, and the page of an
/// address starts at the address rounded down to a whole page.
pub proof fn law_page_addresses(pfn: Pfn, address: VramAddress)
    ensures
        pfn.0 < 0x10_0000_0000_0000 ==> <Pfn as FromSpec<VramAddress>>::from_spec(
            <VramAddress as FromSpec<Pfn>>::from_spec(pfn),
        ) == pfn,
        <VramAddress as FromSpec<Pfn>>::from_spec(
            <Pfn as FromSpec<VramAddress>>::from_spec(address),
        ).raw == address.raw - address.raw % 4096,
{
}

/// The same of virtual addresses and their pages.
pub proof fn law_virtual_page_addresses(vfn: Vfn, address: VirtualAddress)
    ensures
        vfn.0 < 0x10_0000_0000_0000 ==> <Vfn as FromSpec<VirtualAddress>>::from_spec(
            <VirtualAddress as FromSpec<Vfn>>::from_spec(vfn),
        ) == vfn,
        <VirtualAddress as FromSpec<Vfn>>::from_spec(
            <Vfn as FromSpec<VirtualAddress>>::from_spec(address),
        ).raw == address.raw - address.raw % 4096,
{
}

/// A page holds 4096 addresses: the page of an address is the address divided by that, and a page
/// starts at its number times that, of which an address has room for 52 bits.
pub proof fn law_page_size(pfn: Pfn, vfn: Vfn, vram: VramAddress, virt: VirtualAddress)
    ensures
        <Pfn as FromSpec<VramAddress>>::from_spec(vram).0 == vram.raw / 4096,
        <Vfn as FromSpec<VirtualAddress>>::from_spec(virt).0 == virt.raw / 4096,
        <VramAddress as FromSpec<Pfn>>::from_spec(pfn).raw == pfn.0 % 0x10_0000_0000_0000 * 4096,
        <VirtualAddress as FromSpec<Vfn>>::from_spec(vfn).raw == vfn.0 % 0x10_0000_0000_0000 * 4096,
{
}

/// An offset is the number that it was given as.
pub proof fn law_vram_offsets(wide: u64, native: usize)
    ensures
        wide.spec_vram_offset() == wide,
        native.spec_vram_offset() == native,
{
}

/// A frame number and its number are converted into each other as they are.
pub proof fn law_frame_numbers(pfn: Pfn, vfn: Vfn, number: u64)
    ensures
        <u64 as FromSpec<Pfn>>::from_spec(pfn) == pfn.0,
        <u64 as FromSpec<Vfn>>::from_spec(vfn) == vfn.0,
        <Pfn as FromSpec<u64>>::from_spec(number).0 == number,
        <Vfn as FromSpec<u64>>::from_spec(number).0 == number,
{
}

/// Addresses are ordered as their numbers are.
pub proof fn law_address_order(left: VramAddress, right: VramAddress)
    ensures
        PartialOrdSpec::partial_cmp_spec(&left, &right) == Some(Ordering::Less) <==> left.raw < right.raw,
        PartialOrdSpec::partial_cmp_spec(&left, &right) == Some(Ordering::Equal) <==> left.raw == right.raw,
        PartialOrdSpec::partial_cmp_spec(&left, &right) == Some(Ordering::Greater) <==> left.raw > right.raw,
{
}

/// An address moved up by a distance is that distance away from where it was.
pub proof fn law_address_distance(address: VramAddress, distance: u64)
    requires
        address.raw + distance <= u64::MAX,
    ensures
        AddSpec::add_spec(address, distance).raw == address.raw + distance,
        SubSpec::sub_spec(AddSpec::add_spec(address, distance), address) == distance,
{
}

} // verus!
