//! Payloads of the commands exchanged with the GSP.

use core::ops::Range;

use vstd::prelude::*;

use crate::bits::{bit32, get_bit32};
use crate::bytes::slice_to_vec;
use crate::error::Error;
use crate::gsp::nvkv::encode::{encodes, lemma_encodes_append, lemma_encodes_nothing};
use crate::gsp::nvkv::{
    ArrayVec, DecoderValue, Encodable, Encoder, Index, Key, KeyId, Pair, Schema, Value, WireValue,
};

verus! {

/// Power level the GSP is asked to enter, which [`GspSuspend`] maps to its flags.
#[derive(Clone, Copy, Debug, PartialEq, Eq, Structural)]
pub enum PowerStateLevel {
    /// Full unload.
    Level0,
    /// S3 (suspend to RAM).
    Level3,
    /// Hibernate (suspend to disk).
    Level7,
}

impl PowerStateLevel {
    /// Returns `true` if this state represents a power management transition, i.e. some GPU state
    /// must survive it (as opposed to a full unload).
    pub fn is_power_transition(self) -> (transition: bool)
        ensures
            transition == (self != PowerStateLevel::Level0),
    {
        self != PowerStateLevel::Level0
    }
}

/// Payload of the `GSP_SUSPEND` GMC command.
#[derive(Clone, Copy, Debug, PartialEq, Eq, Structural)]
pub struct GspSuspend {
    /// Bit 0 is set when some GPU state must survive the suspend.
    pub flags: u64,
}

impl GspSuspend {
    /// Creates a `GSP_SUSPEND` payload for the given [`PowerStateLevel`].
    pub fn new(level: PowerStateLevel) -> (payload: Self)
        ensures
            payload.flags == if level == PowerStateLevel::Level0 {
                0u64
            } else {
                1
            },
    {
        GspSuspend {
            flags: if level.is_power_transition() {
                1
            } else {
                0
            },
        }
    }
}

/// The host CPU architecture.
#[derive(Clone, Copy, Debug, PartialEq, Eq, Structural)]
pub enum HostArch {
    Unknown,
    X86_64,
    Ppc64le,
    Arm,
    Aarch64,
    Riscv64,
}

impl HostArch {
    /// The number that stands for this architecture.
    pub open spec fn code(self) -> u32 {
        match self {
            HostArch::Unknown => 0,
            HostArch::X86_64 => 1,
            HostArch::Ppc64le => 2,
            HostArch::Arm => 3,
            HostArch::Aarch64 => 4,
            HostArch::Riscv64 => 5,
        }
    }
}

impl TryFrom<u32> for HostArch {
    type Error = Error;

    fn try_from(value: u32) -> (arch: Result<HostArch, Error>) {
        match value {
            0 => Ok(HostArch::Unknown),
            1 => Ok(HostArch::X86_64),
            2 => Ok(HostArch::Ppc64le),
            3 => Ok(HostArch::Arm),
            4 => Ok(HostArch::Aarch64),
            5 => Ok(HostArch::Riscv64),
            _ => Err(Error::EINVAL),
        }
    }
}

impl vstd::std_specs::convert::TryFromSpecImpl<u32> for HostArch {
    open spec fn obeys_try_from_spec() -> bool {
        true
    }

    open spec fn try_from_spec(value: u32) -> Result<HostArch, Error> {
        if value == 0 {
            Ok(HostArch::Unknown)
        } else if value == 1 {
            Ok(HostArch::X86_64)
        } else if value == 2 {
            Ok(HostArch::Ppc64le)
        } else if value == 3 {
            Ok(HostArch::Arm)
        } else if value == 4 {
            Ok(HostArch::Aarch64)
        } else if value == 5 {
            Ok(HostArch::Riscv64)
        } else {
            Err(Error::EINVAL)
        }
    }
}

impl From<HostArch> for u32 {
    fn from(value: HostArch) -> (code: u32) {
        match value {
            HostArch::Unknown => 0,
            HostArch::X86_64 => 1,
            HostArch::Ppc64le => 2,
            HostArch::Arm => 3,
            HostArch::Aarch64 => 4,
            HostArch::Riscv64 => 5,
        }
    }
}

impl vstd::std_specs::convert::FromSpecImpl<HostArch> for u32 {
    open spec fn obeys_from_spec() -> bool {
        true
    }

    open spec fn from_spec(value: HostArch) -> u32 {
        value.code()
    }
}

impl WireValue for HostArch {
    open spec fn wire(&self) -> Value {
        Value::Scalar32(self.code())
    }

    fn encode_under(&self, key: KeyId, index: Index, encoder: &mut Encoder) -> (result: Result<
        (),
        Error,
    >) {
        encoder.encode_u32(key, index, u32::from(*self))
    }
}

/// A GSP registry entry.
pub struct RegKey {
    pub key_name: Key<&'static [u8], 0x3070>,
    pub key_value: Key<u32, 0x3071>,
}

impl RegKey {
    /// Creates a registry entry. `key_name` must include its NULL terminator, which GSP-RM counts
    /// in the encoded name length.
    pub fn new(key_name: &'static [u8], key_value: u32) -> (entry: Self)
        ensures
            entry.key_name.0@ == key_name@,
            entry.key_value.0 == key_value,
    {
        RegKey { key_name: Key(key_name), key_value: Key(key_value) }
    }
}

impl Encodable for RegKey {
    open spec fn pairs(&self) -> Seq<Pair> {
        self.key_name.pairs() + self.key_value.pairs()
    }

    fn encode(&self, encoder: &mut Encoder) -> (result: Result<(), Error>) {
        let ghost start = encoder@;
        let first = self.key_name.encode(encoder);
        let ghost middle = encoder@;
        if first.is_err() {
            proof {
                lemma_encodes_append(
                    start,
                    middle,
                    middle,
                    self.key_name.pairs(),
                    self.key_value.pairs(),
                    first,
                    first,
                );
            }
            return first;
        }
        let second = self.key_value.encode(encoder);
        proof {
            lemma_encodes_append(
                start,
                middle,
                encoder@,
                self.key_name.pairs(),
                self.key_value.pairs(),
                first,
                second,
            );
        }
        second
    }
}

/// SR-IOV virtual function information.
pub struct VfInfo {
    pub total_vfs: Key<u32, 0x0080>,
    pub first_vf_offset: Key<u32, 0x0081>,
    pub flags: Key<u64, 0x1003>,
    pub first_bar0_address: Key<u64, 0x1050>,
    pub first_bar1_address: Key<u64, 0x1051>,
    pub first_bar2_address: Key<u64, 0x1052>,
}

impl VfInfo {
    /// Creates the VF topology portion of a `GSP_INIT` request.
    pub fn new(
        total_vfs: u32,
        first_vf_offset: u32,
        flags: u64,
        first_bar0_address: u64,
        first_bar1_address: u64,
        first_bar2_address: u64,
    ) -> (info: Self)
        ensures
            info.total_vfs.0 == total_vfs,
            info.first_vf_offset.0 == first_vf_offset,
            info.flags.0 == flags,
            info.first_bar0_address.0 == first_bar0_address,
            info.first_bar1_address.0 == first_bar1_address,
            info.first_bar2_address.0 == first_bar2_address,
    {
        VfInfo {
            total_vfs: Key(total_vfs),
            first_vf_offset: Key(first_vf_offset),
            flags: Key(flags),
            first_bar0_address: Key(first_bar0_address),
            first_bar1_address: Key(first_bar1_address),
            first_bar2_address: Key(first_bar2_address),
        }
    }
}

/// Encodes the next field of a structure, whose earlier fields gave `result` and the pairs `done`.
fn encode_next<T: Encodable>(
    result: Result<(), Error>,
    field: &T,
    encoder: &mut Encoder,
    start: Ghost<Seq<u64>>,
    done: Ghost<Seq<Pair>>,
) -> (next: Result<(), Error>)
    requires
        encodes(start@, old(encoder)@, done@, result),
    ensures
        encodes(start@, final(encoder)@, done@ + field.pairs(), next),
{
    let ghost middle = encoder@;
    if result.is_err() {
        proof {
            lemma_encodes_append(
                start@,
                middle,
                middle,
                done@,
                field.pairs(),
                result,
                result,
            );
        }
        return result;
    }
    let next = field.encode(encoder);
    proof {
        lemma_encodes_append(start@, middle, encoder@, done@, field.pairs(), result, next);
    }
    next
}

impl Encodable for VfInfo {
    open spec fn pairs(&self) -> Seq<Pair> {
        seq![] + self.total_vfs.pairs() + self.first_vf_offset.pairs() + self.flags.pairs()
            + self.first_bar0_address.pairs() + self.first_bar1_address.pairs()
            + self.first_bar2_address.pairs()
    }

    fn encode(&self, encoder: &mut Encoder) -> (result: Result<(), Error>) {
        let start = Ghost(encoder@);
        let mut done: Ghost<Seq<Pair>> = Ghost(Seq::<Pair>::empty());
        proof {
            lemma_encodes_nothing(encoder@);
        }
        let mut result = encode_next(Ok(()), &self.total_vfs, encoder, start, done);
        proof {
            done@ = done@ + self.total_vfs.pairs();
        }
        result = encode_next(result, &self.first_vf_offset, encoder, start, done);
        proof {
            done@ = done@ + self.first_vf_offset.pairs();
        }
        result = encode_next(result, &self.flags, encoder, start, done);
        proof {
            done@ = done@ + self.flags.pairs();
        }
        result = encode_next(result, &self.first_bar0_address, encoder, start, done);
        proof {
            done@ = done@ + self.first_bar0_address.pairs();
        }
        result = encode_next(result, &self.first_bar1_address, encoder, start, done);
        proof {
            done@ = done@ + self.first_bar1_address.pairs();
        }
        encode_next(result, &self.first_bar2_address, encoder, start, done)
    }
}

/// Payload of the `GSP_INIT` command.
pub struct GspInitRequest {
    pub pci_device_id: Key<u32, 0x0001>,
    pub pci_sub_device_id: Key<u32, 0x0002>,
    pub pci_revision_id: Key<u32, 0x0003>,
    pub pci_config_mirror_base: Key<u32, 0x0010>,
    pub pci_config_mirror_size: Key<u32, 0x0011>,
    pub host_arch: Key<HostArch, 0x0070>,
    pub bus_device_func: Key<u64, 0x1020>,
    pub regkeys: Vec<RegKey>,
    pub vf_info: Option<VfInfo>,
}

impl Encodable for GspInitRequest {
    open spec fn pairs(&self) -> Seq<Pair> {
        seq![] + self.pci_device_id.pairs() + self.pci_sub_device_id.pairs()
            + self.pci_revision_id.pairs() + self.pci_config_mirror_base.pairs()
            + self.pci_config_mirror_size.pairs() + self.host_arch.pairs()
            + self.bus_device_func.pairs() + self.regkeys.pairs() + self.vf_info.pairs()
    }

    fn encode(&self, encoder: &mut Encoder) -> (result: Result<(), Error>) {
        let start = Ghost(encoder@);
        let mut done: Ghost<Seq<Pair>> = Ghost(Seq::<Pair>::empty());
        proof {
            lemma_encodes_nothing(encoder@);
        }
        let mut result = encode_next(Ok(()), &self.pci_device_id, encoder, start, done);
        proof {
            done@ = done@ + self.pci_device_id.pairs();
        }
        result = encode_next(result, &self.pci_sub_device_id, encoder, start, done);
        proof {
            done@ = done@ + self.pci_sub_device_id.pairs();
        }
        result = encode_next(result, &self.pci_revision_id, encoder, start, done);
        proof {
            done@ = done@ + self.pci_revision_id.pairs();
        }
        result = encode_next(result, &self.pci_config_mirror_base, encoder, start, done);
        proof {
            done@ = done@ + self.pci_config_mirror_base.pairs();
        }
        result = encode_next(result, &self.pci_config_mirror_size, encoder, start, done);
        proof {
            done@ = done@ + self.pci_config_mirror_size.pairs();
        }
        result = encode_next(result, &self.host_arch, encoder, start, done);
        proof {
            done@ = done@ + self.host_arch.pairs();
        }
        result = encode_next(result, &self.bus_device_func, encoder, start, done);
        proof {
            done@ = done@ + self.bus_device_func.pairs();
        }
        result = encode_next(result, &self.regkeys, encoder, start, done);
        proof {
            done@ = done@ + self.regkeys.pairs();
        }
        encode_next(result, &self.vf_info, encoder, start, done)
    }
}

/// What the PCI core tells of a device.
#[derive(Clone, Copy, Debug, PartialEq, Eq, Structural)]
pub struct PciDevice {
    /// Bus in bits 15:8, device in bits 7:3 and function in bits 2:0.
    pub dev_id: u16,
    pub domain_nr: u32,
    pub vendor_id: u16,
    pub device_id: u16,
    pub subsystem_vendor_id: u16,
    pub subsystem_device_id: u16,
    pub revision_id: u8,
}

impl PciDevice {
    /// The PCI location, the way GSP-RM decodes it: the domain in bits 63:32, the bus in bits 15:8
    /// and the device in bits 7:0. The function number is not part of it.
    pub open spec fn spec_domain_bus_device(self) -> int {
        self.domain_nr * 0x1_0000_0000 + (self.dev_id / 256) * 256 + (self.dev_id / 8) % 32
    }

    /// Returns the PCI location, the way GSP-RM decodes it.
    pub fn domain_bus_device(&self) -> (location: u64)
        ensures
            location == self.spec_domain_bus_device(),
    {
        let bus: u64 = (self.dev_id / 256) as u64;
        let device: u64 = ((self.dev_id / 8) % 32) as u64;
        (self.domain_nr as u64) * 0x1_0000_0000 + bus * 256 + device
    }
}

impl GspInitRequest {
    /// Describes `dev` to GSP-RM and asks it to apply `regkeys`. `mirror` is the address range of
    /// the PCI config mirror space, `host_arch` the architecture of the host.
    pub fn new(
        dev: &PciDevice,
        mirror: Range<u32>,
        host_arch: HostArch,
        regkeys: Vec<RegKey>,
        vf_info: Option<VfInfo>,
    ) -> (request: Self)
        requires
            mirror.start <= mirror.end,
        ensures
            request.pci_device_id.0 == dev.device_id * 0x1_0000 + dev.vendor_id,
            request.pci_sub_device_id.0 == dev.subsystem_device_id * 0x1_0000
                + dev.subsystem_vendor_id,
            request.pci_revision_id.0 == dev.revision_id,
            request.pci_config_mirror_base.0 == mirror.start,
            request.pci_config_mirror_size.0 == mirror.end - mirror.start,
            request.host_arch.0 == host_arch,
            request.bus_device_func.0 == dev.spec_domain_bus_device(),
            request.regkeys == regkeys,
            request.vf_info == vf_info,
    {
        let device_id: u32 = (dev.device_id as u32) * 0x1_0000 + dev.vendor_id as u32;
        let sub_device_id: u32 = (dev.subsystem_device_id as u32) * 0x1_0000
            + dev.subsystem_vendor_id as u32;
        GspInitRequest {
            pci_device_id: Key(device_id),
            pci_sub_device_id: Key(sub_device_id),
            pci_revision_id: Key(dev.revision_id as u32),
            pci_config_mirror_base: Key(mirror.start),
            pci_config_mirror_size: Key(mirror.end - mirror.start),
            host_arch: Key(host_arch),
            bus_device_func: Key(dev.domain_bus_device()),
            regkeys,
            vf_info,
        }
    }
}

/// FB region attribute flags: compression in bit 0, isochronous access in bit 1 and protection in
/// bit 2.
#[derive(Clone, Copy, Debug, PartialEq, Eq, Structural)]
pub struct FbRegionFlags {
    pub raw: u32,
}

impl FbRegionFlags {
    /// Returns whether the region supports compression.
    pub fn support_compressed(self) -> (set: bool)
        ensures
            set == bit32(self.raw, 0),
    {
        get_bit32(self.raw, 0)
    }

    /// Returns whether the region supports isochronous access.
    pub fn support_iso(self) -> (set: bool)
        ensures
            set == bit32(self.raw, 1),
    {
        get_bit32(self.raw, 1)
    }

    /// Returns whether the region is protected.
    pub fn protected(self) -> (set: bool)
        ensures
            set == bit32(self.raw, 2),
    {
        get_bit32(self.raw, 2)
    }

    /// Returns the flags as a number.
    pub fn into_raw(self) -> (raw: u32)
        ensures
            raw == self.raw,
    {
        self.raw
    }
}

/// One FB memory region, from `base` to `limit` inclusive.
#[derive(Clone, Copy, Debug, PartialEq, Eq, Structural)]
pub struct FbRegion {
    pub base: u64,
    pub limit: u64,
    pub flags: FbRegionFlags,
    pub tag: u32,
}

impl FbRegion {
    /// Whether the driver may allocate from this region: it is untagged, unprotected, and supports
    /// both compression and isochronous access. Its end has to be an address.
    pub open spec fn usable(self) -> bool {
        &&& self.base <= self.limit
        &&& self.limit < u64::MAX
        &&& self.tag == 0
        &&& !bit32(self.flags.raw, 2)
        &&& bit32(self.flags.raw, 0)
        &&& bit32(self.flags.raw, 1)
    }
}

/// Schema for one FB region of the `GSP_INIT` response. All fields are required.
#[derive(Clone, Copy, Debug, PartialEq, Eq, Structural)]
pub struct FbRegionSchema {
    pub base: Option<u64>,
    pub limit: Option<u64>,
    pub flags: Option<u32>,
    pub tag: Option<u32>,
}

impl FbRegionSchema {
    pub const BASE_KEY: u16 = 0x1011;

    pub const LIMIT_KEY: u16 = 0x1012;

    pub const FLAGS_KEY: u16 = 0x0012;

    pub const TAG_KEY: u16 = 0x0013;

    /// The schema that has visited nothing.
    pub open spec fn spec_default() -> Self {
        FbRegionSchema { base: None, limit: None, flags: None, tag: None }
    }

    /// Returns the schema that has visited nothing.
    pub fn default() -> (schema: Self)
        ensures
            schema == Self::spec_default(),
    {
        FbRegionSchema { base: None, limit: None, flags: None, tag: None }
    }

    /// Whether `key` is one of a region.
    pub open spec fn has_key(key: u16) -> bool {
        key == 0x1011 || key == 0x1012 || key == 0x0012 || key == 0x0013
    }

    /// The schema after it has stored `value` under one of its keys, or the error if the value is
    /// of another kind.
    pub open spec fn stored(self, key: u16, value: Value) -> Result<Self, Error> {
        match value {
            Value::Scalar64(number) => if key == 0x1011 {
                Ok(FbRegionSchema { base: Some(number), ..self })
            } else if key == 0x1012 {
                Ok(FbRegionSchema { limit: Some(number), ..self })
            } else {
                Err(Error::EINVAL)
            },
            Value::Scalar32(number) => if key == 0x0012 {
                Ok(FbRegionSchema { flags: Some(number), ..self })
            } else if key == 0x0013 {
                Ok(FbRegionSchema { tag: Some(number), ..self })
            } else {
                Err(Error::EINVAL)
            },
            _ => Err(Error::EINVAL),
        }
    }

    /// The region, once all fields are there.
    pub open spec fn region(self) -> Option<FbRegion> {
        if self.base is Some && self.limit is Some && self.flags is Some && self.tag is Some {
            Some(
                FbRegion {
                    base: self.base.unwrap(),
                    limit: self.limit.unwrap(),
                    flags: FbRegionFlags { raw: self.flags.unwrap() },
                    tag: self.tag.unwrap(),
                },
            )
        } else {
            None
        }
    }

    /// Stores `value` under one of the keys of a region.
    fn store(self, key: KeyId, value: DecoderValue<'_>) -> (schema: Result<Self, Error>)
        ensures
            schema == self.stored(key, value@),
    {
        match value {
            DecoderValue::Scalar64(number) => {
                if key == 0x1011 {
                    Ok(FbRegionSchema { base: Some(number), ..self })
                } else if key == 0x1012 {
                    Ok(FbRegionSchema { limit: Some(number), ..self })
                } else {
                    Err(Error::EINVAL)
                }
            },
            DecoderValue::Scalar32(number) => {
                if key == 0x0012 {
                    Ok(FbRegionSchema { flags: Some(number), ..self })
                } else if key == 0x0013 {
                    Ok(FbRegionSchema { tag: Some(number), ..self })
                } else {
                    Err(Error::EINVAL)
                }
            },
            _ => Err(Error::EINVAL),
        }
    }

    /// Returns the region, once all fields are there.
    fn complete(self) -> (region: Option<FbRegion>)
        ensures
            region == self.region(),
    {
        match (self.base, self.limit, self.flags, self.tag) {
            (Some(base), Some(limit), Some(flags), Some(tag)) => Some(
                FbRegion { base, limit, flags: FbRegionFlags { raw: flags }, tag },
            ),
            _ => None,
        }
    }
}

impl Schema for FbRegionSchema {
    type Target = FbRegion;

    type State = FbRegionSchema;

    open spec fn state(&self) -> FbRegionSchema {
        *self
    }

    open spec fn empty() -> FbRegionSchema {
        FbRegionSchema::spec_default()
    }

    open spec fn visited(state: FbRegionSchema, pair: Pair) -> (FbRegionSchema, Result<
        bool,
        Error,
    >) {
        if !FbRegionSchema::has_key(pair.key) {
            (state, Ok(false))
        } else if pair.index != 0 {
            (state, Err(Error::EINVAL))
        } else {
            match state.stored(pair.key, pair.value) {
                Ok(next) => (next, Ok(true)),
                Err(error) => (state, Err(error)),
            }
        }
    }

    open spec fn produces(state: FbRegionSchema, result: Result<FbRegion, Error>) -> bool {
        result == match state.region() {
            Some(region) => Ok::<FbRegion, Error>(region),
            None => Err(Error::EINVAL),
        }
    }

    fn visit<'a>(&mut self, key: KeyId, index: Index, value: DecoderValue<'a>) -> (result: Result<
        bool,
        Error,
    >) {
        if key != 0x1011 && key != 0x1012 && key != 0x0012 && key != 0x0013 {
            return Ok(false);
        }
        if index.get() != 0 {
            return Err(Error::EINVAL);
        }
        match self.store(key, value) {
            Ok(next) => {
                *self = next;
                Ok(true)
            },
            Err(error) => Err(error),
        }
    }

    fn finish(&mut self) -> (result: Result<FbRegion, Error>) {
        let region = self.complete();
        *self = FbRegionSchema::default();
        match region {
            Some(region) => Ok(region),
            None => Err(Error::EINVAL),
        }
    }
}

/// Largest number of FIFO engines that GSP-RM describes.
pub const MAX_FIFO_ENGINES: usize = 64;

/// What the pairs of a `GSP_INIT` response have left in its schema.
#[verifier::ext_equal]
pub struct GspInitResponseState {
    pub gpu_name: Seq<u8>,
    /// The regions that are complete.
    pub fb_regions: Seq<FbRegion>,
    /// The region that is being read, and its index.
    pub fb_current: Option<(u16, FbRegionSchema)>,
    pub bar1_pde_base: Option<u64>,
    pub vmmu_segment_size: u64,
    pub fifo_engine_count: u32,
    pub fifo_engine_gmc_ids: Seq<u32>,
    pub fifo_engine_flags: Seq<u32>,
}

impl GspInitResponseState {
    /// The complete regions, with the one being read among them. `None` if that one lacks a field.
    pub open spec fn all_regions(self) -> Option<Seq<FbRegion>> {
        match self.fb_current {
            None => Some(self.fb_regions),
            Some((_, current)) => match current.region() {
                Some(region) => Some(self.fb_regions.push(region)),
                None => None,
            },
        }
    }

    /// The state after a pair of an FB region. Pairs with one index make one region, and a pair
    /// with another index starts the next.
    pub open spec fn fb_visited(self, pair: Pair) -> Result<Self, Error> {
        if self.fb_current is Some && self.fb_current.unwrap().0 == pair.index {
            match self.fb_current.unwrap().1.stored(pair.key, pair.value) {
                Ok(next) => Ok(
                    GspInitResponseState { fb_current: Some((pair.index, next)), ..self },
                ),
                Err(error) => Err(error),
            }
        } else {
            match (
                self.all_regions(),
                FbRegionSchema::spec_default().stored(pair.key, pair.value),
            ) {
                (None, _) => Err(Error::EINVAL),
                (_, Err(error)) => Err(error),
                (Some(regions), Ok(next)) => Ok(
                    GspInitResponseState {
                        fb_regions: regions,
                        fb_current: Some((pair.index, next)),
                        ..self
                    },
                ),
            }
        }
    }

    /// The state after a pair, or `None` if the pair is of no known key.
    pub open spec fn visited(self, pair: Pair) -> Option<Result<Self, Error>> {
        if FbRegionSchema::has_key(pair.key) {
            Some(self.fb_visited(pair))
        } else if pair.key == GspInitResponseSchema::FIFO_ENGINE_GMC_ID_KEY {
            Some(
                match pair.value {
                    Value::Scalar32(id) if pair.index < MAX_FIFO_ENGINES => Ok(
                        GspInitResponseState {
                            fifo_engine_gmc_ids: self.fifo_engine_gmc_ids.update(
                                pair.index as int,
                                id,
                            ),
                            ..self
                        },
                    ),
                    _ => Err(Error::EINVAL),
                },
            )
        } else if pair.key == GspInitResponseSchema::FIFO_ENGINE_FLAGS_KEY {
            Some(
                match pair.value {
                    Value::Scalar32(flags) if pair.index < MAX_FIFO_ENGINES => Ok(
                        GspInitResponseState {
                            fifo_engine_flags: self.fifo_engine_flags.update(
                                pair.index as int,
                                flags,
                            ),
                            ..self
                        },
                    ),
                    _ => Err(Error::EINVAL),
                },
            )
        } else if pair.key == GspInitResponseSchema::GPU_NAME_STRING_KEY {
            Some(
                match pair.value {
                    Value::Array8(name) if pair.index == 0 && name.len()
                        <= GspInitResponse::MAX_GPU_NAME_LEN => Ok(
                        GspInitResponseState { gpu_name: name, ..self },
                    ),
                    _ => Err(Error::EINVAL),
                },
            )
        } else if pair.key == GspInitResponseSchema::BAR1_PDE_BASE_KEY {
            Some(
                match pair.value {
                    Value::Scalar64(base) if pair.index == 0 => Ok(
                        GspInitResponseState { bar1_pde_base: Some(base), ..self },
                    ),
                    _ => Err(Error::EINVAL),
                },
            )
        } else if pair.key == GspInitResponseSchema::VMMU_SEGMENT_SIZE_KEY {
            Some(
                match pair.value {
                    Value::Scalar64(size) if pair.index == 0 => Ok(
                        GspInitResponseState { vmmu_segment_size: size, ..self },
                    ),
                    _ => Err(Error::EINVAL),
                },
            )
        } else if pair.key == GspInitResponseSchema::FIFO_ENGINE_COUNT_KEY {
            Some(
                match pair.value {
                    Value::Scalar32(count) if pair.index == 0 => Ok(
                        GspInitResponseState { fifo_engine_count: count, ..self },
                    ),
                    _ => Err(Error::EINVAL),
                },
            )
        } else {
            None
        }
    }
}

/// Schema for the `GSP_INIT` response. The BAR1 page directory is required.
pub struct GspInitResponseSchema {
    gpu_name: Vec<u8>,
    fb_regions: Vec<FbRegion>,
    fb_current: Option<(u16, FbRegionSchema)>,
    bar1_pde_base: Option<u64>,
    vmmu_segment_size: u64,
    fifo_engine_count: u32,
    fifo_engine_gmc_ids: [u32; 64],
    fifo_engine_flags: [u32; 64],
}

impl GspInitResponseSchema {
    pub const GPU_NAME_STRING_KEY: u16 = 0x2000;

    pub const BAR1_PDE_BASE_KEY: u16 = 0x1020;

    pub const VMMU_SEGMENT_SIZE_KEY: u16 = 0x1050;

    pub const FIFO_ENGINE_COUNT_KEY: u16 = 0x0500;

    pub const FIFO_ENGINE_GMC_ID_KEY: u16 = 0x0501;

    pub const FIFO_ENGINE_FLAGS_KEY: u16 = 0x0502;

    /// Returns the schema that has visited nothing.
    pub fn default() -> (schema: Self)
        ensures
            schema.state() == Self::empty(),
    {
        let schema = GspInitResponseSchema {
            gpu_name: Vec::new(),
            fb_regions: Vec::new(),
            fb_current: None,
            bar1_pde_base: None,
            vmmu_segment_size: 0,
            fifo_engine_count: 0,
            fifo_engine_gmc_ids: [0;64],
            fifo_engine_flags: [0;64],
        };
        assert(schema.state() =~= Self::empty());
        schema
    }

    /// Stores a value of an FB region.
    fn visit_fb(&mut self, key: KeyId, index: Index, value: DecoderValue<'_>) -> (result: Result<
        bool,
        Error,
    >)
        requires
            FbRegionSchema::has_key(key),
        ensures
            ({
                let pair = Pair { key, index: index.get(), value: value@ };
                match old(self).state().fb_visited(pair) {
                    Ok(next) => final(self).state() == next && result == Ok::<bool, Error>(true),
                    Err(error) => final(self).state() == old(self).state() && result == Err::<
                        bool,
                        Error,
                    >(error),
                }
            }),
    {
        match self.fb_current {
            Some((current_index, current)) => {
                if current_index == index.get() {
                    return match current.store(key, value) {
                        Ok(next) => {
                            self.fb_current = Some((current_index, next));
                            Ok(true)
                        },
                        Err(error) => Err(error),
                    };
                }
                match current.complete() {
                    Some(region) => match FbRegionSchema::default().store(key, value) {
                        Ok(next) => {
                            self.fb_regions.push(region);
                            self.fb_current = Some((index.get(), next));
                            Ok(true)
                        },
                        Err(error) => Err(error),
                    },
                    None => Err(Error::EINVAL),
                }
            },
            None => match FbRegionSchema::default().store(key, value) {
                Ok(next) => {
                    self.fb_current = Some((index.get(), next));
                    Ok(true)
                },
                Err(error) => Err(error),
            },
        }
    }
}

impl Schema for GspInitResponseSchema {
    type Target = GspInitResponse;

    type State = GspInitResponseState;

    closed spec fn state(&self) -> GspInitResponseState {
        GspInitResponseState {
            gpu_name: self.gpu_name@,
            fb_regions: self.fb_regions@,
            fb_current: self.fb_current,
            bar1_pde_base: self.bar1_pde_base,
            vmmu_segment_size: self.vmmu_segment_size,
            fifo_engine_count: self.fifo_engine_count,
            fifo_engine_gmc_ids: self.fifo_engine_gmc_ids@,
            fifo_engine_flags: self.fifo_engine_flags@,
        }
    }

    open spec fn empty() -> GspInitResponseState {
        GspInitResponseState {
            gpu_name: seq![],
            fb_regions: seq![],
            fb_current: None,
            bar1_pde_base: None,
            vmmu_segment_size: 0,
            fifo_engine_count: 0,
            fifo_engine_gmc_ids: Seq::new(64, |i: int| 0u32),
            fifo_engine_flags: Seq::new(64, |i: int| 0u32),
        }
    }

    open spec fn visited(state: GspInitResponseState, pair: Pair) -> (
        GspInitResponseState,
        Result<bool, Error>,
    ) {
        match state.visited(pair) {
            None => (state, Ok(false)),
            Some(Ok(next)) => (next, Ok(true)),
            Some(Err(error)) => (state, Err(error)),
        }
    }

    open spec fn produces(
        state: GspInitResponseState,
        result: Result<GspInitResponse, Error>,
    ) -> bool {
        match result {
            Ok(response) => {
                &&& state.bar1_pde_base is Some
                &&& state.all_regions() is Some
                &&& response.gpu_name@ == state.gpu_name
                &&& response.fb_regions@ == state.all_regions().unwrap()
                &&& response.bar1_pde_base == state.bar1_pde_base.unwrap()
                &&& response.vmmu_segment_size == state.vmmu_segment_size
                &&& response.fifo_engine_count == state.fifo_engine_count
                &&& response.fifo_engine_gmc_ids@ == state.fifo_engine_gmc_ids
                &&& response.fifo_engine_flags@ == state.fifo_engine_flags
            },
            Err(error) => {
                &&& state.bar1_pde_base is None || state.all_regions() is None
                    || state.gpu_name.len() > GspInitResponse::MAX_GPU_NAME_LEN
                &&& error == Error::EINVAL
            },
        }
    }

    fn visit<'a>(&mut self, key: KeyId, index: Index, value: DecoderValue<'a>) -> (result: Result<
        bool,
        Error,
    >) {
        let slot: usize = index.get() as usize;
        if key == 0x1011 || key == 0x1012 || key == 0x0012 || key == 0x0013 {
            return self.visit_fb(key, index, value);
        }
        match (key, value) {
            (0x0501, DecoderValue::Scalar32(id)) => {
                if slot >= MAX_FIFO_ENGINES {
                    return Err(Error::EINVAL);
                }
                self.fifo_engine_gmc_ids[slot] = id;
                Ok(true)
            },
            (0x0502, DecoderValue::Scalar32(flags)) => {
                if slot >= MAX_FIFO_ENGINES {
                    return Err(Error::EINVAL);
                }
                self.fifo_engine_flags[slot] = flags;
                Ok(true)
            },
            (0x2000, DecoderValue::Array8(name)) => {
                if slot != 0 || name.len() > GspInitResponse::MAX_GPU_NAME_LEN {
                    return Err(Error::EINVAL);
                }
                self.gpu_name = slice_to_vec(name);
                Ok(true)
            },
            (0x1020, DecoderValue::Scalar64(base)) => {
                if slot != 0 {
                    return Err(Error::EINVAL);
                }
                self.bar1_pde_base = Some(base);
                Ok(true)
            },
            (0x1050, DecoderValue::Scalar64(size)) => {
                if slot != 0 {
                    return Err(Error::EINVAL);
                }
                self.vmmu_segment_size = size;
                Ok(true)
            },
            (0x0500, DecoderValue::Scalar32(count)) => {
                if slot != 0 {
                    return Err(Error::EINVAL);
                }
                self.fifo_engine_count = count;
                Ok(true)
            },
            (0x0501, _) | (0x0502, _) | (0x2000, _) | (0x1020, _) | (0x1050, _) | (0x0500, _) => {
                Err(Error::EINVAL)
            },
            _ => Ok(false),
        }
    }

    fn finish(&mut self) -> (result: Result<GspInitResponse, Error>) {
        let mut taken = GspInitResponseSchema::default();
        std::mem::swap(&mut taken, self);
        let mut fb_regions = taken.fb_regions;
        match taken.fb_current {
            Some((_, current)) => match current.complete() {
                Some(region) => {
                    fb_regions.push(region);
                },
                None => {
                    return Err(Error::EINVAL);
                },
            },
            None => {},
        }
        let bar1_pde_base: u64 = match taken.bar1_pde_base {
            Some(base) => base,
            None => {
                return Err(Error::EINVAL);
            },
        };
        let mut gpu_name: ArrayVec<u8, 64> = ArrayVec::empty();
        match gpu_name.set_from_slice(taken.gpu_name.as_slice()) {
            Ok(_) => {},
            Err(error) => {
                return Err(error);
            },
        }
        Ok(
            GspInitResponse {
                gpu_name,
                fb_regions,
                bar1_pde_base,
                vmmu_segment_size: taken.vmmu_segment_size,
                fifo_engine_count: taken.fifo_engine_count,
                fifo_engine_gmc_ids: taken.fifo_engine_gmc_ids,
                fifo_engine_flags: taken.fifo_engine_flags,
            },
        )
    }
}

/// Payload of the `GSP_INIT` response.
pub struct GspInitResponse {
    pub gpu_name: ArrayVec<u8, 64>,
    pub fb_regions: Vec<FbRegion>,
    pub bar1_pde_base: u64,
    pub vmmu_segment_size: u64,
    pub fifo_engine_count: u32,
    pub fifo_engine_gmc_ids: [u32; 64],
    pub fifo_engine_flags: [u32; 64],
}

/// The address ranges of the regions that the driver may allocate from, in order.
pub open spec fn usable_ranges(regions: Seq<FbRegion>) -> Seq<Range<u64>>
    decreases regions.len(),
{
    if regions.len() == 0 {
        seq![]
    } else {
        let rest = usable_ranges(regions.drop_last());
        let region = regions.last();
        if region.usable() {
            rest.push(Range { start: region.base, end: (region.limit + 1) as u64 })
        } else {
            rest
        }
    }
}

/// Whether `end` is the exclusive end of an address space that spans all `regions`. `None` stands
/// for a space that has no region with a limit at or above its base, or whose end is no address.
pub open spec fn is_fb_end(regions: Seq<FbRegion>, end: Option<u64>) -> bool {
    match end {
        Some(end) => {
            &&& exists|i: int|
                0 <= i < regions.len() && (#[trigger] regions[i]).base <= regions[i].limit
                    && regions[i].limit + 1 == end
            &&& forall|i: int|
                0 <= i < regions.len() && (#[trigger] regions[i]).base <= regions[i].limit
                    ==> regions[i].limit < end
        },
        None => {
            ||| forall|i: int|
                0 <= i < regions.len() ==> (#[trigger] regions[i]).base > regions[i].limit
            ||| exists|i: int|
                0 <= i < regions.len() && (#[trigger] regions[i]).base <= regions[i].limit
                    && regions[i].limit == u64::MAX
        },
    }
}

impl GspInitResponse {
    pub const MAX_GPU_NAME_LEN: usize = 64;

    /// Returns the GPU name, which GSP-RM sends with its NULL terminator.
    pub fn gpu_name(&self) -> (name: &[u8])
        ensures
            name@ == self.gpu_name@,
            name@.len() <= 64,
    {
        self.gpu_name.as_slice()
    }

    /// Returns the BAR1 root page table address set up by GSP-RM firmware.
    pub fn bar1_pde_base(&self) -> (base: u64)
        ensures
            base == self.bar1_pde_base,
    {
        self.bar1_pde_base
    }

    /// Returns the FB regions the driver may allocate from.
    ///
    /// A region qualifies when it is untagged, unprotected, and supports both compression and
    /// isochronous access.
    pub fn usable_fb_regions(&self) -> (ranges: Vec<Range<u64>>)
        ensures
            ranges@ == usable_ranges(self.fb_regions@),
    {
        let mut ranges: Vec<Range<u64>> = Vec::new();
        let mut i: usize = 0;
        assert(self.fb_regions@.take(0) =~= seq![]);
        while i < self.fb_regions.len()
            invariant
                i <= self.fb_regions@.len(),
                ranges@ == usable_ranges(self.fb_regions@.take(i as int)),
            decreases self.fb_regions@.len() - i,
        {
            let region = self.fb_regions[i];
            proof {
                let next = self.fb_regions@.take(i + 1);
                assert(next.drop_last() =~= self.fb_regions@.take(i as int));
            }
            if region.limit >= region.base && region.tag == 0 && !region.flags.protected()
                && region.flags.support_compressed() && region.flags.support_iso() {
                match region.limit.checked_add(1) {
                    Some(end) => {
                        ranges.push(Range { start: region.base, end });
                    },
                    None => {},
                }
            }
            i = i + 1;
        }
        assert(self.fb_regions@.take(i as int) =~= self.fb_regions@);
        ranges
    }

    /// Returns the exclusive end of the FB physical address space.
    ///
    /// Every region counts here, including the tagged and protected ones that
    /// [`Self::usable_fb_regions`] rejects, because the address space has to span them all.
    ///
    /// Returns `None` if GSP-RM reported no region with a limit at or above its base.
    pub fn total_fb_end(&self) -> (end: Option<u64>)
        ensures
            is_fb_end(self.fb_regions@, end),
    {
        let ghost regions = self.fb_regions@;
        let mut limit: Option<u64> = None;
        let ghost mut at: int = 0;
        let mut i: usize = 0;
        while i < self.fb_regions.len()
            invariant
                i <= regions.len(),
                regions == self.fb_regions@,
                limit is None ==> forall|j: int|
                    0 <= j < i ==> (#[trigger] regions[j]).base > regions[j].limit,
                limit matches Some(limit) ==> 0 <= at < i && regions[at].base <= regions[at].limit
                    && regions[at].limit == limit && forall|j: int|
                    0 <= j < i && (#[trigger] regions[j]).base <= regions[j].limit
                        ==> regions[j].limit <= limit,
            decreases regions.len() - i,
        {
            let region = self.fb_regions[i];
            if region.limit >= region.base {
                let larger = match limit {
                    Some(limit) => region.limit > limit,
                    None => true,
                };
                if larger {
                    limit = Some(region.limit);
                    proof {
                        at = i as int;
                    }
                }
            }
            i = i + 1;
        }
        match limit {
            Some(limit) => {
                assert(regions[at].limit == limit);
                limit.checked_add(1)
            },
            None => None,
        }
    }

    /// Returns the VMMU segment size in bytes, or zero if GSP-RM omitted it.
    pub fn vmmu_segment_size(&self) -> (size: u64)
        ensures
            size == self.vmmu_segment_size,
    {
        self.vmmu_segment_size
    }

    /// Returns the FIFO engine count, limited to the supported table capacity.
    ///
    /// An omitted count is zero. Indexed entries outside the capacity are rejected during decode.
    pub fn fifo_engine_count(&self) -> (count: usize)
        ensures
            count == if self.fifo_engine_count <= 64 {
                self.fifo_engine_count as int
            } else {
                64
            },
    {
        if self.fifo_engine_count as usize <= MAX_FIFO_ENGINES {
            self.fifo_engine_count as usize
        } else {
            MAX_FIFO_ENGINES
        }
    }

    /// Returns GMC engine IDs by hardware FIFO order; omitted slots contain zero.
    pub fn fifo_engine_gmc_ids(&self) -> (ids: &[u32; 64])
        ensures
            *ids == self.fifo_engine_gmc_ids,
    {
        &self.fifo_engine_gmc_ids
    }

    /// Returns per-engine flags by hardware FIFO order; omitted slots contain zero.
    pub fn fifo_engine_flags(&self) -> (flags: &[u32; 64])
        ensures
            *flags == self.fifo_engine_flags,
    {
        &self.fifo_engine_flags
    }
}

/// Every range that the driver may allocate from lies below the end of the address space.
pub proof fn law_usable_ranges_below_end(regions: Seq<FbRegion>, end: u64, i: int)
    requires
        is_fb_end(regions, Some(end)),
        0 <= i < usable_ranges(regions).len(),
    ensures
        usable_ranges(regions)[i].start < usable_ranges(regions)[i].end <= end,
{
    lemma_usable_range_of(regions, i);
}

/// Every range that the driver may allocate from is that of a usable region.
proof fn lemma_usable_range_of(regions: Seq<FbRegion>, i: int)
    requires
        0 <= i < usable_ranges(regions).len(),
    ensures
        exists|j: int|
            0 <= j < regions.len() && (#[trigger] regions[j]).usable()
                && usable_ranges(regions)[i].start == regions[j].base
                && usable_ranges(regions)[i].end == regions[j].limit + 1,
    decreases regions.len(),
{
    let rest = regions.drop_last();
    if i < usable_ranges(rest).len() {
        lemma_usable_range_of(rest, i);
        let j = choose|j: int|
            0 <= j < rest.len() && (#[trigger] rest[j]).usable() && usable_ranges(rest)[i].start
                == rest[j].base && usable_ranges(rest)[i].end == rest[j].limit + 1;
        assert(regions[j] == rest[j]);
    } else {
        assert(regions[regions.len() - 1] == regions.last());
    }
}

/// The flags of a region are digits of their number.
proof fn lemma_flag_digits(flags: u32)
    by (bit_vector)
    ensures
        bit32(flags, 0) == (flags % 2 == 1),
        bit32(flags, 1) == (flags / 2 % 2 == 1),
        bit32(flags, 2) == (flags / 4 % 2 == 1),
{
}

/// The ranges that the driver may allocate from are those of exactly the regions with a base not
/// above the limit, a limit whose successor is an address, no tag, and, of the lowest three flags,
/// compression and isochronous access but not protection. They are in the order of the regions:
/// `picked` gives for each range the index of its region.
pub proof fn law_usable_ranges(regions: Seq<FbRegion>) -> (picked: Seq<int>)
    ensures
        picked.len() == usable_ranges(regions).len(),
        forall|k: int|
            0 <= k < picked.len() ==> {
                &&& 0 <= #[trigger] picked[k] < regions.len()
                &&& usable_ranges(regions)[k].start == regions[picked[k]].base
                &&& usable_ranges(regions)[k].end == regions[picked[k]].limit + 1
            },
        forall|k: int, l: int| 0 <= k < l < picked.len() ==> #[trigger] picked[k] < #[trigger] picked[l],
        forall|j: int|
            0 <= j < regions.len() ==> {
                let region = #[trigger] regions[j];
                picked.contains(j) <==> region.base <= region.limit && region.limit < u64::MAX
                    && region.tag == 0 && region.flags.raw % 8 == 3
            },
    decreases regions.len(),
{
    if regions.len() == 0 {
        Seq::empty()
    } else {
        let rest = regions.drop_last();
        let last = regions.len() - 1;
        let before = law_usable_ranges(rest);
        let region = regions.last();
        lemma_flag_digits(region.flags.raw);
        let picked = if region.usable() {
            before.push(last)
        } else {
            before
        };
        assert forall|j: int| 0 <= j < regions.len() implies {
            let region = #[trigger] regions[j];
            picked.contains(j) <==> region.base <= region.limit && region.limit < u64::MAX
                && region.tag == 0 && region.flags.raw % 8 == 3
        } by {
            if j < last {
                assert(rest[j] == regions[j]);
                if before.contains(j) {
                    let k = choose|k: int| 0 <= k < before.len() && before[k] == j;
                    assert(picked[k] == j);
                }
                if picked.contains(j) {
                    let k = choose|k: int| 0 <= k < picked.len() && picked[k] == j;
                    assert(before[k] == j);
                }
            } else {
                if region.usable() {
                    assert(picked[before.len() as int] == j);
                }
                if picked.contains(j) && !region.usable() {
                    let k = choose|k: int| 0 <= k < before.len() && before[k] == j;
                    assert(before[k] < rest.len());
                }
            }
        }
        picked
    }
}

/// The end of the address space is one above the highest limit: another region moves it up to its
/// own end where that is higher, and leaves it where its limit is below its base. Tags and flags do
/// not matter. There is no end without a region.
pub proof fn law_fb_end_of_another_region(regions: Seq<FbRegion>, end: u64, region: FbRegion)
    ensures
        is_fb_end(Seq::empty(), None) && !is_fb_end(Seq::empty(), Some(end)),
        region.base <= region.limit && region.limit < u64::MAX ==> is_fb_end(
            seq![region],
            Some((region.limit + 1) as u64),
        ),
        is_fb_end(regions, Some(end)) && region.base <= region.limit && region.limit < u64::MAX
            ==> is_fb_end(
            regions.push(region),
            Some(
                if region.limit < end {
                    end
                } else {
                    (region.limit + 1) as u64
                },
            ),
        ),
        is_fb_end(regions, Some(end)) && region.base > region.limit ==> is_fb_end(
            regions.push(region),
            Some(end),
        ),
        region.base <= region.limit && region.limit == u64::MAX ==> is_fb_end(
            regions.push(region),
            None,
        ) && !is_fb_end(regions.push(region), Some(end)),
{
    let more = regions.push(region);
    assert(more[regions.len() as int] == region);
    assert(seq![region][0] == region);
    if is_fb_end(regions, Some(end)) {
        let i = choose|i: int|
            0 <= i < regions.len() && (#[trigger] regions[i]).base <= regions[i].limit
                && regions[i].limit + 1 == end;
        assert(more[i] == regions[i]);
    }
}

/// The end of an address space is one number.
pub proof fn law_fb_end_is_unique(regions: Seq<FbRegion>, first: Option<u64>, second: Option<u64>)
    requires
        is_fb_end(regions, first),
        is_fb_end(regions, second),
    ensures
        first == second,
{
}

/// The numbers of the host architectures, and no others, stand for them.
pub proof fn law_host_architecture_numbers(code: u32)
    ensures
        HostArch::Unknown.code() == 0,
        HostArch::X86_64.code() == 1,
        HostArch::Ppc64le.code() == 2,
        HostArch::Arm.code() == 3,
        HostArch::Aarch64.code() == 4,
        HostArch::Riscv64.code() == 5,
        match <HostArch as vstd::std_specs::convert::TryFromSpec<u32>>::try_from_spec(code) {
            Ok(arch) => code <= 5 && arch.code() == code,
            Err(error) => code > 5 && error == Error::EINVAL,
        },
{
}

/// The location of a device has its domain from bit 32 on, its bus in bits 15:8 and its device number
/// in the lowest bits. The functions of one device share it.
pub proof fn law_location_digits(dev: PciDevice, function: PciDevice)
    requires
        function.domain_nr == dev.domain_nr,
        function.dev_id / 8 == dev.dev_id / 8,
    ensures
        dev.spec_domain_bus_device() / 0x1_0000_0000 == dev.domain_nr,
        dev.spec_domain_bus_device() / 0x100 % 0x100_0000 == dev.dev_id / 256,
        dev.spec_domain_bus_device() % 0x100 == dev.dev_id / 8 % 32,
        function.spec_domain_bus_device() == dev.spec_domain_bus_device(),
{
}

/// A region is read from its four pairs, which share an index: its base under `0x1011`, its limit
/// under `0x1012`, its flags under `0x0012` and its tag under `0x0013`. It comes after the regions
/// that were complete before.
pub proof fn law_region_of_pairs(
    state: GspInitResponseState,
    index: u16,
    base: u64,
    limit: u64,
    flags: u32,
    tag: u32,
)
    requires
        state.fb_current is None,
    ensures
        ({
            let after_base = state.visited(
                Pair { key: 0x1011, index, value: Value::Scalar64(base) },
            );
            &&& after_base matches Some(Ok(s1))
            &&& s1.visited(Pair { key: 0x1012, index, value: Value::Scalar64(limit) }) matches Some(
                Ok(s2),
            )
            &&& s2.visited(Pair { key: 0x0012, index, value: Value::Scalar32(flags) }) matches Some(
                Ok(s3),
            )
            &&& s3.visited(Pair { key: 0x0013, index, value: Value::Scalar32(tag) }) matches Some(
                Ok(s4),
            )
            &&& s1.all_regions() is None && s2.all_regions() is None && s3.all_regions() is None
            &&& s4.all_regions() == Some(
                state.fb_regions.push(
                    FbRegion { base, limit, flags: FbRegionFlags { raw: flags }, tag },
                ),
            )
            &&& s4.bar1_pde_base == state.bar1_pde_base && s4.gpu_name == state.gpu_name
        }),
{
}

/// A pair of another index starts the next region, if the one being read is complete, and is refused
/// if it is not.
pub proof fn law_next_region(state: GspInitResponseState, index: u16, base: u64)
    requires
        state.fb_current matches Some((current, _)) && current != index,
    ensures
        ({
            let next = state.visited(Pair { key: 0x1011, index, value: Value::Scalar64(base) });
            match state.all_regions() {
                Some(regions) => next matches Some(Ok(next)) && next.fb_regions == regions
                    && next.fb_current == Some(
                    (
                        index,
                        FbRegionSchema { base: Some(base), limit: None, flags: None, tag: None },
                    ),
                ),
                None => next == Some(Err::<GspInitResponseState, Error>(Error::EINVAL)),
            }
        }),
{
}

/// The other keys of a response: each pair sets its own field and leaves the others.
pub proof fn law_response_keys(
    state: GspInitResponseState,
    name: Seq<u8>,
    wide: u64,
    number: u32,
    index: u16,
)
    requires
        index < 64,
        name.len() <= 64,
    ensures
        state.visited(Pair { key: 0x2000, index: 0, value: Value::Array8(name) }) == Some(
            Ok::<_, Error>(GspInitResponseState { gpu_name: name, ..state }),
        ),
        state.visited(Pair { key: 0x1020, index: 0, value: Value::Scalar64(wide) }) == Some(
            Ok::<_, Error>(GspInitResponseState { bar1_pde_base: Some(wide), ..state }),
        ),
        state.visited(Pair { key: 0x1050, index: 0, value: Value::Scalar64(wide) }) == Some(
            Ok::<_, Error>(GspInitResponseState { vmmu_segment_size: wide, ..state }),
        ),
        state.visited(Pair { key: 0x0500, index: 0, value: Value::Scalar32(number) }) == Some(
            Ok::<_, Error>(GspInitResponseState { fifo_engine_count: number, ..state }),
        ),
        state.visited(Pair { key: 0x0501, index, value: Value::Scalar32(number) }) == Some(
            Ok::<_, Error>(
                GspInitResponseState {
                    fifo_engine_gmc_ids: state.fifo_engine_gmc_ids.update(index as int, number),
                    ..state
                },
            ),
        ),
        state.visited(Pair { key: 0x0502, index, value: Value::Scalar32(number) }) == Some(
            Ok::<_, Error>(
                GspInitResponseState {
                    fifo_engine_flags: state.fifo_engine_flags.update(index as int, number),
                    ..state
                },
            ),
        ),
{
}

/// The other pairs of a response: one of an unknown key is passed over, and one of a known key with a
/// value of another kind, or an index out of range, is refused.
pub proof fn law_response_refusals(state: GspInitResponseState, pair: Pair)
    ensures
        ({
            let wide = pair.key == 0x1011 || pair.key == 0x1012 || pair.key == 0x1020 || pair.key
                == 0x1050;
            let narrow = pair.key == 0x0012 || pair.key == 0x0013 || pair.key == 0x0500 || pair.key
                == 0x0501 || pair.key == 0x0502;
            let refused = state.visited(pair) == Some(
                Err::<GspInitResponseState, Error>(Error::EINVAL),
            );
            &&& state.visited(pair) is None <==> !wide && !narrow && pair.key != 0x2000
            &&& wide && !(pair.value is Scalar64) ==> refused
            &&& narrow && !(pair.value is Scalar32) ==> refused
            &&& pair.key == 0x2000 && !(pair.value is Array8) ==> refused
            &&& (pair.key == 0x2000 || pair.key == 0x1020 || pair.key == 0x1050 || pair.key
                == 0x0500) && pair.index != 0 ==> refused
            &&& (pair.key == 0x0501 || pair.key == 0x0502) && pair.index >= 64 ==> refused
            &&& pair.key == 0x2000 && (pair.value matches Value::Array8(name) && name.len() > 64)
                ==> refused
        }),
{
}

/// A response holds what its pairs have left: it needs the BAR1 page directory and only complete
/// regions, and what was not sent is empty or zero.
pub proof fn law_response_of_state(
    state: GspInitResponseState,
    response: GspInitResponse,
    error: Error,
)
    ensures
        GspInitResponseSchema::produces(state, Ok(response)) ==> {
            &&& state.bar1_pde_base == Some(response.bar1_pde_base)
            &&& state.all_regions() == Some(response.fb_regions@)
            &&& response.gpu_name@ == state.gpu_name
            &&& response.vmmu_segment_size == state.vmmu_segment_size
            &&& response.fifo_engine_count == state.fifo_engine_count
            &&& response.fifo_engine_gmc_ids@ == state.fifo_engine_gmc_ids
            &&& response.fifo_engine_flags@ == state.fifo_engine_flags
        },
        GspInitResponseSchema::produces(state, Err(error)) && state.gpu_name.len() <= 64 ==> error
            == Error::EINVAL && (state.bar1_pde_base is None || state.all_regions() is None),
        ({
            let empty = GspInitResponseSchema::empty();
            &&& empty.gpu_name.len() == 0 && empty.fb_regions.len() == 0
            &&& empty.fb_current is None && empty.bar1_pde_base is None
            &&& empty.all_regions() == Some(Seq::<FbRegion>::empty())
            &&& empty.vmmu_segment_size == 0 && empty.fifo_engine_count == 0
            &&& empty.fifo_engine_gmc_ids.len() == 64 && empty.fifo_engine_flags.len() == 64
            &&& forall|i: int| 0 <= i < 64 ==> empty.fifo_engine_gmc_ids[i] == 0
            &&& forall|i: int| 0 <= i < 64 ==> empty.fifo_engine_flags[i] == 0
        }),
{
    assert(GspInitResponseSchema::empty().fb_regions =~= Seq::<FbRegion>::empty());
}

/// The topology of the virtual functions is written as six pairs of index 0, in this order.
pub proof fn law_vf_info_pairs(info: VfInfo)
    ensures
        info.pairs() =~= seq![
            Pair { key: 0x0080, index: 0, value: Value::Scalar32(info.total_vfs.0) },
            Pair { key: 0x0081, index: 0, value: Value::Scalar32(info.first_vf_offset.0) },
            Pair { key: 0x1003, index: 0, value: Value::Scalar64(info.flags.0) },
            Pair { key: 0x1050, index: 0, value: Value::Scalar64(info.first_bar0_address.0) },
            Pair { key: 0x1051, index: 0, value: Value::Scalar64(info.first_bar1_address.0) },
            Pair { key: 0x1052, index: 0, value: Value::Scalar64(info.first_bar2_address.0) },
        ],
{
}

/// A registry entry is written as its name, then its value.
pub proof fn law_regkey_pairs(entry: RegKey)
    ensures
        entry.pairs() =~= seq![
            Pair { key: 0x3070, index: 0, value: Value::Array8(entry.key_name.0@) },
            Pair { key: 0x3071, index: 0, value: Value::Scalar32(entry.key_value.0) },
        ],
{
}

/// A request is written as the seven pairs that describe the device, of index 0 and in this order,
/// then the registry entries and the topology of the virtual functions.
pub proof fn law_request_pairs(request: GspInitRequest)
    ensures
        request.pairs().len() == 7 + request.regkeys.pairs().len() + request.vf_info.pairs().len(),
        request.pairs().take(7) =~= seq![
            Pair { key: 0x0001, index: 0, value: Value::Scalar32(request.pci_device_id.0) },
            Pair { key: 0x0002, index: 0, value: Value::Scalar32(request.pci_sub_device_id.0) },
            Pair { key: 0x0003, index: 0, value: Value::Scalar32(request.pci_revision_id.0) },
            Pair { key: 0x0010, index: 0, value: Value::Scalar32(request.pci_config_mirror_base.0) },
            Pair { key: 0x0011, index: 0, value: Value::Scalar32(request.pci_config_mirror_size.0) },
            Pair { key: 0x0070, index: 0, value: Value::Scalar32(request.host_arch.0.code()) },
            Pair { key: 0x1020, index: 0, value: Value::Scalar64(request.bus_device_func.0) },
        ],
        request.pairs().skip(7) =~= request.regkeys.pairs() + request.vf_info.pairs(),
{
}

/// A schema of one region takes the four keys of a region, with index 0, and passes over the others.
/// It produces the region once all four have been there.
pub proof fn law_region_schema(
    state: FbRegionSchema,
    pair: Pair,
    base: u64,
    limit: u64,
    flags: u32,
    tag: u32,
)
    ensures
        ({
            let ours = pair.key == 0x1011 || pair.key == 0x1012 || pair.key == 0x0012 || pair.key
                == 0x0013;
            let (next, result) = FbRegionSchema::visited(state, pair);
            &&& !ours ==> next == state && result == Ok::<bool, Error>(false)
            &&& ours && pair.index != 0 ==> next == state && result == Err::<bool, Error>(
                Error::EINVAL,
            )
            &&& ours && pair.index == 0 ==> result == match pair.value {
                Value::Scalar64(_) if pair.key >= 0x1000 => Ok::<bool, Error>(true),
                Value::Scalar32(_) if pair.key < 0x1000 => Ok(true),
                _ => Err(Error::EINVAL),
            }
            &&& result is Err ==> next == state
        }),
        ({
            let done = FbRegionSchema {
                base: Some(base),
                limit: Some(limit),
                flags: Some(flags),
                tag: Some(tag),
            };
            &&& FbRegionSchema::produces(
                done,
                Ok(FbRegion { base, limit, flags: FbRegionFlags { raw: flags }, tag }),
            )
            &&& !FbRegionSchema::produces(done, Err(Error::EINVAL))
            &&& state.base is None || state.limit is None || state.flags is None || state.tag is None
                ==> FbRegionSchema::produces(state, Err(Error::EINVAL)) && !FbRegionSchema::produces(
                state,
                Ok(FbRegion { base, limit, flags: FbRegionFlags { raw: flags }, tag }),
            )
        }),
        FbRegionSchema::empty() == (FbRegionSchema {
            base: None,
            limit: None,
            flags: None,
            tag: None,
        }),
{
}

/// Each key of a region sets its own field.
pub proof fn law_region_schema_fields(state: FbRegionSchema, wide: u64, number: u32)
    ensures
        FbRegionSchema::visited(
            state,
            Pair { key: 0x1011, index: 0, value: Value::Scalar64(wide) },
        ).0 == (FbRegionSchema { base: Some(wide), ..state }),
        FbRegionSchema::visited(
            state,
            Pair { key: 0x1012, index: 0, value: Value::Scalar64(wide) },
        ).0 == (FbRegionSchema { limit: Some(wide), ..state }),
        FbRegionSchema::visited(
            state,
            Pair { key: 0x0012, index: 0, value: Value::Scalar32(number) },
        ).0 == (FbRegionSchema { flags: Some(number), ..state }),
        FbRegionSchema::visited(
            state,
            Pair { key: 0x0013, index: 0, value: Value::Scalar32(number) },
        ).0 == (FbRegionSchema { tag: Some(number), ..state }),
{
}

/// The schema of a response consumes the pairs of the keys that it knows, and keeps its state on a pair
/// that it refuses or does not know.
pub proof fn law_response_schema(state: GspInitResponseState, pair: Pair)
    ensures
        ({
            let (next, result) = GspInitResponseSchema::visited(state, pair);
            &&& state.visited(pair) is None ==> next == state && result == Ok::<bool, Error>(false)
            &&& state.visited(pair) matches Some(Ok(after)) ==> next == after && result == Ok::<
                bool,
                Error,
            >(true)
            &&& state.visited(pair) matches Some(Err(error)) ==> next == state && result == Err::<
                bool,
                Error,
            >(error)
        }),
{
}

} // verus!
