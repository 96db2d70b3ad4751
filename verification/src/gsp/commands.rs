//! Commands sent to the GSP and the replies to them.

use core::ops::Range;

use vstd::prelude::*;
use vstd::utf8::{decode_utf8, encode_utf8, is_ascii_chars, is_ascii_chars_encode_utf8, valid_utf8};

use crate::bytes::{read_le, u64s_of_bytes, zeros};
use crate::error::Error;
use crate::gsp::fw::commands::{
    is_fb_end, usable_ranges, GspInitRequest, GspInitResponseSchema,
    GspInitResponseState, HostArch, PciDevice, RegKey, VfInfo,
};
use crate::gsp::nvkv::decode::decoded;
use crate::gsp::nvkv::encode::{encoded_all, encodes, fits, fitting, pairs_of_all};
use crate::gsp::nvkv::{
    Decoder, Encodable, EncodedStream, Encoder, Pair, Schema, UnknownKeyPolicy, Value,
};
use crate::vgpu::VgpuState;

verus! {

/// The static GPU configuration, as decoded from the `GSP_INIT` reply.
pub struct GetGspStaticInfoReply {
    pub gpu_name: [u8; 64],
    /// Usable FB (VRAM) regions for driver memory allocation.
    pub usable_fb_regions: Vec<Range<u64>>,
    /// Exclusive end of the FB physical address space, if there is any region.
    pub total_fb_end: Option<u64>,
    /// BAR1 root page table address set up by GSP-RM firmware.
    pub bar1_pde_base: u64,
}

/// Error type for [`GetGspStaticInfoReply::gpu_name`].
#[derive(Debug, Clone, Copy, PartialEq, Eq, Structural)]
pub enum GpuNameError {
    /// The GPU name string does not contain a null terminator.
    NoNullTerminator,
    /// The GPU name string contains invalid UTF-8.
    InvalidUtf8,
}

/// How many bytes come before the first NULL.
pub open spec fn until_nul(bytes: Seq<u8>) -> nat
    decreases bytes.len(),
{
    if bytes.len() == 0 || bytes[0] == 0 {
        0
    } else {
        1 + until_nul(bytes.skip(1))
    }
}

/// `core::str::from_utf8`: the bytes are a string if and only if they are valid UTF-8, and the
/// string is what they decode to.
#[verifier::external_body]
fn str_from_utf8(bytes: &[u8]) -> (string: Option<&str>)
    ensures
        string is Some <==> valid_utf8(bytes@),
        string matches Some(string) ==> string@ == decode_utf8(bytes@),
{
    core::str::from_utf8(bytes).ok()
}

/// The bytes before the place where nothing but a NULL or the end can follow.
proof fn lemma_until_nul(bytes: Seq<u8>, n: int)
    requires
        0 <= n <= bytes.len(),
        forall|i: int| 0 <= i < n ==> bytes[i] != 0,
        n == bytes.len() || bytes[n] == 0,
    ensures
        until_nul(bytes) == n,
    decreases n,
{
    if n > 0 {
        lemma_until_nul(bytes.skip(1), n - 1);
    }
}

impl GetGspStaticInfoReply {
    /// Returns the name of the GPU as a string.
    ///
    /// Returns an error if the string given by the GSP does not contain a null terminator or
    /// contains invalid UTF-8.
    pub fn gpu_name(&self) -> (name: Result<&str, GpuNameError>)
        ensures
            ({
                let len = until_nul(self.gpu_name@) as int;
                let text = self.gpu_name@.take(len);
                match name {
                    Ok(name) => len < 64 && valid_utf8(text) && name@ == decode_utf8(text),
                    Err(GpuNameError::NoNullTerminator) => len == 64,
                    Err(GpuNameError::InvalidUtf8) => len < 64 && !valid_utf8(text),
                }
            }),
    {
        let mut len: usize = 0;
        while len < 64 && self.gpu_name[len] != 0
            invariant
                len <= 64,
                forall|i: int| 0 <= i < len ==> self.gpu_name@[i] != 0,
            decreases 64 - len,
        {
            len = len + 1;
        }
        proof {
            lemma_until_nul(self.gpu_name@, len as int);
        }
        if len == 64 {
            return Err(GpuNameError::NoNullTerminator);
        }
        let bytes = self.gpu_name.as_slice();
        let (text, _) = bytes.split_at(len);
        assert(text@ =~= self.gpu_name@.take(len as int));
        match str_from_utf8(text) {
            Some(name) => Ok(name),
            None => Err(GpuNameError::InvalidUtf8),
        }
    }
}

/// The pairs of a registry entry: its name, then its value.
pub open spec fn regkey_pairs(name: Seq<char>, value: u32) -> Seq<Pair> {
    seq![
        Pair { key: 0x3070, index: 0, value: Value::Array8(encode_utf8(name)) },
        Pair { key: 0x3071, index: 0, value: Value::Scalar32(value) },
    ]
}

/// The registry entries that the driver sends to GSP-RM on every boot, and the one that it adds
/// where vGPU is enabled.
///
/// `RMSecBusResetEnable` enables PCI secondary bus reset. `RMForcePcieConfigSave` makes GSP-RM
/// preserve PCI configuration registers across any PCI reset. `RMDevidCheckIgnore` lets GSP-RM
/// boot when the PCI device id is absent from its product name database.
pub open spec fn registry_pairs(vgpu_state: VgpuState) -> Seq<Pair> {
    let always = regkey_pairs("RMSecBusResetEnable\0"@, 1) + regkey_pairs(
        "RMForcePcieConfigSave\0"@,
        1,
    ) + regkey_pairs("RMDevidCheckIgnore\0"@, 1);
    if vgpu_state is Enabled {
        always + regkey_pairs("RMSetSriovMode\0"@, 1)
    } else {
        always
    }
}

/// The pairs that describe a device to GSP-RM.
pub open spec fn system_info_pairs(
    dev: PciDevice,
    mirror: Range<u32>,
    host_arch: HostArch,
) -> Seq<Pair> {
    seq![
        Pair {
            key: 0x0001,
            index: 0,
            value: Value::Scalar32((dev.device_id * 0x1_0000 + dev.vendor_id) as u32),
        },
        Pair {
            key: 0x0002,
            index: 0,
            value: Value::Scalar32(
                (dev.subsystem_device_id * 0x1_0000 + dev.subsystem_vendor_id) as u32,
            ),
        },
        Pair { key: 0x0003, index: 0, value: Value::Scalar32(dev.revision_id as u32) },
        Pair { key: 0x0010, index: 0, value: Value::Scalar32(mirror.start) },
        Pair {
            key: 0x0011,
            index: 0,
            value: Value::Scalar32((mirror.end - mirror.start) as u32),
        },
        Pair { key: 0x0070, index: 0, value: Value::Scalar32(host_arch.code()) },
        Pair {
            key: 0x1020,
            index: 0,
            value: Value::Scalar64(dev.spec_domain_bus_device() as u64),
        },
    ]
}

/// The pairs of a `GSP_INIT` request.
pub open spec fn gsp_init_pairs(
    dev: PciDevice,
    mirror: Range<u32>,
    host_arch: HostArch,
    vgpu_state: VgpuState,
    vf_info: Option<VfInfo>,
) -> Seq<Pair> {
    system_info_pairs(dev, mirror, host_arch) + registry_pairs(vgpu_state) + vf_info.pairs()
}

/// Pairs that all fit are all written.
proof fn lemma_all_fitting(pairs: Seq<Pair>)
    requires
        forall|i: int| 0 <= i < pairs.len() ==> fits((#[trigger] pairs[i]).value),
    ensures
        fitting(pairs) == pairs.len(),
    decreases pairs.len(),
{
    if pairs.len() > 0 {
        assert forall|i: int| 0 <= i < pairs.skip(1).len() implies fits(
            (#[trigger] pairs.skip(1)[i]).value,
        ) by {
            assert(pairs.skip(1)[i] == pairs[i + 1]);
        }
        lemma_all_fitting(pairs.skip(1));
        assert(fits(pairs[0].value));
    }
}

/// A registry entry has the pairs of its name and its value.
proof fn lemma_regkey_pairs(entry: RegKey, name: Seq<char>, value: u32)
    requires
        entry.key_name.0@ == encode_utf8(name),
        entry.key_value.0 == value,
    ensures
        entry.pairs() == regkey_pairs(name, value),
{
    assert(entry.pairs() =~= regkey_pairs(name, value));
}

/// The pairs of one more item come after those of the items before it.
proof fn lemma_pairs_push<T: Encodable>(items: Seq<T>, item: T)
    ensures
        pairs_of_all(items.push(item)) == pairs_of_all(items) + item.pairs(),
{
    assert(items.push(item).drop_last() =~= items);
}

/// Adds the registry entry `name` with the value 1.
fn push_entry(regkeys: &mut Vec<RegKey>, name: &'static str)
    ensures
        pairs_of_all(final(regkeys)@) == pairs_of_all(old(regkeys)@) + regkey_pairs(name@, 1),
{
    let entry = RegKey::new(name.as_bytes(), 1);
    proof {
        lemma_regkey_pairs(entry, name@, 1);
        lemma_pairs_push(regkeys@, entry);
    }
    regkeys.push(entry);
}

/// Returns the registry entries to send to GSP-RM.
fn registry_entries(vgpu_state: VgpuState) -> (regkeys: Vec<RegKey>)
    ensures
        pairs_of_all(regkeys@) == registry_pairs(vgpu_state),
{
    let mut regkeys: Vec<RegKey> = Vec::new();
    push_entry(&mut regkeys, "RMSecBusResetEnable\0");
    push_entry(&mut regkeys, "RMForcePcieConfigSave\0");
    push_entry(&mut regkeys, "RMDevidCheckIgnore\0");
    assert(pairs_of_all(regkeys@) =~= regkey_pairs("RMSecBusResetEnable\0"@, 1) + regkey_pairs(
        "RMForcePcieConfigSave\0"@,
        1,
    ) + regkey_pairs("RMDevidCheckIgnore\0"@, 1));
    match vgpu_state {
        VgpuState::Enabled { .. } => {
            push_entry(&mut regkeys, "RMSetSriovMode\0");
        },
        VgpuState::Disabled => {},
    }
    regkeys
}

/// The names of the registry entries fit in an op word.
proof fn lemma_registry_fits(vgpu_state: VgpuState)
    ensures
        forall|i: int|
            0 <= i < registry_pairs(vgpu_state).len() ==> fits(
                (#[trigger] registry_pairs(vgpu_state)[i]).value,
            ),
{
    reveal_strlit("RMSecBusResetEnable\0");
    reveal_strlit("RMForcePcieConfigSave\0");
    reveal_strlit("RMDevidCheckIgnore\0");
    reveal_strlit("RMSetSriovMode\0");
    assert(is_ascii_chars("RMSecBusResetEnable\0"@));
    assert(is_ascii_chars("RMForcePcieConfigSave\0"@));
    assert(is_ascii_chars("RMDevidCheckIgnore\0"@));
    assert(is_ascii_chars("RMSetSriovMode\0"@));
    is_ascii_chars_encode_utf8("RMSecBusResetEnable\0"@);
    is_ascii_chars_encode_utf8("RMForcePcieConfigSave\0"@);
    is_ascii_chars_encode_utf8("RMDevidCheckIgnore\0"@);
    is_ascii_chars_encode_utf8("RMSetSriovMode\0"@);
}

/// Builds the NVKV-encoded payload of a `GSP_INIT` request.
///
/// The payload carries the system information GSP-RM reads before it starts, and the registry
/// entries as `REGKEY_NAME` and `REGKEY_VALUE_U32` pairs. GSP-RM requires each name to be followed
/// by its value, which is the order [`RegKey`] encodes them in.
///
/// `mirror` is the address range of the PCI config mirror space, `host_arch` the architecture of
/// the host and `vf_info` the topology of the virtual functions, if any.
pub fn build_gsp_init_payload(
    dev: &PciDevice,
    mirror: Range<u32>,
    host_arch: HostArch,
    vgpu_state: VgpuState,
    vf_info: Option<VfInfo>,
) -> (payload: Result<EncodedStream, Error>)
    requires
        mirror.start <= mirror.end,
    ensures
        payload matches Ok(stream) && stream@ == encoded_all(
            gsp_init_pairs(*dev, mirror, host_arch, vgpu_state, vf_info),
        ),
{
    let ghost pairs = gsp_init_pairs(*dev, mirror, host_arch, vgpu_state, vf_info);
    let ghost the_range = mirror;
    let regkeys = registry_entries(vgpu_state);
    let mut encoder = Encoder::new();
    let request = GspInitRequest::new(dev, mirror, host_arch, regkeys, vf_info);
    let result = request.encode(&mut encoder);
    proof {
        lemma_registry_fits(vgpu_state);
        assert(request.pairs() =~= pairs);
        let head = system_info_pairs(*dev, the_range, host_arch);
        let middle = registry_pairs(vgpu_state);
        assert forall|i: int| 0 <= i < pairs.len() implies fits((#[trigger] pairs[i]).value) by {
            if head.len() <= i < head.len() + middle.len() {
                assert(pairs[i] == middle[i - head.len()]);
            }
        }
        lemma_all_fitting(pairs);
        assert(pairs.take(pairs.len() as int) =~= pairs);
        assert(encoder@ =~= encoded_all(pairs));
    }
    match result {
        Ok(_) => Ok(encoder.finish()),
        Err(error) => Err(error),
    }
}

/// Size of the buffer GSP-RM may fill with static configuration.
pub const GSP_INIT_MAX_RESPONSE_SIZE: u32 = 48 * 1024;

/// Joins the two halves of a wrapped payload into the `u64` words an NVKV stream is made of. Fails
/// if the combined length is not a whole number of words.
pub fn nvkv_words(first: &[u8], second: &[u8]) -> (words: Result<Vec<u64>, Error>)
    requires
        first@.len() + second@.len() <= usize::MAX,
    ensures
        match words {
            Ok(words) => (first@.len() + second@.len()) % 8 == 0 && words@ == u64s_of_bytes(
                first@ + second@,
            ),
            Err(error) => (first@.len() + second@.len()) % 8 != 0 && error == Error::EIO,
        },
{
    let mut bytes: Vec<u8> = Vec::new();
    bytes.extend_from_slice(first);
    bytes.extend_from_slice(second);
    assert(bytes@ =~= first@ + second@);
    let total: usize = bytes.len();
    if total % 8 != 0 {
        return Err(Error::EIO);
    }
    let ghost all = u64s_of_bytes(first@ + second@);
    let mut words: Vec<u64> = Vec::new();
    let mut offset: usize = 0;
    while offset < total
        invariant
            offset <= total,
            total == bytes@.len(),
            total % 8 == 0,
            offset % 8 == 0,
            bytes@ == first@ + second@,
            all == u64s_of_bytes(first@ + second@),
            words@ == all.take(offset as int / 8),
        decreases total - offset,
    {
        let word: u64 = read_le(bytes.as_slice(), offset, 8);
        words.push(word);
        proof {
            let i = offset as int / 8;
            assert(all[i] == word);
            assert(all.take(i + 1) =~= all.take(i).push(word));
        }
        offset = offset + 8;
    }
    assert(words@ =~= all);
    Ok(words)
}

/// Whether `info` is the static configuration that a schema in `state` stands for.
pub open spec fn is_static_info(state: GspInitResponseState, info: GetGspStaticInfoReply) -> bool {
    &&& state.bar1_pde_base == Some(info.bar1_pde_base)
    &&& info.gpu_name@ == state.gpu_name + zeros((64 - state.gpu_name.len()) as nat)
    &&& state.all_regions() is Some
    &&& info.usable_fb_regions@ == usable_ranges(state.all_regions().unwrap())
    &&& is_fb_end(state.all_regions().unwrap(), info.total_fb_end)
}

/// Decodes the static GPU configuration from an NVKV stream.
///
/// Keys that are not known are skipped. Fails with `EINVAL` if the stream is malformed or omits a
/// required key.
pub fn decode_gsp_info(words: &[u64]) -> (info: Result<GetGspStaticInfoReply, Error>)
    ensures
        ({
            let (state, error) = decoded::<GspInitResponseSchema>(
                GspInitResponseSchema::empty(),
                words@,
                UnknownKeyPolicy::Ignore,
            );
            match info {
                Ok(info) => error is None && is_static_info(state, info),
                Err(kind) => if error is Some {
                    Some(kind) == error
                } else {
                    kind == Error::EINVAL && (state.bar1_pde_base is None
                        || state.all_regions() is None || state.gpu_name.len() > 64)
                },
            }
        }),
{
    let decoder = Decoder::new(words, UnknownKeyPolicy::Ignore);
    let mut schema = GspInitResponseSchema::default();
    let decoded = match decoder.decode(&mut schema) {
        Ok(Ok(decoded)) => decoded,
        Ok(Err(error)) => {
            return Err(error);
        },
        Err(error) => {
            return Err(error);
        },
    };
    let mut gpu_name: [u8; 64] = [0;64];
    let name = decoded.gpu_name();
    let total: usize = name.len();
    let mut i: usize = 0;
    while i < total
        invariant
            i <= total,
            total == name@.len(),
            total <= 64,
            gpu_name@ == name@.take(i as int) + zeros((64 - i) as nat),
        decreases total - i,
    {
        gpu_name[i] = name[i];
        i = i + 1;
        assert(gpu_name@ =~= name@.take(i as int) + zeros((64 - i) as nat));
    }
    assert(name@.take(total as int) =~= name@);
    Ok(
        GetGspStaticInfoReply {
            gpu_name,
            usable_fb_regions: decoded.usable_fb_regions(),
            total_fb_end: decoded.total_fb_end(),
            bar1_pde_base: decoded.bar1_pde_base(),
        },
    )
}

/// A `GSP_INIT` request describes the device: its PCI identifiers, each with the vendor in the lower
/// half, its revision, the start and the length of the config mirror, the number of the host
/// architecture and the PCI location.
pub proof fn law_request_describes_device(
    dev: PciDevice,
    mirror: Range<u32>,
    host_arch: HostArch,
    vgpu_state: VgpuState,
    vf_info: Option<VfInfo>,
)
    requires
        mirror.start <= mirror.end,
    ensures
        ({
            let pairs = gsp_init_pairs(dev, mirror, host_arch, vgpu_state, vf_info);
            &&& pairs.len() >= 13
            &&& forall|i: int| 0 <= i < 13 ==> (#[trigger] pairs[i]).index == 0
            &&& pairs[0].key == 0x0001
            &&& pairs[0].value matches Value::Scalar32(id) && id % 0x1_0000
                == dev.vendor_id && id / 0x1_0000 == dev.device_id
            &&& pairs[1].key == 0x0002
            &&& pairs[1].value matches Value::Scalar32(id) && id % 0x1_0000
                == dev.subsystem_vendor_id && id / 0x1_0000 == dev.subsystem_device_id
            &&& pairs[2].key == 0x0003 && pairs[2].value == Value::Scalar32(dev.revision_id as u32)
            &&& pairs[3].key == 0x0010 && pairs[3].value == Value::Scalar32(mirror.start)
            &&& pairs[4].key == 0x0011
            &&& pairs[4].value matches Value::Scalar32(size)
                && mirror.start + size == mirror.end
            &&& pairs[5].key == 0x0070 && pairs[5].value == Value::Scalar32(host_arch.code())
            &&& pairs[6].key == 0x1020
            &&& pairs[6].value matches Value::Scalar64(location)
                && location / 0x1_0000_0000 == dev.domain_nr && location / 0x100 % 0x100_0000
                == dev.dev_id / 256 && location % 0x100 == dev.dev_id / 8 % 32
        }),
{
    let pairs = gsp_init_pairs(dev, mirror, host_arch, vgpu_state, vf_info);
    let head = system_info_pairs(dev, mirror, host_arch);
    let middle = registry_pairs(vgpu_state);
    assert(pairs =~= head + (middle + vf_info.pairs()));
}

/// After the device, a `GSP_INIT` request asks for three registry entries, each with the value 1 and
/// its name before its value. Where vGPU is enabled there is a fourth. The topology of the virtual
/// functions comes last.
pub proof fn law_request_registry(
    dev: PciDevice,
    mirror: Range<u32>,
    host_arch: HostArch,
    vgpu_state: VgpuState,
    vf_info: Option<VfInfo>,
)
    ensures
        ({
            let pairs = gsp_init_pairs(dev, mirror, host_arch, vgpu_state, vf_info);
            let enabled = vgpu_state is Enabled;
            let entries = if enabled {
                4int
            } else {
                3
            };
            let names = seq![
                "RMSecBusResetEnable\0"@,
                "RMForcePcieConfigSave\0"@,
                "RMDevidCheckIgnore\0"@,
                "RMSetSriovMode\0"@,
            ];
            &&& forall|k: int|
                #![trigger names[k]]
                0 <= k < entries ==> {
                    &&& pairs[7 + 2 * k] == (Pair {
                        key: 0x3070,
                        index: 0,
                        value: Value::Array8(encode_utf8(names[k])),
                    })
                    &&& pairs[8 + 2 * k] == (Pair {
                        key: 0x3071,
                        index: 0,
                        value: Value::Scalar32(1),
                    })
                }
            &&& pairs.skip(7 + 2 * entries) =~= vf_info.pairs()
        }),
{
    let pairs = gsp_init_pairs(dev, mirror, host_arch, vgpu_state, vf_info);
    let head = system_info_pairs(dev, mirror, host_arch);
    let middle = registry_pairs(vgpu_state);
    assert(pairs =~= head + (middle + vf_info.pairs()));
    assert(head.len() == 7);
}

/// What comes before the first NULL has none, and a NULL or the end follows it.
pub proof fn law_until_nul(bytes: Seq<u8>)
    ensures
        until_nul(bytes) <= bytes.len(),
        forall|i: int| 0 <= i < until_nul(bytes) ==> bytes[i] != 0,
        until_nul(bytes) < bytes.len() ==> bytes[until_nul(bytes) as int] == 0,
    decreases bytes.len(),
{
    if bytes.len() > 0 && bytes[0] != 0 {
        let rest = bytes.skip(1);
        law_until_nul(rest);
        assert forall|i: int| 0 <= i < until_nul(bytes) implies bytes[i] != 0 by {
            if i > 0 {
                assert(bytes[i] == rest[i - 1]);
            }
        }
    }
}

/// The static configuration is what the response says: the BAR1 page directory, the name with zeros
/// after it, the ranges to allocate from and the end of the address space.
pub proof fn law_static_info(state: GspInitResponseState, info: GetGspStaticInfoReply, i: int)
    requires
        is_static_info(state, info),
        state.gpu_name.len() <= 64,
    ensures
        state.bar1_pde_base == Some(info.bar1_pde_base),
        0 <= i < state.gpu_name.len() ==> info.gpu_name@[i] == state.gpu_name[i],
        state.gpu_name.len() <= i < 64 ==> info.gpu_name@[i] == 0,
        state.all_regions() matches Some(regions) && info.usable_fb_regions@ == usable_ranges(
            regions,
        ) && is_fb_end(regions, info.total_fb_end),
{
}

} // verus!
