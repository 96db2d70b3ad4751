//! Tests of the NVKV encoding and of the messages encoded with it.

use nova_core::error::Error;
use nova_core::gsp::commands::{
    build_gsp_init_payload, decode_gsp_info, nvkv_words, GetGspStaticInfoReply, GpuNameError,
};
use nova_core::gsp::fw::commands::{
    FbRegionSchema, GspInitRequest, GspInitResponseSchema, HostArch, PciDevice, RegKey, VfInfo,
};
use nova_core::gsp::nvkv::types::{ArrayVec, Index, Key, KeyId, Op, Opcode};
use nova_core::gsp::nvkv::{
    Decoder, DecoderValue, Encodable, Encoder, Pair, Schema, UnknownKeyPolicy,
};
use nova_core::vgpu::VgpuState;

#[test]
fn encode_all_value_kinds() {
    // All keys, indexes, and values are distinct but arbitrary values to make it easier for the
    // test to catch bugs in the encoded output.
    const U32_KEY: KeyId = 0x1001;
    const U64_KEY: KeyId = 0x1002;
    const ARRAY8_KEY: KeyId = 0x1003;
    const ARRAY32_KEY: KeyId = 0x1004;
    const ARRAY64_KEY: KeyId = 0x1005;

    const U32_VALUE: u32 = 0x1111_2222;
    const U64_VALUE: u64 = 0x3333_4444_5555_6666;
    const ARRAY8_VALUE: &[u8] = &[0xaa, 0xbb, 0xcc];
    const ARRAY32_VALUE: &[u32] = &[0xbbbb_cccc, 0xdddd_eeee];
    const ARRAY64_VALUE: &[u64] = &[0x0123_4567_89ab_cdef, 0xfedc_ba98_7654_3210];

    let mut encoder = Encoder::new();
    encoder.encode_u32(U32_KEY, Index::new::<0>(), U32_VALUE).unwrap();
    encoder.encode_u64(U64_KEY, Index::new::<1>(), U64_VALUE).unwrap();
    encoder.encode_array8(ARRAY8_KEY, Index::new::<2>(), ARRAY8_VALUE).unwrap();
    encoder.encode_array32(ARRAY32_KEY, Index::new::<3>(), ARRAY32_VALUE).unwrap();
    encoder.encode_array64(ARRAY64_KEY, Index::new::<4>(), ARRAY64_VALUE).unwrap();

    let stream = encoder.finish();
    let encoded = stream.as_words();
    assert_eq!(encoded.len(), 10);

    // IMM32 has its value in the op word.
    assert_eq!(
        encoded[0],
        Op::zeroed()
            .with_key(U32_KEY)
            .with_index(Index::new::<0>())
            .with_opcode(Opcode::Imm32)
            .with_value(U32_VALUE)
            .into_raw()
    );

    // The SEQ64 op word followed by the value.
    assert_eq!(
        encoded[1],
        Op::zeroed()
            .with_key(U64_KEY)
            .with_index(Index::new::<1>())
            .with_opcode(Opcode::Seq64)
            .with_value(1u32)
            .into_raw()
    );
    assert_eq!(encoded[2], U64_VALUE);

    // The ARRAY8 op word has the byte count. The bytes follow, padded out to a whole word.
    assert_eq!(
        encoded[3],
        Op::zeroed()
            .with_key(ARRAY8_KEY)
            .with_index(Index::new::<2>())
            .with_opcode(Opcode::Array8)
            .with_value(3u32)
            .into_raw()
    );
    assert_eq!(encoded[4], u64::from_le_bytes([0xaa, 0xbb, 0xcc, 0, 0, 0, 0, 0]));

    // The ARRAY32 op word has the element count. The two elements follow in little endian.
    assert_eq!(
        encoded[5],
        Op::zeroed()
            .with_key(ARRAY32_KEY)
            .with_index(Index::new::<3>())
            .with_opcode(Opcode::Array32)
            .with_value(2u32)
            .into_raw()
    );
    assert_eq!(encoded[6], u64::from(ARRAY32_VALUE[1]) << 32 | u64::from(ARRAY32_VALUE[0]));

    // The ARRAY64 op word has the element count with the two elements after.
    assert_eq!(
        encoded[7],
        Op::zeroed()
            .with_key(ARRAY64_KEY)
            .with_index(Index::new::<4>())
            .with_opcode(Opcode::Array64)
            .with_value(2u32)
            .into_raw()
    );
    assert_eq!(encoded[8], ARRAY64_VALUE[0]);
    assert_eq!(encoded[9], ARRAY64_VALUE[1]);
}

struct TypedRequest {
    a: Key<u32, 0x0001>,
    b: Key<u64, 0x0002>,
    name: Key<&'static [u8], 0x0003>,
    fixed: Key<[u8; 4], 0x0004>,
    opt: Option<Key<u32, 0x0005>>,
}

impl TypedRequest {
    fn encode(&self, encoder: &mut Encoder) -> Result<(), Error> {
        self.a.encode(encoder)?;
        self.b.encode(encoder)?;
        self.name.encode(encoder)?;
        self.fixed.encode(encoder)?;
        self.opt.encode(encoder)
    }
}

#[test]
fn encode_typed_struct() {
    let request = TypedRequest {
        a: 0x89ab_cdef.into(),
        b: 0x0123_4567_89ab_cdef.into(),
        name: (&b"name\0"[..]).into(),
        fixed: [1u8, 2, 3, 4].into(),
        opt: None,
    };

    let mut encoder = Encoder::new();
    request.encode(&mut encoder).unwrap();
    let encoded = encoder.finish();

    assert_eq!(encoded.len(), 7);
}

const SCALAR32_KEY: KeyId = 0x1001;
const SCALAR64_KEY: KeyId = 0x1002;
const UNKNOWN_KEY: KeyId = 0x2001;

#[derive(Default)]
struct RawSchema {
    scalar32: u32,
    scalar64: u64,
}

impl Schema for RawSchema {
    type Target = Self;
    type State = ();

    fn state(&self) {}

    fn empty() {}

    fn visited(_state: (), _pair: Pair) -> ((), Result<bool, Error>) {
        unreachable!()
    }

    fn produces(_state: (), _result: Result<Self, Error>) -> bool {
        unreachable!()
    }

    fn visit<'a>(
        &mut self,
        key: KeyId,
        index: Index,
        value: DecoderValue<'a>,
    ) -> Result<bool, Error> {
        if index != Index::new::<0>() {
            return Err(Error::EINVAL);
        }
        match key {
            SCALAR32_KEY => self.scalar32 = value.try_into()?,
            SCALAR64_KEY => self.scalar64 = value.try_into()?,
            _ => return Ok(false),
        }
        Ok(true)
    }

    fn finish(&mut self) -> Result<Self, Error> {
        Ok(std::mem::take(self))
    }
}

#[test]
fn decode_raw_schema() {
    // Decodes an IMM32 pair and a SEQ64 pair (the encoder emits a u64 as a single-element
    // SEQ64) with a hand written `Schema`. Keys and value constants chosen to distinguish e.g.
    // saving the wrong value to the wrong location.
    const SCALAR32_VALUE: u32 = 0x1111_2222;
    const SCALAR64_VALUE: u64 = 0x3333_4444_5555_6666;

    let mut encoder = Encoder::new();
    encoder.encode_u32(SCALAR32_KEY, Index::new::<0>(), SCALAR32_VALUE).unwrap();
    encoder.encode_u64(SCALAR64_KEY, Index::new::<0>(), SCALAR64_VALUE).unwrap();
    let serialized = encoder.finish().as_words();

    let decoder = Decoder::new(&serialized, UnknownKeyPolicy::Error);
    let mut schema = RawSchema::default();
    let decoded = decoder.decode(&mut schema).unwrap().unwrap();

    assert_eq!(decoded.scalar32, SCALAR32_VALUE);
    assert_eq!(decoded.scalar64, SCALAR64_VALUE);

    // An unknown key should fail with under `UnknownKeyPolicy::Error` and be skipped under
    // `UnknownKeyPolicy::Ignore`.
    let mut encoder = Encoder::new();
    encoder.encode_u32(UNKNOWN_KEY, Index::new::<0>(), 1).unwrap();

    let serialized = encoder.finish().as_words();
    let decoder = Decoder::new(&serialized, UnknownKeyPolicy::Error);
    assert!(decoder.decode(&mut RawSchema::default()).is_err());

    let decoder = Decoder::new(&serialized, UnknownKeyPolicy::Ignore);
    let mut schema = RawSchema::default();
    let decoded = decoder.decode(&mut schema).unwrap().unwrap();
    assert_eq!(decoded.scalar32, 0);
}

#[test]
fn gsp_init_request() {
    let mut encoder = Encoder::new();

    let mut regkeys = Vec::new();
    regkeys.push(RegKey {
        key_name: (&b"test_key\0"[..]).into(),
        key_value: 0xdead_beef.into(),
    });

    let gsp_init = GspInitRequest {
        pci_device_id: 45.into(),
        pci_sub_device_id: 67.into(),
        pci_revision_id: 3.into(),
        pci_config_mirror_base: 0x1234_5678.into(),
        pci_config_mirror_size: 0x1000.into(),
        host_arch: HostArch::Aarch64.into(),
        bus_device_func: 0x0001_0203_0405_0607.into(),
        regkeys,
        vf_info: Some(VfInfo {
            total_vfs: 8.into(),
            first_vf_offset: 1.into(),
            flags: 0x7.into(),
            first_bar0_address: 0x1000_0000.into(),
            first_bar1_address: 0x2000_0000.into(),
            first_bar2_address: 0x3000_0000.into(),
        }),
    };

    gsp_init.encode(&mut encoder).unwrap();
    let encoded = encoder.finish();
    assert_eq!(encoded.len(), 22);
}

#[test]
fn decode_fb_region_missing_required_fails() {
    let mut encoder = Encoder::new();
    encoder.encode_u64(FbRegionSchema::BASE_KEY, Index::new::<0>(), 0x1000_0000).unwrap();
    let data = encoder.finish().as_words();

    let decoder = Decoder::new(&data, UnknownKeyPolicy::Ignore);
    let mut schema = FbRegionSchema::default();
    let init = decoder.decode(&mut schema).unwrap();
    assert!(init.is_err());
}

const NAME: &[u8] = b"test name\0";
const BAR1_PDE_BASE: u64 = 0xdead_0000;
const FB_REGION0_BASE: u64 = 0x1000_0000;
const FB_REGION0_LIMIT: u64 = 0x1fff_ffff;
const FB_REGION0_FLAGS: u32 = 0x7;
const FB_REGION0_TAG: u32 = 0;
const FB_REGION1_BASE: u64 = 0x2000_0000;
const FB_REGION1_LIMIT: u64 = 0x2fff_ffff;
const FB_REGION1_FLAGS: u32 = 0x3;
const FB_REGION1_TAG: u32 = 1;
const VMMU_SEGMENT_SIZE: u64 = 0x0200_0000;

fn full_response() -> Vec<u64> {
    let index0 = Index::new::<0>();
    let index1 = Index::new::<1>();
    let mut encoder = Encoder::new();
    encoder.encode_array8(GspInitResponseSchema::GPU_NAME_STRING_KEY, index0, NAME).unwrap();
    encoder.encode_u64(GspInitResponseSchema::BAR1_PDE_BASE_KEY, index0, BAR1_PDE_BASE).unwrap();
    encoder.encode_u64(FbRegionSchema::BASE_KEY, index0, FB_REGION0_BASE).unwrap();
    encoder.encode_u64(FbRegionSchema::LIMIT_KEY, index0, FB_REGION0_LIMIT).unwrap();
    encoder.encode_u32(FbRegionSchema::FLAGS_KEY, index0, FB_REGION0_FLAGS).unwrap();
    encoder.encode_u32(FbRegionSchema::TAG_KEY, index0, FB_REGION0_TAG).unwrap();

    // Test that this unrelated key can safely interleave.
    encoder
        .encode_u64(GspInitResponseSchema::VMMU_SEGMENT_SIZE_KEY, index0, VMMU_SEGMENT_SIZE)
        .unwrap();

    encoder.encode_u64(FbRegionSchema::BASE_KEY, index1, FB_REGION1_BASE).unwrap();
    encoder.encode_u64(FbRegionSchema::LIMIT_KEY, index1, FB_REGION1_LIMIT).unwrap();
    encoder.encode_u32(FbRegionSchema::FLAGS_KEY, index1, FB_REGION1_FLAGS).unwrap();
    encoder.encode_u32(FbRegionSchema::TAG_KEY, index1, FB_REGION1_TAG).unwrap();
    encoder.finish().as_words()
}

#[test]
fn gsp_init_response() {
    let index0 = Index::new::<0>();

    // A minimal response: only the BAR1 PDE base, so the FB region list stays empty.
    let mut encoder = Encoder::new();
    encoder.encode_u64(GspInitResponseSchema::BAR1_PDE_BASE_KEY, index0, BAR1_PDE_BASE).unwrap();
    let data = encoder.finish().as_words();

    let decoder = Decoder::new(&data, UnknownKeyPolicy::Ignore);
    let mut schema = GspInitResponseSchema::default();
    let response = decoder.decode(&mut schema).unwrap().unwrap();
    assert_eq!(response.bar1_pde_base, BAR1_PDE_BASE);
    assert!(response.fb_regions.is_empty());

    // A full response.
    let data = full_response();

    let decoder = Decoder::new(&data, UnknownKeyPolicy::Error);
    let mut schema = GspInitResponseSchema::default();
    let response = decoder.decode(&mut schema).unwrap().unwrap();

    assert_eq!(response.gpu_name.as_slice(), NAME);
    assert_eq!(response.bar1_pde_base, BAR1_PDE_BASE);
    assert_eq!(response.fb_regions.len(), 2);

    let fb_region0 = &response.fb_regions[0];
    assert_eq!(fb_region0.base, FB_REGION0_BASE);
    assert_eq!(fb_region0.limit, FB_REGION0_LIMIT);
    assert_eq!(fb_region0.flags.into_raw(), FB_REGION0_FLAGS);
    assert!(fb_region0.flags.support_compressed());
    assert!(fb_region0.flags.support_iso());
    assert!(fb_region0.flags.protected());
    assert_eq!(fb_region0.tag, FB_REGION0_TAG);

    let fb_region1 = &response.fb_regions[1];
    assert_eq!(fb_region1.base, FB_REGION1_BASE);
    assert_eq!(fb_region1.limit, FB_REGION1_LIMIT);
    assert_eq!(fb_region1.flags.into_raw(), FB_REGION1_FLAGS);
    assert_eq!(fb_region1.tag, FB_REGION1_TAG);

    assert_eq!(response.vmmu_segment_size, VMMU_SEGMENT_SIZE);
}

#[test]
fn malformed_streams_are_refused() {
    // An opcode that does not exist.
    let bad = Op::zeroed().with_key(1).with_opcode(Opcode::Imm32).into_raw() | 0xf << 28;
    let words = [bad];
    let decoder = Decoder::new(&words, UnknownKeyPolicy::Ignore);
    assert!(decoder.decode(&mut RawSchema::default()).is_err());

    // An array that is cut off.
    let cut = Op::zeroed().with_key(1).with_opcode(Opcode::Array64).with_value(2).into_raw();
    let words = [cut, 7];
    let decoder = Decoder::new(&words, UnknownKeyPolicy::Ignore);
    assert!(decoder.decode(&mut RawSchema::default()).is_err());

    // A sequence whose keys run past the last one.
    let run = Op::zeroed().with_key(0xffff).with_opcode(Opcode::Seq64).with_value(2).into_raw();
    let words = [run, 7, 8];
    let decoder = Decoder::new(&words, UnknownKeyPolicy::Ignore);
    assert!(decoder.decode(&mut RawSchema::default()).is_err());
}

#[test]
fn sequences_give_consecutive_keys() {
    let head = Op::zeroed()
        .with_key(SCALAR32_KEY - 1)
        .with_opcode(Opcode::Seq32)
        .with_value(2)
        .into_raw();
    let words = [head, 0x2222_2222_1111_1111];
    let decoder = Decoder::new(&words, UnknownKeyPolicy::Ignore);
    let decoded = decoder.decode(&mut RawSchema::default()).unwrap().unwrap();
    assert_eq!(decoded.scalar32, 0x2222_2222);
    assert_eq!(decoded.scalar64, 0);
}

#[test]
fn values_of_another_kind_are_refused() {
    assert_eq!(u32::try_from(DecoderValue::Scalar32(5)), Ok(5));
    assert_eq!(u32::try_from(DecoderValue::Scalar64(5)), Err(Error::EINVAL));
    assert_eq!(u64::try_from(DecoderValue::Scalar64(5)), Ok(5));
    assert_eq!(u64::try_from(DecoderValue::Array8(&[5])), Err(Error::EINVAL));
}

#[test]
fn op_fields_read_back() {
    let op = Op::zeroed()
        .with_key(0xabcd)
        .with_index(Index::new::<0x123>())
        .with_opcode(Opcode::Array32)
        .with_value(0x89ab_cdef);
    assert_eq!(op.key(), 0xabcd);
    assert_eq!(op.index(), Index::new::<0x123>());
    assert_eq!(op.opcode(), Ok(Opcode::Array32));
    assert_eq!(op.value(), 0x89ab_cdef);
    assert_eq!(Index::try_new(4095).map(|index| index.get()), Some(4095));
    assert_eq!(Index::try_new(4096), None);
}

#[test]
fn payload_halves_are_joined() {
    // The words straddle the place where the payload wraps.
    let words = nvkv_words(&[1, 0, 0], &[0, 0, 0, 0, 0, 2, 0, 0, 0, 0, 0, 0, 0x80]).unwrap();
    assert_eq!(words, vec![1, 0x8000_0000_0000_0002]);
    assert_eq!(nvkv_words(&[], &[]).unwrap(), Vec::<u64>::new());
    assert!(nvkv_words(&[1, 2, 3], &[4]).is_err());
}

#[test]
fn gsp_info_is_decoded() {
    let info = decode_gsp_info(&full_response()).unwrap();
    assert_eq!(info.gpu_name(), Ok("test name"));
    assert_eq!(info.bar1_pde_base, BAR1_PDE_BASE);
    assert_eq!(info.total_fb_end, Some(0x3000_0000));
}

#[test]
fn gpu_names_are_checked() {
    let mut reply = GetGspStaticInfoReply {
        gpu_name: [b'x'; 64],
        usable_fb_regions: Vec::new(),
        total_fb_end: None,
        bar1_pde_base: 0,
    };
    assert_eq!(reply.gpu_name(), Err(GpuNameError::NoNullTerminator));
    reply.gpu_name[2] = 0;
    assert_eq!(reply.gpu_name(), Ok("xx"));
    reply.gpu_name[1] = 0xff;
    assert_eq!(reply.gpu_name(), Err(GpuNameError::InvalidUtf8));
    reply.gpu_name[0] = 0xc3;
    reply.gpu_name[1] = 0xa9;
    assert_eq!(reply.gpu_name(), Ok("\u{e9}"));
}

#[test]
fn init_payload_describes_the_device() {
    let dev = PciDevice {
        dev_id: 0x0108,
        domain_nr: 2,
        vendor_id: 0x10de,
        device_id: 0x2684,
        subsystem_vendor_id: 0x1043,
        subsystem_device_id: 0x88a5,
        revision_id: 0xa1,
    };
    assert_eq!(dev.domain_bus_device(), 0x2_0000_0101);
    let stream = build_gsp_init_payload(
        &dev,
        0x8_8000..0x8_9000,
        HostArch::X86_64,
        VgpuState::Disabled,
        None,
    )
    .unwrap();
    let words = stream.as_words();
    assert_eq!(
        words[0],
        Op::zeroed()
            .with_key(0x0001)
            .with_opcode(Opcode::Imm32)
            .with_value(0x2684_10de)
            .into_raw()
    );
    assert_eq!(
        words[4],
        Op::zeroed().with_key(0x0011).with_opcode(Opcode::Imm32).with_value(0x1000).into_raw()
    );
}

#[test]
fn encoded_bytes_are_little_endian() {
    let mut encoder = Encoder::new();
    encoder.encode_u64(0x1002, Index::new::<0>(), 0x0807_0605_0403_0201).unwrap();
    let bytes = encoder.finish().into_bytes();
    assert_eq!(bytes.len(), 16);
    assert_eq!(&bytes[8..], &[1, 2, 3, 4, 5, 6, 7, 8]);
}

#[test]
fn array_vec_starts_empty() {
    let mut list: ArrayVec<u8, 4> = ArrayVec::default();
    assert!(list.is_empty());
    list.set_from_slice(&[1, 2, 3]).unwrap();
    assert_eq!(&*list, &[1, 2, 3]);
    assert_eq!(list.set_from_slice(&[0; 5]), Err(Error::EINVAL));
    assert_eq!(list.len(), 3);
}
