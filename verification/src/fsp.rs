//! FSP (Firmware System Processor) interface for Hopper/Blackwell GPUs.
//!
//! Hopper/Blackwell use a simplified firmware boot sequence: FMC --> FSP --> GSP. Unlike
//! Turing/Ampere/Ada, there is NO SEC2 (Security Engine 2) usage. FSP handles secure boot directly
//! using FMC firmware + Chain of Trust.

use vstd::prelude::*;

use crate::bits::{bit32, field32};
use crate::bytes::{
    law_number_of_bytes, le_bytes, le_value, lemma_le_bytes_len, lemma_number_at,
    lemma_pow256_values, push_le, read_le, zeros,
};
use crate::error::Error;
use crate::gpu::Architecture;
use crate::mctp::{
    law_nvdm_header_number, law_transport_header_number, nvdm_word, transport_word, NvdmHeader, TransportHeader, MSG_TYPE_VENDOR_PCI, NVDM_TYPE_COT,
    NVDM_TYPE_FSP_RESPONSE, VENDOR_ID_NV,
};
use crate::num::{align_up, spec_align_up};
use crate::vgpu::VgpuMode;

verus! {

/// FSP Chain of Trust protocol version.
///
/// Hopper (GH100) uses version 1, Blackwell uses version 2.
#[derive(Clone, Copy, Debug, PartialEq, Eq, Structural)]
pub struct FspCotVersion(pub u16);

impl FspCotVersion {
    /// Create a new FSP COT version.
    pub fn new(version: u16) -> (cot_version: Self)
        ensures
            cot_version.0 == version,
    {
        FspCotVersion(version)
    }

    /// Return the raw protocol version number for the wire format.
    pub fn raw(self) -> (version: u16)
        ensures
            version == self.0,
    {
        self.0
    }
}

/// FSP message timeout in milliseconds.
pub const FSP_MSG_TIMEOUT_MS: u32 = 10000;

/// Returns the FSP secure boot completion timeout in milliseconds.
///
/// GB20x requires a longer timeout than Hopper/GB10x.
pub fn fsp_secure_boot_timeout_ms(arch: Architecture) -> (timeout: u32)
    ensures
        timeout == if arch == Architecture::BlackwellGB20x {
            5000u32
        } else {
            4000
        },
{
    match arch {
        Architecture::BlackwellGB20x => 5000,
        _ => 4000,
    }
}

/// Returns how waiting for FSP secure boot ends: `status` is what the thermal scratch register read
/// as when it was polled last, or `None` if that failed.
pub fn wait_secure_boot(status: Option<u32>) -> (result: Result<(), Error>)
    ensures
        result == if status == Some(0xffu32) {
            Ok::<(), Error>(())
        } else {
            Err(Error::ETIMEDOUT)
        },
{
    match status {
        Some(status) => {
            if status == 0xff {
                Ok(())
            } else {
                Err(Error::ETIMEDOUT)
            }
        },
        None => Err(Error::ETIMEDOUT),
    }
}

/// GSP ACR (Authenticated Code RAM) boot parameters.
#[derive(Clone, Copy, Debug, PartialEq, Eq, Structural)]
pub struct GspAcrBootGspRmParams {
    /// Physical memory aperture through which gspRmDescPa is accessed.
    pub target: u32,
    /// Size in bytes of the GSP-RM descriptor structure.
    pub gsp_rm_desc_size: u32,
    /// Physical offset in the target aperture of the GSP-RM descriptor structure.
    pub gsp_rm_desc_offset: u64,
    /// Physical offset in FB to set the start of the WPR containing GSP-RM.
    pub wpr_carveout_offset: u64,
    /// Size in bytes of the WPR containing GSP-RM.
    pub wpr_carveout_size: u32,
    /// Whether to boot GSP-RM or GSP-Proxy through ACR.
    pub b_is_gsp_rm_boot: u32,
}

/// GSP RM boot parameters.
#[derive(Clone, Copy, Debug, PartialEq, Eq, Structural)]
pub struct GspRmParams {
    /// Physical memory aperture through which bootArgsOffset is accessed.
    pub target: u32,
    /// Physical offset in the memory aperture that will be passed to GSP-RM.
    pub boot_args_offset: u64,
}

/// Complete GSP FMC boot parameters passed to FSP.
#[derive(Clone, Copy, Debug, PartialEq, Eq, Structural)]
pub struct GspFmcBootParams {
    /// CC initialization "registry keys".
    pub regkeys: u32,
    pub boot_gsp_rm_params: GspAcrBootGspRmParams,
    pub gsp_rm_params: GspRmParams,
    /// Physical memory aperture of the SPDM payload buffer.
    pub spdm_target: u32,
    /// Physical offset of the SPDM payload buffer.
    pub spdm_payload_buffer_offset: u64,
    /// Size of the SPDM payload buffer.
    pub spdm_payload_buffer_size: u32,
}

impl GspFmcBootParams {
    /// Builds the FMC boot parameters that FSP will read.
    ///
    /// Blackwell FSP expects the WPR carveout offset and size to be zero; it obtains WPR info from
    /// other sources. The GSP-RM descriptor is in coherent system memory, target 1, and the boot
    /// arguments in non-coherent system memory, target 2.
    pub fn new(wpr_meta_addr: u64, wpr_meta_size: u32, libos_addr: u64) -> (params: Self)
        ensures
            params == (GspFmcBootParams {
                regkeys: 0,
                boot_gsp_rm_params: GspAcrBootGspRmParams {
                    target: 1,
                    gsp_rm_desc_size: wpr_meta_size,
                    gsp_rm_desc_offset: wpr_meta_addr,
                    wpr_carveout_offset: 0,
                    wpr_carveout_size: 0,
                    b_is_gsp_rm_boot: 1,
                },
                gsp_rm_params: GspRmParams { target: 2, boot_args_offset: libos_addr },
                spdm_target: 0,
                spdm_payload_buffer_offset: 0,
                spdm_payload_buffer_size: 0,
            }),
    {
        GspFmcBootParams {
            regkeys: 0,
            boot_gsp_rm_params: GspAcrBootGspRmParams {
                target: 1,
                gsp_rm_desc_size: wpr_meta_size,
                gsp_rm_desc_offset: wpr_meta_addr,
                wpr_carveout_offset: 0,
                wpr_carveout_size: 0,
                b_is_gsp_rm_boot: 1,
            },
            gsp_rm_params: GspRmParams { target: 2, boot_args_offset: libos_addr },
            spdm_target: 0,
            spdm_payload_buffer_offset: 0,
            spdm_payload_buffer_size: 0,
        }
    }
}

/// Size of the SHA-384 hash of the FMC.
pub const FSP_HASH_SIZE: usize = 48;

/// Size of the RSA-3072 public key.
pub const FSP_PKEY_SIZE: usize = 384;

/// Size of the RSA-3072 signature.
pub const FSP_SIG_SIZE: usize = 384;

/// Structure to hold FMC signatures.
pub struct FmcSignatures {
    pub hash384: [u8; 48],
    pub public_key: [u8; 384],
    pub signature: [u8; 384],
}

/// Returns `data`, filled up with zeros.
fn filled_up(data: &[u8]) -> (array: [u8; 384])
    requires
        data@.len() <= 384,
    ensures
        array@ == data@ + zeros((384 - data@.len()) as nat),
{
    let mut array: [u8; 384] = [0;384];
    let total: usize = data.len();
    let mut i: usize = 0;
    while i < total
        invariant
            i <= total <= 384,
            total == data@.len(),
            array@ == data@.take(i as int) + zeros((384 - i) as nat),
        decreases total - i,
    {
        array[i] = data[i];
        i = i + 1;
        assert(array@ =~= data@.take(i as int) + zeros((384 - i) as nat));
    }
    assert(data@.take(total as int) =~= data@);
    array
}

/// Extract FMC firmware signatures for Chain of Trust verification.
///
/// The hash has to have its exact size. The public key and the signature may be shorter than their
/// maximum size, and are filled up with zeros.
pub fn extract_fmc_signatures(hash_data: &[u8], pkey_data: &[u8], sig_data: &[u8]) -> (signatures:
    Result<FmcSignatures, Error>)
    ensures
        match signatures {
            Ok(signatures) => {
                &&& hash_data@.len() == 48 && pkey_data@.len() <= 384 && sig_data@.len() <= 384
                &&& signatures.hash384@ == hash_data@
                &&& signatures.public_key@ == pkey_data@ + zeros((384 - pkey_data@.len()) as nat)
                &&& signatures.signature@ == sig_data@ + zeros((384 - sig_data@.len()) as nat)
            },
            Err(error) => {
                &&& hash_data@.len() != 48 || pkey_data@.len() > 384 || sig_data@.len() > 384
                &&& error == Error::EINVAL
            },
        },
{
    if hash_data.len() != FSP_HASH_SIZE {
        return Err(Error::EINVAL);
    }
    if pkey_data.len() > FSP_PKEY_SIZE {
        return Err(Error::EINVAL);
    }
    if sig_data.len() > FSP_SIG_SIZE {
        return Err(Error::EINVAL);
    }
    let mut hash384: [u8; 48] = [0;48];
    let mut i: usize = 0;
    while i < 48
        invariant
            i <= 48,
            hash_data@.len() == 48,
            forall|k: int| 0 <= k < i ==> hash384@[k] == hash_data@[k],
        decreases 48 - i,
    {
        hash384[i] = hash_data[i];
        i = i + 1;
    }
    assert(hash384@ =~= hash_data@);
    Ok(
        FmcSignatures {
            hash384,
            public_key: filled_up(pkey_data),
            signature: filled_up(sig_data),
        },
    )
}

/// The headers that every FSP message starts with: one packet, from start to end.
pub open spec fn message_header(nvdm_type: u8) -> Seq<u8> {
    le_bytes(transport_word(true, true, 0, 0, 0) as nat, 4) + le_bytes(
        nvdm_word(nvdm_type) as nat,
        4,
    )
}

/// Returns the headers of an FSP message of the given NVDM type.
fn push_header(nvdm_type: u8) -> (bytes: Vec<u8>)
    ensures
        bytes@ == message_header(nvdm_type),
{
    let mut bytes: Vec<u8> = Vec::new();
    proof {
        lemma_pow256_values();
    }
    push_le(&mut bytes, TransportHeader::new(true, true, 0, 0, 0).raw as u64, 4);
    push_le(&mut bytes, NvdmHeader::new(nvdm_type).raw as u64, 4);
    assert(bytes@ =~= message_header(nvdm_type));
    bytes
}

/// Where FSP places the FRTS region, relative to the end of the framebuffer: below the memory
/// reserved there, aligned to 2MB. On resume it is left alone.
pub open spec fn frts_offset(resume: bool, heap_size: u64, pmu_size: u32) -> int {
    if resume {
        0
    } else {
        spec_align_up(heap_size + pmu_size, 0x20_0000)
    }
}

/// The Chain of Trust message to FSP.
pub open spec fn cot_message(
    version: u16,
    fmc_addr: u64,
    frts_offset: u64,
    frts_size: u32,
    signatures: FmcSignatures,
    boot_params_addr: u64,
) -> Seq<u8> {
    message_header(NVDM_TYPE_COT) + le_bytes(version as nat, 2) + le_bytes(860, 2) + le_bytes(
        fmc_addr as nat,
        8,
    ) + le_bytes(0, 8) + le_bytes(0, 4) + le_bytes(frts_offset as nat, 8) + le_bytes(
        frts_size as nat,
        4,
    ) + signatures.hash384@ + signatures.public_key@ + signatures.signature@ + le_bytes(
        boot_params_addr as nat,
        8,
    )
}

/// Builds the message that boots GSP FMC via FSP Chain of Trust.
///
/// `heap_size` is the size of the non-WPR heap of the chipset, `pmu_size` that of the memory
/// reserved for the PMU, and `cot_version` the protocol version of the chipset, if it has one.
pub fn boot_fmc(
    cot_version: Option<FspCotVersion>,
    fmc_addr: u64,
    boot_params_addr: u64,
    resume: bool,
    heap_size: u64,
    pmu_size: u32,
    signatures: &FmcSignatures,
) -> (message: Result<Vec<u8>, Error>)
    ensures
        ({
            let offset = frts_offset(resume, heap_size, pmu_size);
            match message {
                Ok(message) => {
                    &&& offset <= u64::MAX
                    &&& cot_version is Some
                    &&& message@ == cot_message(
                        cot_version.unwrap().0,
                        fmc_addr,
                        offset as u64,
                        if resume {
                            0
                        } else {
                            0x10_0000
                        },
                        *signatures,
                        boot_params_addr,
                    )
                },
                Err(Error::ENOTSUPP) => offset <= u64::MAX && cot_version is None,
                Err(error) => error == Error::EINVAL && offset > u64::MAX,
            }
        }),
{
    let offset: u64 = if !resume {
        proof {
            crate::num::lemma_align_up(heap_size + pmu_size, 0x20_0000);
        }
        let reserved: u64 = match heap_size.checked_add(pmu_size as u64) {
            Some(reserved) => reserved,
            None => {
                return Err(Error::EINVAL);
            },
        };
        match align_up(reserved, 0x20_0000) {
            Some(offset) => offset,
            None => {
                return Err(Error::EINVAL);
            },
        }
    } else {
        0
    };
    let frts_size: u32 = if !resume {
        0x10_0000
    } else {
        0
    };
    let version: u16 = match cot_version {
        Some(version) => version.raw(),
        None => {
            return Err(Error::ENOTSUPP);
        },
    };
    proof {
        lemma_pow256_values();
    }
    let mut message = push_header(NVDM_TYPE_COT);
    push_le(&mut message, version as u64, 2);
    push_le(&mut message, 860, 2);
    push_le(&mut message, fmc_addr, 8);
    push_le(&mut message, 0, 8);
    push_le(&mut message, 0, 4);
    push_le(&mut message, offset, 8);
    push_le(&mut message, frts_size as u64, 4);
    message.extend_from_slice(signatures.hash384.as_slice());
    message.extend_from_slice(signatures.public_key.as_slice());
    message.extend_from_slice(signatures.signature.as_slice());
    push_le(&mut message, boot_params_addr, 8);
    assert(message@ =~= cot_message(
        version,
        fmc_addr,
        offset,
        frts_size,
        *signatures,
        boot_params_addr,
    ));
    Ok(message)
}

/// The Chain of Trust payload has the size that it states: the message is that and its headers.
pub proof fn law_cot_message_size(
    version: u16,
    fmc_addr: u64,
    frts_offset: u64,
    frts_size: u32,
    signatures: FmcSignatures,
    boot_params_addr: u64,
)
    ensures
        cot_message(
            version,
            fmc_addr,
            frts_offset,
            frts_size,
            signatures,
            boot_params_addr,
        ).len() == 8 + 860,
{
    lemma_le_bytes_len(transport_word(true, true, 0, 0, 0) as nat, 4);
    lemma_le_bytes_len(nvdm_word(NVDM_TYPE_COT) as nat, 4);
    lemma_le_bytes_len(version as nat, 2);
    lemma_le_bytes_len(860, 2);
    lemma_le_bytes_len(fmc_addr as nat, 8);
    lemma_le_bytes_len(0, 8);
    lemma_le_bytes_len(0, 4);
    lemma_le_bytes_len(frts_offset as nat, 8);
    lemma_le_bytes_len(frts_size as nat, 4);
    lemma_le_bytes_len(boot_params_addr as nat, 8);
}

/// A step of an exchange with FSP.
pub enum FspExchange {
    /// Send the message.
    Send,
    /// Wait until a packet is there.
    Poll,
    /// Receive the packet, which has this many bytes.
    Receive { size: usize },
    /// The exchange is over. On success this is the whole response.
    Finished(Result<Vec<u8>, Error>),
}

/// What came of a step of an exchange with FSP.
pub enum FspEvent {
    /// The step could not be made.
    Failed(Error),
    /// The message has been sent.
    Sent,
    /// A packet of this many bytes is there.
    Packet(u32),
    /// No packet was there in time.
    TimedOut,
    /// The packet has been received.
    Received(Vec<u8>),
}

/// The 32-bit number at a place in a message.
pub open spec fn word_at(message: Seq<u8>, offset: int) -> u32 {
    le_value(message.subrange(offset, offset + 4)) as u32
}

/// Whether a message is the reply to a command of the given NVDM type, and reports no error: one
/// packet, from NVIDIA, of the response type.
pub open spec fn is_good_response(message: Seq<u8>, nvdm_type: u8) -> bool {
    &&& message.len() >= 20
    &&& bit32(word_at(message, 0), 31)
    &&& bit32(word_at(message, 0), 30)
    &&& field32(word_at(message, 4), 0, 7) == MSG_TYPE_VENDOR_PCI
    &&& field32(word_at(message, 4), 8, 16) == VENDOR_ID_NV
    &&& field32(word_at(message, 4), 24, 8) == NVDM_TYPE_FSP_RESPONSE
    &&& word_at(message, 12) == nvdm_type
    &&& word_at(message, 16) == 0
}

/// Checks the response to a command of the given NVDM type.
pub fn check_response(message: &[u8], nvdm_type: u8) -> (result: Result<(), Error>)
    ensures
        result == if is_good_response(message@, nvdm_type) {
            Ok::<(), Error>(())
        } else {
            Err(Error::EIO)
        },
{
    if message.len() < 20 {
        return Err(Error::EIO);
    }
    proof {
        lemma_pow256_values();
    }
    let mctp_header: u32 = read_le(message, 0, 4) as u32;
    let nvdm_header: u32 = read_le(message, 4, 4) as u32;
    let command_nvdm_type: u32 = read_le(message, 12, 4) as u32;
    let error_code: u32 = read_le(message, 16, 4) as u32;
    let transport = TransportHeader::from_raw(mctp_header);
    if !transport.som() || !transport.eom() {
        return Err(Error::EIO);
    }
    let nvdm = NvdmHeader::from_raw(nvdm_header);
    if nvdm.msg_type() != MSG_TYPE_VENDOR_PCI || nvdm.vendor_id() != VENDOR_ID_NV
        || nvdm.nvdm_type() != NVDM_TYPE_FSP_RESPONSE {
        return Err(Error::EIO);
    }
    if command_nvdm_type != nvdm_type as u32 {
        return Err(Error::EIO);
    }
    if error_code != 0 {
        return Err(Error::EIO);
    }
    Ok(())
}

impl FspExchange {
    /// Starts the exchange: the message is sent.
    pub fn start() -> (step: Self)
        ensures
            step == FspExchange::Send,
    {
        FspExchange::Send
    }

    /// The step after this one, in the exchange of a command of the given NVDM type.
    pub open spec fn following(self, event: FspEvent, nvdm_type: u8) -> FspExchange {
        match (self, event) {
            (FspExchange::Finished(result), _) => FspExchange::Finished(result),
            (FspExchange::Poll, FspEvent::Failed(_)) => FspExchange::Finished(Err(Error::ETIMEDOUT)),
            (_, FspEvent::Failed(error)) => FspExchange::Finished(Err(error)),
            (FspExchange::Send, FspEvent::Sent) => FspExchange::Poll,
            (FspExchange::Poll, FspEvent::Packet(size)) => if size > 0 {
                FspExchange::Receive { size: size as usize }
            } else {
                FspExchange::Poll
            },
            (FspExchange::Poll, FspEvent::TimedOut) => FspExchange::Finished(Err(Error::ETIMEDOUT)),
            (FspExchange::Receive { size: _ }, FspEvent::Received(message)) => {
                FspExchange::Finished(
                    if is_good_response(message@, nvdm_type) {
                        Ok(message)
                    } else {
                        Err(Error::EIO)
                    },
                )
            },
            _ => FspExchange::Finished(Err(Error::EIO)),
        }
    }

    /// Returns the step after this one. An event that is none of this step fails the exchange.
    pub fn next(self, event: FspEvent, nvdm_type: u8) -> (step: Self)
        ensures
            step == self.following(event, nvdm_type),
    {
        match (self, event) {
            (FspExchange::Finished(result), _) => FspExchange::Finished(result),
            (FspExchange::Poll, FspEvent::Failed(_)) => FspExchange::Finished(Err(Error::ETIMEDOUT)),
            (_, FspEvent::Failed(error)) => FspExchange::Finished(Err(error)),
            (FspExchange::Send, FspEvent::Sent) => FspExchange::Poll,
            (FspExchange::Poll, FspEvent::Packet(size)) => {
                if size > 0 {
                    FspExchange::Receive { size: size as usize }
                } else {
                    FspExchange::Poll
                }
            },
            (FspExchange::Poll, FspEvent::TimedOut) => FspExchange::Finished(Err(Error::ETIMEDOUT)),
            (FspExchange::Receive { size: _ }, FspEvent::Received(message)) => {
                match check_response(message.as_slice(), nvdm_type) {
                    Ok(_) => FspExchange::Finished(Ok(message)),
                    Err(error) => FspExchange::Finished(Err(error)),
                }
            },
            _ => FspExchange::Finished(Err(Error::EIO)),
        }
    }
}

/// An exchange succeeds only with a good response to its command, and it gives back that response.
pub proof fn law_success_needs_good_response(
    step: FspExchange,
    event: FspEvent,
    nvdm_type: u8,
)
    requires
        !(step is Finished),
        step.following(event, nvdm_type) matches FspExchange::Finished(Ok(_)),
    ensures
        step is Receive,
        event matches FspEvent::Received(message) && is_good_response(message@, nvdm_type)
            && step.following(event, nvdm_type) == FspExchange::Finished(Ok(message)),
{
}

/// The message that asks FSP for the active value of the vGPU mode knob.
///
/// PRC (Product Reconfiguration Control) is an API system exposed through FSP's Management Partition
/// that allows querying and modifying device configuration "knobs" without firmware updates. The
/// sub-command `0x0c` reads a knob, the flag `0x02` asks for the value effective this boot, and the
/// object `0x29` is the vGPU mode.
pub open spec fn vgpu_mode_request(prc_type: u8) -> Seq<u8> {
    message_header(prc_type) + seq![0x0cu8, 0x02, 0x29, 0x00]
}

/// Returns the message that asks FSP for the active vGPU mode. `prc_type` is the NVDM type of PRC
/// messages.
pub fn vgpu_mode_message(prc_type: u8) -> (message: Vec<u8>)
    ensures
        message@ == vgpu_mode_request(prc_type),
{
    let mut message = push_header(prc_type);
    message.push(0x0c);
    message.push(0x02);
    message.push(0x29);
    message.push(0x00);
    assert(message@ =~= vgpu_mode_request(prc_type));
    message
}

/// Returns the vGPU mode that the response to [`vgpu_mode_message`] holds, low byte first after the
/// common part.
pub fn read_vgpu_mode(response: &[u8]) -> (mode: Result<VgpuMode, Error>)
    ensures
        mode == if response@.len() < 24 {
            Err::<VgpuMode, Error>(Error::EIO)
        } else {
            match VgpuMode::of_code((response@[20] + response@[21] * 256) as u16) {
                Some(mode) => Ok(mode),
                None => Err(Error::EINVAL),
            }
        },
{
    if response.len() < 24 {
        return Err(Error::EIO);
    }
    let raw_value: u16 = response[20] as u16 + response[21] as u16 * 256;
    VgpuMode::try_from(raw_value)
}

/// Each field of the Chain of Trust message is at its place: the headers at 0 and 4, the version at
/// 8, the size of the payload at 10, the address of the FMC at 12, no sysmem FRTS at 20 and 28, the
/// offset and size of the FRTS region in video memory at 32 and 40, the hash at 44, the public key at
/// 92, the signature at 476 and the address of the boot parameters at 860.
pub proof fn law_cot_message_fields(
    version: u16,
    fmc_addr: u64,
    frts_offset: u64,
    frts_size: u32,
    signatures: FmcSignatures,
    boot_params_addr: u64,
)
    ensures
        ({
            let message = cot_message(
                version,
                fmc_addr,
                frts_offset,
                frts_size,
                signatures,
                boot_params_addr,
            );
            &&& message.len() == 868
            &&& le_value(message.subrange(0, 4)) == 0xc000_0001
            &&& le_value(message.subrange(4, 8)) == 0x1410_de7e
            &&& le_value(message.subrange(8, 10)) == version
            &&& le_value(message.subrange(10, 12)) == 860
            &&& le_value(message.subrange(12, 20)) == fmc_addr
            &&& le_value(message.subrange(20, 28)) == 0
            &&& le_value(message.subrange(28, 32)) == 0
            &&& le_value(message.subrange(32, 40)) == frts_offset
            &&& le_value(message.subrange(40, 44)) == frts_size
            &&& message.subrange(44, 92) == signatures.hash384@
            &&& message.subrange(92, 476) == signatures.public_key@
            &&& message.subrange(476, 860) == signatures.signature@
            &&& le_value(message.subrange(860, 868)) == boot_params_addr
        }),
{
    let message = cot_message(
        version,
        fmc_addr,
        frts_offset,
        frts_size,
        signatures,
        boot_params_addr,
    );
    lemma_pow256_values();
    law_transport_header_number(true, true, 0, 0, 0);
    law_nvdm_header_number(NVDM_TYPE_COT);
    lemma_le_bytes_len(transport_word(true, true, 0, 0, 0) as nat, 4);
    lemma_le_bytes_len(nvdm_word(NVDM_TYPE_COT) as nat, 4);
    lemma_le_bytes_len(version as nat, 2);
    lemma_le_bytes_len(860, 2);
    lemma_le_bytes_len(fmc_addr as nat, 8);
    lemma_le_bytes_len(0, 8);
    lemma_le_bytes_len(0, 4);
    lemma_le_bytes_len(frts_offset as nat, 8);
    lemma_le_bytes_len(frts_size as nat, 4);
    lemma_le_bytes_len(boot_params_addr as nat, 8);
    assert(message.subrange(0, 4) =~= le_bytes(transport_word(true, true, 0, 0, 0) as nat, 4));
    lemma_number_at(message, 0, transport_word(true, true, 0, 0, 0) as nat, 4);
    assert(message.subrange(4, 8) =~= le_bytes(nvdm_word(NVDM_TYPE_COT) as nat, 4));
    lemma_number_at(message, 4, nvdm_word(NVDM_TYPE_COT) as nat, 4);
    assert(message.subrange(8, 10) =~= le_bytes(version as nat, 2));
    lemma_number_at(message, 8, version as nat, 2);
    assert(message.subrange(10, 12) =~= le_bytes(860, 2));
    lemma_number_at(message, 10, 860, 2);
    assert(message.subrange(12, 20) =~= le_bytes(fmc_addr as nat, 8));
    lemma_number_at(message, 12, fmc_addr as nat, 8);
    assert(message.subrange(20, 28) =~= le_bytes(0, 8));
    lemma_number_at(message, 20, 0, 8);
    assert(message.subrange(28, 32) =~= le_bytes(0, 4));
    lemma_number_at(message, 28, 0, 4);
    assert(message.subrange(32, 40) =~= le_bytes(frts_offset as nat, 8));
    lemma_number_at(message, 32, frts_offset as nat, 8);
    assert(message.subrange(40, 44) =~= le_bytes(frts_size as nat, 4));
    lemma_number_at(message, 40, frts_size as nat, 4);
    assert(message.subrange(860, 868) =~= le_bytes(boot_params_addr as nat, 8));
    lemma_number_at(message, 860, boot_params_addr as nat, 8);
    assert(message.subrange(44, 92) =~= signatures.hash384@);
    assert(message.subrange(92, 476) =~= signatures.public_key@);
    assert(message.subrange(476, 860) =~= signatures.signature@);
}

/// On a cold boot the FRTS region ends as close as a 2MB boundary allows below the memory that is
/// reserved at the end of the framebuffer. On resume there is none.
pub proof fn law_frts_offset(heap_size: u64, pmu_size: u32)
    ensures
        ({
            let offset = frts_offset(false, heap_size, pmu_size);
            &&& offset % 0x20_0000 == 0
            &&& heap_size + pmu_size <= offset < heap_size + pmu_size + 0x20_0000
        }),
        frts_offset(true, heap_size, pmu_size) == 0,
{
    crate::num::lemma_align_up(heap_size + pmu_size, 0x20_0000);
}

/// The fields of a header word are digits of its number.
proof fn lemma_word_digits(word: u32)
    by (bit_vector)
    ensures
        bit32(word, 31) == (word / 0x8000_0000 == 1),
        bit32(word, 30) == (word / 0x4000_0000 % 2 == 1),
        field32(word, 0, 7) == word % 0x80,
        field32(word, 8, 16) == word / 0x100 % 0x1_0000,
        field32(word, 24, 8) == word / 0x100_0000,
{
}

/// The number of four bytes of a message fits a 32-bit word.
proof fn lemma_word_at(message: Seq<u8>, offset: int)
    requires
        0 <= offset,
        offset + 4 <= message.len(),
    ensures
        word_at(message, offset) == message[offset] + 0x100 * message[offset + 1] + 0x1_0000
            * message[offset + 2] + 0x100_0000 * message[offset + 3],
{
    law_number_of_bytes(message.subrange(offset, offset + 4));
}

/// A good response has at least 20 bytes. Byte 3 has the two highest bits set, for the start and the
/// end of a message. Byte 4 has the message type `0x7e` below its highest bit, bytes 5 and 6 are the
/// vendor `0x10de`, and byte 7 is the type of responses, `0x15`. The word at 12 is the type of the
/// command, and the error code at 16 is zero. Every such message is a good response.
pub proof fn law_good_response_bytes(message: Seq<u8>, nvdm_type: u8)
    ensures
        is_good_response(message, nvdm_type) <==> {
            &&& message.len() >= 20
            &&& message[3] >= 0xc0
            &&& message[4] % 0x80 == 0x7e
            &&& message[5] == 0xde && message[6] == 0x10
            &&& message[7] == 0x15
            &&& message[12] == nvdm_type
            &&& message[13] == 0 && message[14] == 0 && message[15] == 0
            &&& message[16] == 0 && message[17] == 0 && message[18] == 0 && message[19] == 0
        },
{
    if message.len() >= 20 {
        lemma_word_at(message, 0);
        lemma_word_at(message, 4);
        lemma_word_at(message, 12);
        lemma_word_at(message, 16);
        lemma_word_digits(word_at(message, 0));
        lemma_word_digits(word_at(message, 4));
    }
}

/// The request for the vGPU mode: the headers of one packet of the given type, then the sub-command,
/// the flag and the object with its two bytes.
pub proof fn law_vgpu_mode_request_bytes(prc_type: u8)
    ensures
        ({
            let request = vgpu_mode_request(prc_type);
            &&& request.len() == 12
            &&& le_value(request.subrange(0, 4)) == 0xc000_0001
            &&& le_value(request.subrange(4, 8)) == 0x10_de7e + prc_type * 0x100_0000
            &&& request[8] == 0x0c
            &&& request[9] == 0x02
            &&& request[10] == 0x29
            &&& request[11] == 0x00
        }),
{
    let request = vgpu_mode_request(prc_type);
    lemma_pow256_values();
    law_transport_header_number(true, true, 0, 0, 0);
    law_nvdm_header_number(prc_type);
    lemma_le_bytes_len(transport_word(true, true, 0, 0, 0) as nat, 4);
    lemma_le_bytes_len(nvdm_word(prc_type) as nat, 4);
    assert(request.subrange(0, 4) =~= le_bytes(transport_word(true, true, 0, 0, 0) as nat, 4));
    assert(request.subrange(4, 8) =~= le_bytes(nvdm_word(prc_type) as nat, 4));
    lemma_number_at(request, 0, transport_word(true, true, 0, 0, 0) as nat, 4);
    lemma_number_at(request, 4, nvdm_word(prc_type) as nat, 4);
}

/// An exchange goes its way: after the message has been sent, packets are polled for until one with
/// bytes is there, that many bytes are received, and then the exchange is over. It is also over, with
/// the error, where a step fails, but a poll that fails has timed out.
pub proof fn law_exchange_course(
    size: u32,
    message: Vec<u8>,
    error: Error,
    result: Result<Vec<u8>, Error>,
    event: FspEvent,
    nvdm_type: u8,
)
    ensures
        FspExchange::Send.following(FspEvent::Sent, nvdm_type) == FspExchange::Poll,
        FspExchange::Poll.following(FspEvent::Packet(0), nvdm_type) == FspExchange::Poll,
        0 < size <= usize::MAX ==> FspExchange::Poll.following(FspEvent::Packet(size), nvdm_type) == (
        FspExchange::Receive { size: size as usize }),
        FspExchange::Poll.following(FspEvent::TimedOut, nvdm_type) == FspExchange::Finished(
            Err(Error::ETIMEDOUT),
        ),
        FspExchange::Poll.following(FspEvent::Failed(error), nvdm_type) == FspExchange::Finished(
            Err(Error::ETIMEDOUT),
        ),
        FspExchange::Send.following(FspEvent::Failed(error), nvdm_type) == FspExchange::Finished(
            Err(error),
        ),
        (FspExchange::Receive { size: size as usize }).following(FspEvent::Failed(error), nvdm_type)
            == FspExchange::Finished(Err(error)),
        (FspExchange::Receive { size: size as usize }).following(
            FspEvent::Received(message),
            nvdm_type,
        ) == FspExchange::Finished(
            if is_good_response(message@, nvdm_type) {
                Ok(message)
            } else {
                Err(Error::EIO)
            },
        ),
        FspExchange::Send.following(FspEvent::Packet(size), nvdm_type) == FspExchange::Finished(
            Err(Error::EIO),
        ),
        FspExchange::Finished(result).following(event, nvdm_type) == FspExchange::Finished(result),
{
}

} // verus!
