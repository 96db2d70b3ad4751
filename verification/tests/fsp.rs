//! Tests of the FSP interface.

use nova_core::error::Error;
use nova_core::fsp::{
    boot_fmc, check_response, extract_fmc_signatures, fsp_secure_boot_timeout_ms, read_vgpu_mode,
    vgpu_mode_message, wait_secure_boot, FspCotVersion, FspEvent, FspExchange, GspFmcBootParams,
};
use nova_core::gpu::Architecture;
use nova_core::mctp::{NvdmHeader, TransportHeader, NVDM_TYPE_COT, NVDM_TYPE_FSP_RESPONSE};
use nova_core::vgpu::VgpuMode;

const PRC: u8 = 0x13;

fn response(nvdm_type: u8, error_code: u32) -> Vec<u8> {
    let mut bytes = Vec::new();
    bytes.extend_from_slice(&TransportHeader::new(true, true, 0, 0, 0).raw.to_le_bytes());
    bytes.extend_from_slice(&NvdmHeader::new(NVDM_TYPE_FSP_RESPONSE).raw.to_le_bytes());
    bytes.extend_from_slice(&7u32.to_le_bytes());
    bytes.extend_from_slice(&u32::from(nvdm_type).to_le_bytes());
    bytes.extend_from_slice(&error_code.to_le_bytes());
    bytes
}

#[test]
fn transport_header_has_its_fields() {
    let header = TransportHeader::new(true, false, 0x12, 0x34, 3);
    assert_eq!(header.raw, 0xb012_3401);
    assert!(header.som());
    assert!(!header.eom());
    assert_eq!(header.seq(), 3);
    assert_eq!(header.seid(), 0x12);
    assert_eq!(header.deid(), 0x34);
    assert_eq!(header.version(), 1);
    assert_eq!(TransportHeader::new(true, true, 0, 0, 4).raw, 0);
    assert_eq!(TransportHeader::new(true, true, 0, 0, 0).raw, 0xc000_0001);
}

#[test]
fn nvdm_header_has_its_fields() {
    let header = NvdmHeader::new(0x14);
    assert_eq!(header.raw, 0x1410_de7e);
    assert_eq!(header.msg_type(), 0x7e);
    assert_eq!(header.vendor_id(), 0x10de);
    assert_eq!(header.nvdm_type(), 0x14);
}

#[test]
fn secure_boot_has_its_time() {
    assert_eq!(fsp_secure_boot_timeout_ms(Architecture::BlackwellGB20x), 5000);
    assert_eq!(fsp_secure_boot_timeout_ms(Architecture::Hopper), 4000);
    assert_eq!(wait_secure_boot(Some(0xff)), Ok(()));
    assert_eq!(wait_secure_boot(Some(0xfe)), Err(Error::ETIMEDOUT));
    assert_eq!(wait_secure_boot(None), Err(Error::ETIMEDOUT));
}

#[test]
fn signatures_are_filled_up() {
    let signatures = extract_fmc_signatures(&[1; 48], &[2; 3], &[3; 384]).ok().unwrap();
    assert_eq!(signatures.hash384, [1; 48]);
    assert_eq!(&signatures.public_key[..5], &[2, 2, 2, 0, 0]);
    assert_eq!(signatures.signature, [3; 384]);
    assert_eq!(extract_fmc_signatures(&[1; 47], &[], &[]).err(), Some(Error::EINVAL));
    assert_eq!(extract_fmc_signatures(&[1; 48], &[0; 385], &[]).err(), Some(Error::EINVAL));
    assert_eq!(extract_fmc_signatures(&[1; 48], &[], &[0; 385]).err(), Some(Error::EINVAL));
}

#[test]
fn chain_of_trust_message_is_packed() {
    let signatures = extract_fmc_signatures(&[1; 48], &[2; 384], &[3; 384]).ok().unwrap();
    let version = Some(FspCotVersion::new(2));
    let message =
        boot_fmc(version, 0x1122, 0x3344, false, 0x220_0000, 0x180_0001, &signatures).unwrap();
    assert_eq!(message.len(), 868);
    assert_eq!(&message[4..8], &NvdmHeader::new(NVDM_TYPE_COT).raw.to_le_bytes());
    assert_eq!(&message[8..12], &[2, 0, 0x5c, 0x03]);
    assert_eq!(&message[12..20], &0x1122u64.to_le_bytes());
    // The FRTS region is below what is reserved, aligned to 2MB.
    assert_eq!(&message[32..40], &0x3c0_0000u64.to_le_bytes());
    assert_eq!(&message[40..44], &0x10_0000u32.to_le_bytes());
    assert_eq!(&message[44..92], &[1; 48]);
    assert_eq!(&message[860..868], &0x3344u64.to_le_bytes());

    let resumed = boot_fmc(version, 0, 0, true, u64::MAX, 1, &signatures).unwrap();
    assert_eq!(&resumed[32..44], &[0; 12]);
    assert_eq!(boot_fmc(version, 0, 0, false, u64::MAX, 1, &signatures), Err(Error::EINVAL));
    assert_eq!(boot_fmc(None, 0, 0, false, 0, 1, &signatures), Err(Error::ENOTSUPP));
}

#[test]
fn responses_are_checked() {
    assert_eq!(check_response(&response(NVDM_TYPE_COT, 0), NVDM_TYPE_COT), Ok(()));
    assert_eq!(check_response(&response(NVDM_TYPE_COT, 1), NVDM_TYPE_COT), Err(Error::EIO));
    assert_eq!(check_response(&response(PRC, 0), NVDM_TYPE_COT), Err(Error::EIO));
    assert_eq!(check_response(&response(PRC, 0)[..19], PRC), Err(Error::EIO));
    let mut part = response(PRC, 0);
    part[3] = 0x80;
    assert_eq!(check_response(&part, PRC), Err(Error::EIO));
    let mut foreign = response(PRC, 0);
    foreign[5] = 0;
    assert_eq!(check_response(&foreign, PRC), Err(Error::EIO));
}

#[test]
fn exchange_ends_with_the_response() {
    let step = FspExchange::start().next(FspEvent::Sent, PRC);
    let step = step.next(FspEvent::Packet(0), PRC);
    let step = step.next(FspEvent::Packet(20), PRC);
    assert!(matches!(step, FspExchange::Receive { size: 20 }));
    match step.next(FspEvent::Received(response(PRC, 0)), PRC) {
        FspExchange::Finished(Ok(message)) => assert_eq!(message.len(), 20),
        _ => panic!("the exchange did not end"),
    }
    let failed = FspExchange::Receive { size: 20 }.next(FspEvent::Received(response(PRC, 5)), PRC);
    assert!(matches!(failed, FspExchange::Finished(Err(Error::EIO))));
    let timed_out = FspExchange::Poll.next(FspEvent::TimedOut, PRC);
    assert!(matches!(timed_out, FspExchange::Finished(Err(Error::ETIMEDOUT))));
    let unsent = FspExchange::Send.next(FspEvent::Failed(Error::ENODEV), PRC);
    assert!(matches!(unsent, FspExchange::Finished(Err(Error::ENODEV))));
}

#[test]
fn vgpu_mode_is_queried() {
    let message = vgpu_mode_message(PRC);
    assert_eq!(message.len(), 12);
    assert_eq!(&message[8..], &[0x0c, 0x02, 0x29, 0x00]);
    let mut reply = response(PRC, 0);
    reply.extend_from_slice(&[1, 0, 0, 0]);
    assert_eq!(read_vgpu_mode(&reply), Ok(VgpuMode::Enabled));
    reply[20] = 0;
    assert_eq!(read_vgpu_mode(&reply), Ok(VgpuMode::Disabled));
    reply[21] = 1;
    assert_eq!(read_vgpu_mode(&reply), Err(Error::EINVAL));
    assert_eq!(read_vgpu_mode(&reply[..23]), Err(Error::EIO));
}

#[test]
fn boot_parameters_name_the_apertures() {
    let params = GspFmcBootParams::new(0x1000, 256, 0x2000);
    assert_eq!(params.boot_gsp_rm_params.target, 1);
    assert_eq!(params.boot_gsp_rm_params.gsp_rm_desc_offset, 0x1000);
    assert_eq!(params.boot_gsp_rm_params.gsp_rm_desc_size, 256);
    assert_eq!(params.boot_gsp_rm_params.b_is_gsp_rm_boot, 1);
    assert_eq!(params.gsp_rm_params.target, 2);
    assert_eq!(params.gsp_rm_params.boot_args_offset, 0x2000);
}
