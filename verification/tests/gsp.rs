//! Tests of the GSP messages, its log buffers and its boot.

use std::collections::hash_map::DefaultHasher;
use std::hash::{Hash, Hasher};

use nova_core::error::Error;
use nova_core::fb::FbLayout;
use nova_core::firmware::radix3::DmaRegion;
use nova_core::gpu::Chipset;
use nova_core::gsp::boot::{
    check_riscv_active, check_sec2_mailbox, core_resume, handle_load_exec_bootloader,
    handle_load_exec_hs_binary, shutdown_gsp, unload, BootStep, FalconDmaSrcOffset,
    FalconFbifTarget, FalconStep, UnloadEvent, UnloadStep,
};
use nova_core::gsp::fw::commands::PowerStateLevel;
use nova_core::gsp::fw::r000_00::bindings::{
    GspFwWprMeta__bindgen_ty_1, GspStaticConfigInfo_t, GspSystemInfo, __BindgenUnionField,
    __IncompleteArrayField, GSP_MSG_QUEUE_ELEMENT,
};
use nova_core::gsp::fw::rm::{GspRmControl, RmControlCodes, RmControlMsgFunction};
use nova_core::gsp::fw::{
    gsp_arguments_cached, id8, vf_info, wpr_meta, BindataArgs, CmdqLayout, GspFirmwareAddresses,
    GspFwHeapParams, GspGmcMsgElement, GspMsgElement, LibosMemoryRegionInitArgument, LibosParams,
    MsgFunction, MsgqRxHeader, MsgqTxHeader, SriovCapability,
};
use nova_core::gsp::regs::frts_err_code;
use nova_core::gsp::rm::commands::{
    get_ce_fault_method_buffer_size, send_rm_control, RmControl, RmControlReply,
};
use nova_core::gsp::{
    gsp_libos_arguments, libos_arguments, new_log_buffer_header, pte_array, GspBufferAddresses,
    GspBuffers, LogRead, LogTask,
};
use nova_core::regs::FalconMem;

const MB: u64 = 1 << 20;

#[test]
fn heap_sizes_are_clamped() {
    assert_eq!(GspFwHeapParams::base_rm_size(Chipset::TU102), 8 * MB);
    assert_eq!(GspFwHeapParams::base_rm_size(Chipset::GH100), 14 * MB);
    assert_eq!(GspFwHeapParams::client_alloc_size(Chipset::AD102), Ok(96 * MB));
    assert_eq!(GspFwHeapParams::client_alloc_size(Chipset::GB100), Ok(142 * MB));
    assert_eq!(GspFwHeapParams::management_overhead(24 << 30), Ok(3 * MB));
    assert_eq!(GspFwHeapParams::management_overhead((24 << 30) + 1), Ok(3 * MB));
    assert_eq!(GspFwHeapParams::management_overhead(0), Ok(0));
    let ada = LibosParams::from_chipset(Chipset::AD102);
    assert_eq!(ada.wpr_heap_size(Chipset::AD102, 24 << 30), Ok((22 + 8 + 96 + 3) * MB));
    let ga100 = LibosParams::from_chipset(Chipset::GA100);
    assert_eq!(ga100.carveout_size, 0);
    assert_eq!(ga100.wpr_heap_size(Chipset::GA100, u64::MAX), Ok(256 * MB - 1));
    let hopper = LibosParams::from_chipset(Chipset::GH100);
    assert_eq!(hopper.allowed_heap_size, 170 * MB..280 * MB);
    assert_eq!(hopper.wpr_heap_size(Chipset::TU102, 0), Ok(170 * MB));
}

#[test]
fn bootloader_is_told_of_the_layout() {
    let firmware = GspFirmwareAddresses {
        radix3: 1,
        size: 2,
        bootloader: 3,
        bootloader_size: 4,
        code_offset: 5,
        data_offset: 6,
        manifest_offset: 7,
        signatures: 8,
        signatures_size: 9,
    };
    let layout = FbLayout {
        fb: 0..0x4000_0000,
        vga_workspace: 0x3ff3_0000..0x4000_0000,
        frts: 0x3fe0_0000..0x3ff0_0000,
        boot: 0x3fd0_0000..0x3fd1_0000,
        fw_image: 0x3c00_0000..0x3fd0_0000,
        wpr2_heap: 0x3400_0000..0x3c00_0000,
        wpr2: 0x33f0_0000..0x3ff0_0000,
        heap: 0x33e0_0000..0x33f0_0000,
        vf_partition_count: 3,
    };
    let meta = wpr_meta(firmware, &layout, 0x180_0000);
    assert_eq!(meta.magic, 0xdc3a_ae21_371a_60b3);
    assert_eq!(meta.revision, 1);
    assert_eq!(meta.gspFwWprEnd, 0x3ff2_0000);
    assert_eq!(meta.nonWprHeapSize, 0x10_0000);
    assert_eq!(meta.gspFwHeapSize, 0x800_0000);
    assert_eq!(meta.frtsSize, 0x10_0000);
    assert_eq!(meta.bootloaderManifestOffset, 7);
    assert_eq!(meta.gspFwHeapVfPartitionCount, 3);
    assert_eq!(meta.pmuReservedSize, 0x180_0000);
    match meta.__bindgen_anon_1 {
        GspFwWprMeta__bindgen_ty_1::First(boot) => assert_eq!(boot.sizeOfSignature, 9),
        GspFwWprMeta__bindgen_ty_1::Second(_) => panic!("no boot information"),
    }
}

#[test]
fn functions_have_numbers() {
    assert_eq!(MsgFunction::try_from(76), Ok(MsgFunction::GspRmControl));
    assert_eq!(MsgFunction::try_from(0x1001), Ok(MsgFunction::GspInitDone));
    assert_eq!(MsgFunction::try_from(0x1000), Err(Error::EINVAL));
    assert_eq!(MsgFunction::GspLoadExecHsBinary.into_raw(), 4135);
    assert!(MsgFunction::OsErrorLog.is_event());
    assert!(MsgFunction::GpuacctPerfmonUtilSamples.is_event());
    assert!(!MsgFunction::SetRegistry.is_event());
}

#[test]
fn names_become_identifiers() {
    assert_eq!(id8(b"LOGINIT"), 0x4c4f_4749_4e49_54);
    assert_eq!(id8(b""), 0);
    assert_eq!(id8(b"xLOGINITS"), 0x4c4f_4749_4e49_5453);
    let argument = LibosMemoryRegionInitArgument::new(b"RM", 0x1000, 0x2000);
    let bytes = argument.as_bytes();
    assert_eq!(bytes.len(), 32);
    assert_eq!(&bytes[..3], b"MR\0");
    assert_eq!(&bytes[24..], &[1, 1, 0, 0, 0, 0, 0, 0]);
}

#[test]
fn libos_is_told_of_the_buffers() {
    let region = |page: u64| DmaRegion { address: page << 12, len: 0x1000 };
    let arguments = libos_arguments(GspBuffers {
        loginit: region(1),
        logintr: region(2),
        logrm: region(3),
        logmnoc: region(4),
        logroot: region(5),
        logrmon: region(6),
        rmargs: region(7),
    });
    assert_eq!(arguments.len(), 128);
    assert_eq!(arguments[3].id8, id8(b"LOGMNOC"));
    assert_eq!(arguments[3].pa, 0x4000);
    assert_eq!(arguments[6].id8, id8(b"RMARGS"));
    assert_eq!(arguments[7], LibosMemoryRegionInitArgument::zeroed());
}

#[test]
fn queue_headers_are_set_up() {
    let tx = MsgqTxHeader::new(0x40000, 0x20, 63);
    assert_eq!(tx.msg_size, 4096);
    assert_eq!(tx.entry_off, 4096);
    assert_eq!(tx.msg_count, 63);
    assert_eq!(tx.flags, 1);
    assert_eq!(MsgqRxHeader::new().read_ptr, 0);
}

#[test]
fn message_elements_say_how_long_they_are() {
    let element = GspMsgElement::init(5, 100, MsgFunction::SetRegistry).unwrap();
    assert!(element.has_valid_magic());
    assert_eq!(element.length(), 156);
    assert_eq!(element.payload_length(), 100);
    assert_eq!(element.sequence(), 5);
    assert_eq!(element.function(), Ok(MsgFunction::SetRegistry));
    assert_eq!(element.element_count(), 1);
    assert_eq!(element.rpc.length, 132);
    let bytes = element.as_bytes();
    assert_eq!(bytes.len(), 56);
    assert_eq!(&bytes[..4], b"PTCM");
    assert_eq!(&bytes[24..32], &[0, 0, 0, 3, b'V', b'R', b'P', b'C']);
    assert_eq!(
        GspMsgElement::init(5, u32::MAX as usize, MsgFunction::Nop),
        Err(Error::EINVAL)
    );
    let mut unknown = element;
    unknown.rpc.function = 999;
    assert_eq!(unknown.function(), Err(999));
    let large = GspMsgElement::init(0, 8192, MsgFunction::Nop).unwrap();
    assert_eq!(large.element_count(), 3);
}

#[test]
fn gmc_elements_say_how_long_they_are() {
    let element = GspGmcMsgElement::init(0x10001, 9, 64, 16384);
    assert!(element.has_valid_magic());
    assert_eq!(element.length(), 120);
    assert_eq!(element.payload_length(), 64);
    assert_eq!(element.element_count(), 1);
    assert_eq!(element.gmc.size_or_status, 64);
    assert_eq!(element.gmc.max_resp_or_resp_size, 16384);
    let bytes = element.as_bytes();
    assert_eq!(bytes.len(), 56);
    assert_eq!(bytes[15], 0x26);
    assert_eq!(&bytes[24..28], &[1, 0, 1, 0]);
}

#[test]
fn startup_arguments_name_the_queue() {
    let cmdq = CmdqLayout { dma_handle: 1, num_ptes: 2, cmdq_offset: 3, statq_offset: 4 };
    let args = gsp_arguments_cached(cmdq, None, 0x5000, 4096);
    assert_eq!(args.magic, 0x2050_5347);
    assert_eq!(args.size, 184);
    assert_eq!(args.flags, 2);
    assert_eq!(args.messageQueueInitArguments.sharedMemPhysAddr, 1);
    assert_eq!(args.messageQueueInitArguments.queueElementHdrSize, 24);
    assert_eq!(args.messageQueueInitArguments.queueElementSizeMax, 65536);
    assert_eq!(args.rmStateMonitorBufferArgs.pa, 0x5000);
    assert_eq!(args.bindataArgs.radix3, 0);
    let args = gsp_arguments_cached(cmdq, Some(BindataArgs { radix3: 7, size: 8 }), 0, 0);
    assert_eq!(args.bindataArgs.radix3, 7);
    assert_eq!(args.bindataArgs.size, 8);
}

#[test]
fn virtual_functions_are_described() {
    let sriov = SriovCapability {
        total_vfs: 16,
        vf_offset: 4,
        vf_bar0: 0xf000_0000,
        vf_bar1: (true, 0x10_0000_0000),
        vf_bar3: (false, 0x2000_0000),
    };
    let info = vf_info(sriov);
    assert_eq!(info.totalVFs, 16);
    assert_eq!(info.firstVFOffset, 4);
    assert_eq!(info.FirstVFBar1Address, 0x10_0000_0000);
    assert_eq!((info.b64bitBar0, info.b64bitBar1, info.b64bitBar2), (0, 1, 0));
    let none = SriovCapability { total_vfs: -1, ..sriov };
    assert_eq!(vf_info(none).totalVFs, 0);
}

#[test]
fn defaults_are_zero() {
    let info = GspSystemInfo::default();
    assert_eq!(info.gpuPhysAddr, 0);
    assert_eq!(info.acpiMethodData.muxMethodData.acpiIdMuxModeTable[15].mode, 0);
    let config = GspStaticConfigInfo_t::default();
    assert_eq!(config.gidInfo.data, [0; 256]);
    assert_eq!(config.fbRegionInfoParams.fbRegion[3].limit, 0);
    let element = GSP_MSG_QUEUE_ELEMENT::default();
    assert_eq!(element.__bindgen_anon_1.bindgen_union_field, [0; 6]);
    let _: __IncompleteArrayField<u8> = __IncompleteArrayField::new();
    let field: __BindgenUnionField<u8> = __BindgenUnionField::new();
    let copy = field;
    assert!(field == copy);
    assert!(field.clone() == __BindgenUnionField::default());
    assert_eq!(std::mem::size_of::<__BindgenUnionField<u64>>(), 0);
    assert_eq!(field.debug_name(), "__BindgenUnionField");
    let mut with = DefaultHasher::new();
    let without = DefaultHasher::new();
    field.hash(&mut with);
    assert_eq!(with.finish(), without.finish());
    let array: __IncompleteArrayField<u64> = __IncompleteArrayField::default();
    assert_eq!(array.debug_name(), "__IncompleteArrayField");
    assert_eq!(std::mem::size_of_val(&array), 0);
}

#[test]
fn log_pages_are_mapped() {
    assert_eq!(pte_array(0x8000, 3), Ok(vec![0x8000, 0x9000, 0xa000]));
    assert_eq!(pte_array(u64::MAX, 1), Ok(vec![u64::MAX]));
    assert_eq!(pte_array(u64::MAX, 2), Err(Error::EOVERFLOW));
    assert_eq!(LogTask::Rmon.num_pages(), 1);
    assert_eq!(LogTask::Rm.num_pages(), 16);
    assert_eq!(LogTask::Mnoc.prefix(), "MNOC");
    assert_eq!(LogTask::Intr.file_name(), "logintr");
}

#[test]
fn log_headers_name_the_build() {
    let header = new_log_buffer_header(Chipset::GA102, &[1, 2, 3], "LONGERNAME");
    assert_eq!(header.len(), 72);
    assert_eq!(&header[..16], &[0x17, 0, 0, 0, 2, 0, 0, 0, 2, 0, 0, 0, 3, 0, 0, 0]);
    assert_eq!(&header[16..24], b"LONGERNA");
    assert_eq!(&header[32..36], &[1, 2, 3, 0]);
    assert_eq!(&header[64..], &[1, 0, 0, 0, 0, 0, 0, 0]);
    assert_eq!(&new_log_buffer_header(Chipset::GA102, &[], "RM")[16..20], b"RM\0\0");
}

#[test]
fn log_reads_cross_the_header() {
    let read = LogRead::new(70, 72, 100, 10).unwrap();
    assert_eq!((read.header_start, read.header_count), (70, 2));
    assert_eq!((read.buffer_start, read.buffer_count), (0, 8));
    assert_eq!(read.written(), 10);
    let read = LogRead::new(0, 72, 100, 10).unwrap();
    assert_eq!((read.header_count, read.buffer_count), (10, 0));
    let read = LogRead::new(100, 72, 100, 1000).unwrap();
    assert_eq!((read.header_count, read.buffer_start, read.buffer_count), (0, 28, 72));
    assert_eq!(LogRead::new(172, 72, 100, 10).unwrap().written(), 0);
    assert_eq!(LogRead::new(5, 0, 100, 10).unwrap().buffer_start, 5);
    assert_eq!(LogRead::new(-1, 72, 100, 10), Err(Error::EINVAL));
}

#[test]
fn boot_unloads_what_it_started() {
    let mut step = BootStep::start();
    for _ in 0..8 {
        step = step.next(Ok(()));
    }
    assert!(matches!(step, BootStep::Finished(Ok(()))));
    let early = BootStep::HalBoot.next(Err(Error::EIO));
    assert!(matches!(early, BootStep::Finished(Err(Error::EIO))));
    let late = BootStep::PollRiscvActive.next(Err(Error::ETIMEDOUT));
    assert!(matches!(late, BootStep::Unload(Error::ETIMEDOUT)));
    assert!(matches!(late.next(Err(Error::EIO)), BootStep::Finished(Err(Error::ETIMEDOUT))));
}

#[test]
fn core_resume_hands_over_the_arguments() {
    let steps = core_resume(0x57, 0x1_2345_6789);
    assert_eq!(steps[1], FalconStep::WriteMailboxes(0x2345_6789, 1));
    assert_eq!(steps[5], FalconStep::WriteOsVersion(0x57));
    assert_eq!(steps.len(), 7);
    assert_eq!(check_sec2_mailbox(0), Ok(()));
    assert_eq!(check_sec2_mailbox(1), Err(Error::EIO));
    assert_eq!(check_riscv_active(true), Ok(()));
    assert_eq!(check_riscv_active(false), Err(Error::EIO));
}

#[test]
fn generic_bootloader_is_run() {
    let mut payload = vec![0u8; 112];
    payload[32] = 4;
    payload[84] = 84;
    payload[88] = 1;
    let (desc, steps) = handle_load_exec_bootloader(&payload, 7, 0).unwrap();
    assert_eq!(desc, payload[..84].to_vec());
    assert_eq!(steps[3], FalconStep::SaveTranscfg(4));
    assert_eq!(steps[4], FalconStep::SetTranscfg(4, FalconFbifTarget::CoherentSysmem));
    assert_eq!(steps[6], FalconStep::WriteMailbox0(0xfe));
    assert_eq!(steps[9], FalconStep::RestoreTranscfg(4));
    assert_eq!(steps.len(), 17);
    payload[92] = 1;
    let (_, steps) = handle_load_exec_bootloader(&payload, 7, 0).unwrap();
    assert_eq!(steps[4], FalconStep::SetTranscfg(4, FalconFbifTarget::NoncoherentSysmem));
    payload[92] = 2;
    assert_eq!(handle_load_exec_bootloader(&payload, 7, 0), Err(Error::EINVAL));
    payload[88] = 2;
    assert!(handle_load_exec_bootloader(&payload, 7, 0).is_ok());
    payload[32] = 8;
    assert_eq!(handle_load_exec_bootloader(&payload, 7, 0), Err(Error::EINVAL));
    payload[32] = 7;
    payload[84] = 83;
    assert_eq!(handle_load_exec_bootloader(&payload, 7, 0), Err(Error::EINVAL));
    assert_eq!(handle_load_exec_bootloader(&payload[..111], 7, 0), Err(Error::EINVAL));
}

#[test]
fn hs_binaries_are_run() {
    let mut payload = vec![0u8; 80];
    payload[0] = 0x10;
    payload[8] = 0x20;
    payload[32] = 1;
    payload[36] = 2;
    payload[40] = 3;
    payload[44..48].copy_from_slice(&[0xff; 4]);
    payload[48] = 5;
    payload[52] = 6;
    payload[64] = 9;
    let steps = handle_load_exec_hs_binary(&payload, 7, 0).unwrap();
    assert_eq!(
        steps[5],
        FalconStep::DmaTransfer {
            ctx_dma: 0,
            addr: 0x10,
            mem: FalconMem::ImemSecure,
            src: FalconDmaSrcOffset::Offset(1),
            dst: 2,
            size: 3,
        }
    );
    assert_eq!(
        steps[6],
        FalconStep::DmaTransfer {
            ctx_dma: 0,
            addr: 0x20,
            mem: FalconMem::Dmem,
            src: FalconDmaSrcOffset::Offset(0),
            dst: 5,
            size: 6,
        }
    );
    assert_eq!(steps[9], FalconStep::WriteBromUcodeId(9));
    assert_eq!(steps.len(), 22);
    // Without code and data there is nothing to copy.
    payload[40] = 0;
    payload[52] = 0;
    assert_eq!(handle_load_exec_hs_binary(&payload, 7, 0).unwrap().len(), 20);
    payload[65] = 1;
    let steps = handle_load_exec_hs_binary(&payload, 7, 0).unwrap();
    assert_eq!(steps.last(), Some(&FalconStep::Fail(Error::EINVAL)));
    assert_eq!(handle_load_exec_hs_binary(&payload[..79], 7, 0), Err(Error::EINVAL));
}

#[test]
fn unload_reports_the_first_error() {
    assert_eq!(shutdown_gsp(Ok(()), Some(true)), Ok(()));
    assert_eq!(shutdown_gsp(Ok(()), None), Err(Error::ETIMEDOUT));
    assert_eq!(shutdown_gsp(Err(Error::EIO), Some(true)), Err(Error::EIO));
    assert_eq!(unload(Ok(()), Some(Ok(()))), Ok(()));
    assert_eq!(unload(Err(Error::EIO), Some(Err(Error::ENODEV))), Err(Error::EIO));
    assert_eq!(unload(Ok(()), Some(Err(Error::ENODEV))), Err(Error::ENODEV));
    assert_eq!(unload(Err(Error::EIO), None), Err(Error::EAGAIN));
}

#[test]
fn rm_control_is_sent_and_answered() {
    let codes = RmControlCodes {
        ce_get_fault_method_buffer_size: 0x2080_2a08,
        vgpu_mgr_internal_pgpu_add_vgpu_type: 0x2080_4003,
    };
    let function = RmControlMsgFunction::CeGetFaultMethodBufferSize;
    assert_eq!(codes.try_from(0x2080_2a08), Ok(function));
    assert_eq!(codes.try_from(1), Err(Error::EINVAL));
    let control = RmControl::new(1, 2, function, &[0; 4]);
    assert_eq!(control.variable_payload_len(), 4);
    assert_eq!(
        control.init(&codes),
        GspRmControl {
            h_client: 1,
            h_object: 2,
            cmd: 0x2080_2a08,
            status: 0,
            params_size: 4,
            flags: 0,
        }
    );
    let reply = |status, params| RmControlReply { status, params };
    assert_eq!(send_rm_control(reply(Ok(()), vec![1])), Ok(vec![1]));
    assert_eq!(send_rm_control(reply(Err(Error::EIO), vec![1])), Err(Error::EIO));
    assert_eq!(get_ce_fault_method_buffer_size(reply(Ok(()), vec![0, 1, 0, 0])), Ok(256));
    assert_eq!(
        get_ce_fault_method_buffer_size(reply(Ok(()), vec![0, 1])),
        Err(Error::EINVAL)
    );
    assert_eq!(frts_err_code(0x1234_5678), 0x1234);
}

#[test]
fn buffers_are_passed_with_their_size() {
    let arguments = gsp_libos_arguments(GspBufferAddresses {
        loginit: 0x10_0000,
        logintr: 0x20_0000,
        logrm: 0x30_0000,
        logmnoc: 0x40_0000,
        logroot: 0x50_0000,
        logrmon: 0x60_0000,
        rmargs: 0x70_0000,
    });
    assert_eq!(arguments.len(), 128);
    let sizes: Vec<u64> = arguments[..8].iter().map(|argument| argument.size).collect();
    assert_eq!(sizes, vec![0x10000, 0x10000, 0x10000, 0x10000, 0x1000, 0x1000, 0x1000, 0]);
    assert_eq!(arguments[4].id8, id8(b"LOGROOT"));
    assert_eq!(arguments[4].pa, 0x50_0000);
}

#[test]
fn unload_runs_the_bundle_after_either_outcome() {
    let start = UnloadStep::start();
    assert_eq!(start, UnloadStep::SendShutdown(PowerStateLevel::Level0));
    let wait = start.next(UnloadEvent::Sent(Ok(())));
    assert_eq!(wait, UnloadStep::WaitSuspended);
    let done = wait.next(UnloadEvent::Suspended(true));
    assert_eq!(done, UnloadStep::RunBundle(Ok(())));
    let late = wait.next(UnloadEvent::Suspended(false));
    assert_eq!(late, UnloadStep::RunBundle(Err(Error::ETIMEDOUT)));
    let failed = start.next(UnloadEvent::Sent(Err(Error::EIO)));
    assert_eq!(failed, UnloadStep::RunBundle(Err(Error::EIO)));
    assert_eq!(done.next(UnloadEvent::Bundle(Some(Ok(())))), UnloadStep::Finished(Ok(())));
    assert_eq!(
        failed.next(UnloadEvent::Bundle(Some(Ok(())))),
        UnloadStep::Finished(Err(Error::EIO))
    );
    assert_eq!(done.next(UnloadEvent::Bundle(None)), UnloadStep::Finished(Err(Error::EAGAIN)));
}
