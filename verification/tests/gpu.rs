//! Tests of the GPU identification, its registers and its bring-up.

use nova_core::error::Error;
use nova_core::falcon::fsp::{emem_bytes, read_emem, write_emem, EmemWrite};
use nova_core::falcon::gsp::{
    priv_target_mask_released, reload_completed, retrigger_intr, take_host_intr,
    NV_PFALCON_FALCON_IRQSTAT,
};
use nova_core::falcon::hal::{falcon_hal, falcon_intr_hal, FalconHal, LoadMethod, RiscvRouting};
use nova_core::fb::hal::{
    fb_hal, read_sysmem_flush_page, write_sysmem_flush_page_gb100, write_sysmem_flush_page_gb202,
    FbHal, FlushRegister,
};
use nova_core::gpu::bring_up::{
    mm_plan, teardown, total_usable_vram, BringUp, GpuBuddyParams, Resource, Step,
};
use nova_core::gpu::{Architecture, Chipset, Revision, Spec};
use nova_core::mm::addr::VramAddress;
use nova_core::mm::pagetable::MmuVersion;
use nova_core::num::{align_up, is_power_of_two};
use nova_core::regs::{
    pramin_window_read_base, pramin_window_write_base, FalconMem, TlbAckMode,
    NV_PFALCON_FALCON_DMACTL, NV_PFALCON_FALCON_DMATRFCMD, NV_PFALCON_FALCON_HWCFG2,
    NV_PFB_PRI_MMU_LOCAL_MEMORY_RANGE, NV_PFB_PRI_MMU_WPR2_ADDR_HI, NV_PFB_PRI_MMU_WPR2_ADDR_LO,
    NV_PGC6_AON_SECURE_SCRATCH_GROUP_05_0_GFW_BOOT, NV_PMC_BOOT_0, NV_PMC_BOOT_42,
    NV_TLB_FLUSH_CTRL, NV_USABLE_FB_SIZE_IN_MB,
};
use nova_core::vgpu::{VgpuManager, VgpuMode, VgpuQuery, VgpuState};

#[test]
fn chipsets_have_names_and_numbers() {
    for chipset in Chipset::all() {
        let code = chipset.arch().into_raw() * 16 + chipset.implementation();
        assert_eq!(Chipset::try_from(code), Ok(chipset));
    }
    assert_eq!(Chipset::try_from(0x161), Err(Error::ENODEV));
    assert_eq!(Architecture::try_from(0x15), Err(Error::EINVAL));
    assert_eq!(Chipset::GB207.name(), "gb207");
    assert_eq!(Chipset::GA100.mmu_version(), MmuVersion::V2);
    assert_eq!(Chipset::GH100.mmu_version(), MmuVersion::V3);
}

#[test]
fn gpu_is_identified() {
    let boot42 = NV_PMC_BOOT_42 { raw: 0x1720_0000 | 0xa << 16 | 1 << 12 };
    let spec = Spec::try_from(boot42).unwrap();
    assert_eq!(spec.chipset, Chipset::GA102);
    assert_eq!(spec.revision, Revision { major: 0xa, minor: 1 });
    assert!(Spec::try_from(NV_PMC_BOOT_42 { raw: 0 }).is_err());
    assert!(Spec::new(NV_PMC_BOOT_0 { raw: 0 }, boot42).is_err());
}

#[test]
fn registers_are_read() {
    let range = NV_PFB_PRI_MMU_LOCAL_MEMORY_RANGE { raw: 24 << 4 | 10 };
    assert_eq!(range.usable_fb_size(), 24 << 30);
    let ecc = NV_PFB_PRI_MMU_LOCAL_MEMORY_RANGE { raw: 1 << 30 | 16 << 4 | 10 };
    assert_eq!(ecc.usable_fb_size(), 15 << 30);
    assert_eq!(NV_PFB_PRI_MMU_WPR2_ADDR_LO { raw: 0x1234_5670 }.lower_bound(), 0x123_4567 << 12);
    assert!(!NV_PFB_PRI_MMU_WPR2_ADDR_HI { raw: 0xf }.is_wpr2_set());
    assert_eq!(NV_PFB_PRI_MMU_WPR2_ADDR_HI { raw: 0x10 }.higher_bound(), 0x1000);
    assert!(NV_PGC6_AON_SECURE_SCRATCH_GROUP_05_0_GFW_BOOT { raw: 0x1ff }.completed());
    assert!(!NV_PGC6_AON_SECURE_SCRATCH_GROUP_05_0_GFW_BOOT { raw: 0xfe }.completed());
    assert_eq!(NV_USABLE_FB_SIZE_IN_MB { raw: 3 }.usable_fb_size(), 3 << 20);
    assert!(NV_PFALCON_FALCON_DMACTL { raw: 0xf9 }.mem_scrubbing_done());
    assert!(!NV_PFALCON_FALCON_DMACTL { raw: 2 }.mem_scrubbing_done());
    assert!(!NV_PFALCON_FALCON_HWCFG2 { raw: 1 << 12 }.mem_scrubbing_done());
    assert!(NV_PFALCON_FALCON_HWCFG2 { raw: 1 << 13 }.riscv_br_priv_lockdown());
    let cmd = NV_PFALCON_FALCON_DMATRFCMD { raw: 0 };
    assert_eq!(cmd.with_falcon_mem(FalconMem::ImemSecure).raw, 1 << 4 | 1 << 2);
    assert_eq!(cmd.with_falcon_mem(FalconMem::Dmem).raw, 0);
}

#[test]
fn window_base_reads_back() {
    for arch in [Architecture::Turing, Architecture::Hopper, Architecture::BlackwellGB20x] {
        let base = VramAddress::new(0x123_0000);
        let raw = pramin_window_write_base(arch, base).unwrap();
        assert_eq!(pramin_window_read_base(arch, raw), base);
        assert!(pramin_window_write_base(arch, VramAddress::new(u64::MAX)).is_err());
    }
}

#[test]
fn tlb_flush_modes_have_numbers() {
    for mode in [TlbAckMode::NotNeeded, TlbAckMode::Globally, TlbAckMode::Intranode] {
        assert_eq!(TlbAckMode::try_from(mode.into_raw()), Ok(mode));
    }
    assert!(TlbAckMode::try_from(7).is_err());
    assert!(NV_TLB_FLUSH_CTRL::flush_all(TlbAckMode::Globally).trigger());
}

#[test]
fn falcons_differ_by_family() {
    assert_eq!(falcon_hal(Chipset::GA100), FalconHal::Tu102);
    assert_eq!(falcon_hal(Chipset::GA102).load_method(), LoadMethod::Dma);
    assert_eq!(falcon_hal(Chipset::TU102).load_method(), LoadMethod::Pio);
    assert_eq!(falcon_intr_hal(Chipset::GA100).riscv_routing(), RiscvRouting::Tu102);
    assert!(retrigger_intr(Chipset::GA100));
    assert!(!retrigger_intr(Chipset::TU117));
    assert!(reload_completed(1 << 26));
    assert!(!priv_target_mask_released(0xbadf_4155));
    assert!(priv_target_mask_released(1));
    assert_eq!(take_host_intr(NV_PFALCON_FALCON_IRQSTAT { raw: 0 }), None);
    assert_eq!(take_host_intr(NV_PFALCON_FALCON_IRQSTAT { raw: 1 << 6 }), Some(1 << 6));
}

#[test]
fn emem_gives_back_what_was_written() {
    let (writes, result) = write_emem(8, &[1, 2, 3, 4, 5, 6, 7, 8]);
    assert_eq!(result, Ok(()));
    assert_eq!(
        writes,
        vec![EmemWrite { offset: 8, word: 0x0403_0201 }, EmemWrite { offset: 12, word: 0x0807_0605 }]
    );
    let (offsets, result) = read_emem(8, 8);
    assert_eq!(result, Ok(()));
    assert_eq!(offsets, vec![8, 12]);
    let words: Vec<u32> = writes.iter().map(|write| write.word).collect();
    assert_eq!(emem_bytes(&words), vec![1, 2, 3, 4, 5, 6, 7, 8]);
    assert!(write_emem(8, &[1, 2, 3]).1.is_err());
    assert!(read_emem(2, 4).1.is_err());
}

#[test]
fn vgpu_state_needs_support() {
    assert_eq!(VgpuMode::try_from(1), Ok(VgpuMode::Enabled));
    assert_eq!(VgpuMode::try_from(2), Err(Error::EINVAL));
    assert_eq!(VgpuQuery::start(false, Some(8), true), VgpuQuery::Known(VgpuState::Disabled));
    assert_eq!(VgpuQuery::start(true, None, true), VgpuQuery::Known(VgpuState::Disabled));
    let ask = VgpuQuery::start(true, Some(8), true);
    assert_eq!(ask, VgpuQuery::AskFsp { total_vfs: 8 });
    assert_eq!(ask.finish(Ok(VgpuMode::Enabled)), Ok(VgpuState::Enabled { total_vfs: 8 }));
    assert_eq!(ask.finish(Ok(VgpuMode::Disabled)), Ok(VgpuState::Disabled));
    assert_eq!(ask.finish(Err(Error::EIO)), Err(Error::EIO));
    assert_eq!(VgpuState::Enabled { total_vfs: 8 }.total_vfs(), Some(8));
    assert_eq!(VgpuState::detect(Err(Error::EIO)), VgpuState::Disabled);
}

#[test]
fn flush_page_is_split() {
    assert_eq!(fb_hal(Chipset::GA100), FbHal::Ga100);
    assert_eq!(fb_hal(Chipset::AD102), FbHal::Ga102);
    assert_eq!(fb_hal(Chipset::GB102), FbHal::Gb100);
    assert_eq!(fb_hal(Chipset::GB203), FbHal::Gb202);
    let writes = write_sysmem_flush_page_gb100(0xf_1234_5678_9a00).unwrap();
    assert_eq!(
        writes,
        vec![
            (FlushRegister::HshubHi, 0xf_1234),
            (FlushRegister::HshubLo, 0x5678_9a00),
            (FlushRegister::HshubEgHi, 0xf_1234),
            (FlushRegister::HshubEgLo, 0x5678_9a00),
        ]
    );
    let writes = write_sysmem_flush_page_gb202(0x1_0000_0100).unwrap();
    assert_eq!(writes, vec![(FlushRegister::Fbhub0Hi, 1), (FlushRegister::Fbhub0Lo, 0x100)]);
    assert_eq!(read_sysmem_flush_page(0x5678_9a00, 0xf_1234), 0xf_1234_5678_9a00);
    assert_eq!(read_sysmem_flush_page(0, 0x10_0001), 0x1_0000_0000);
    assert_eq!(write_sysmem_flush_page_gb100(1 << 52), Err(Error::EINVAL));
    assert_eq!(write_sysmem_flush_page_gb202(1 << 52), Err(Error::EINVAL));
}

#[test]
fn bring_up_is_undone_in_reverse() {
    let mut bring_up = BringUp::start(false);
    assert!(bring_up.failed().is_empty());
    let mut steps = Vec::new();
    while let Some(step) = bring_up.step {
        steps.push(step);
        if step == Step::CreateMm {
            assert_eq!(
                bring_up.failed(),
                vec![
                    Resource::BootedGsp,
                    Resource::VgpuManager,
                    Resource::ChannelIdPool,
                    Resource::SysmemFlush,
                ]
            );
        }
        bring_up.succeeded();
    }
    assert_eq!(steps.len(), 14);
    assert!(!steps.contains(&Step::Selftest));
    assert_eq!(bring_up.acquired.len(), teardown().len());
    assert_eq!(teardown().last(), Some(&Resource::SysmemFlush));
    assert_eq!(Step::WaitGfwBoot.next(true), Some(Step::Selftest));
}

#[test]
fn memory_is_planned() {
    let plan = mm_plan(&[0x1000..0x3000, 0x8000..0x9000], None, 0x10000).ok().unwrap();
    assert_eq!(
        plan.buddy_params,
        vec![
            GpuBuddyParams { base_offset: 0x1000, size: 0x2000, chunk_size: 4096 },
            GpuBuddyParams { base_offset: 0x8000, size: 0x1000, chunk_size: 4096 },
        ]
    );
    assert_eq!(plan.buddy_base_alignment, 4096);
    assert_eq!(plan.pramin_vram_region, VramAddress::new(0)..VramAddress::new(0x10000));
    let plan = mm_plan(&[], Some(0x200_0000), 0).ok().unwrap();
    assert_eq!(plan.buddy_base_alignment, 0x200_0000);
    assert_eq!(mm_plan(&[], Some(0x300_0000), 0).err(), Some(Error::EINVAL));
    assert_eq!(mm_plan(&[], Some(0), 0).err(), Some(Error::EINVAL));
    assert_eq!(total_usable_vram(&[0x1000..0x3000, 0x8000..0x9000]), 0x3000);
    assert_eq!(total_usable_vram(&[0..u64::MAX, 0..2]), u64::MAX);
}

#[test]
fn numbers_are_aligned() {
    assert_eq!(align_up(0x1001, 0x1000), Some(0x2000));
    assert_eq!(align_up(0x1000, 0x1000), Some(0x1000));
    assert_eq!(align_up(u64::MAX, 0x1000), None);
    assert!(is_power_of_two(64));
    assert!(!is_power_of_two(0));
    assert!(!is_power_of_two(96));
}

#[test]
fn vgpu_manager_retains_its_parameters() {
    let manager = VgpuManager::new([1u32, 2], 0x800_0000, 2048);
    assert_eq!(manager.vmmu_segment_size(), 0x800_0000);
    assert_eq!(manager.total_channels(), 2048);
    assert_eq!(manager.fifo_engine_list(), &[1, 2]);
}
