//! Tests of the memory management.

use std::ops::Range;

use nova_core::error::Error;
use nova_core::mm::addr::{into_vram_range, Pfn, Vfn, VirtualAddress, VramAddress};
use nova_core::mm::bar_user::{validate_pfns, Bar1Map, Bar1Plan, BarUserAccess, MappedRange};
use nova_core::mm::buddy::{
    alloc_region, new_regions, reserve_range, settle, AlignedSearch, Region, Step, Try,
};
use nova_core::mm::pagetable::walk::{
    entry_has_address, PtWalk, WalkAction, WalkPdeResult, WalkResult, WalkStep,
};
use nova_core::mm::pagetable::{ver2, ver3, AperturePde, AperturePte, MmuVersion, PageTableLevel};
use nova_core::mm::placement::{validate_map_entry, Placement, PlacementEntry};
use nova_core::mm::pramin::PraminWindow;
use nova_core::mm::tlb::TlbFlush;
use nova_core::mm::vmm::{VfnRequest, Vmm};
use nova_core::mm::vram::{
    plan_range, validate_allocation, AllocatedBlock, AllocatorBacking, VramBlock, VramRegion,
};
use nova_core::mm::{ranges_overlap, select_internal_fb_range, validate_fb_range};

#[test]
fn fb_ranges_are_whole_pages() {
    assert_eq!(validate_fb_range(&(0x1000..0x3000)), Ok(()));
    assert_eq!(validate_fb_range(&(0x1000..0x1000)), Err(Error::EINVAL));
    assert_eq!(validate_fb_range(&(0x1000..0x2800)), Err(Error::EINVAL));
    assert_eq!(validate_fb_range(&(0x800..0x2000)), Err(Error::EINVAL));
    assert!(ranges_overlap(&(0..10), &(9..12)));
    assert!(!ranges_overlap(&(0..10), &(10..12)));
}

#[test]
fn internal_range_comes_from_the_smallest_that_fits() {
    let usable = [0x0..0x10000, 0x20000..0x24000, 0x30000..0x34000];
    assert_eq!(select_internal_fb_range(&usable, 0x2000), Ok(0x32000..0x34000));
    assert_eq!(select_internal_fb_range(&usable, 0x8000), Ok(0x8000..0x10000));
    assert_eq!(select_internal_fb_range(&usable, 0x20000), Err(Error::ENOSPC));
    assert_eq!(select_internal_fb_range(&usable, 0), Err(Error::EINVAL));
    assert_eq!(select_internal_fb_range(&usable, 0x800), Err(Error::EINVAL));
    let bad: [Range<u64>; 1] = [0x10..0x20];
    assert_eq!(select_internal_fb_range(&bad, 0x1000), Err(Error::EINVAL));
}

#[test]
fn internal_range_can_be_reserved() {
    let usable = [0x0..0x10000, 0x20000..0x24000];
    let chosen = select_internal_fb_range(&usable, 0x2000).unwrap();
    let regions = new_regions(&usable).unwrap();
    assert_eq!(
        reserve_range(&regions, &chosen),
        Ok(Try { region: 1, start: 0x2000, end: 0x4000 })
    );
}

#[test]
fn buddy_regions_do_not_overlap() {
    assert_eq!(new_regions(&[]), Err(Error::ENOSPC));
    assert_eq!(new_regions(&[0..0x2000, 0x1000..0x3000]), Err(Error::EINVAL));
    assert_eq!(new_regions(&[0..0x1800]), Err(Error::EINVAL));
    assert_eq!(
        new_regions(&[0x1000..0x3000]),
        Ok(vec![Region { base_offset: 0x1000, size: 0x2000 }])
    );
}

#[test]
fn exact_ranges_are_not_moved() {
    let regions = new_regions(&[0x1000..0x3000]).unwrap();
    assert_eq!(reserve_range(&regions, &(0x4000..0x5000)), Err(Error::ENOSPC));
    assert_eq!(reserve_range(&regions, &(0x1000..0x1800)), Err(Error::EINVAL));
    let endless = [Region { base_offset: u64::MAX - 0xfff, size: 0x2000 }];
    assert_eq!(reserve_range(&endless, &(0x1000..0x2000)), Err(Error::EOVERFLOW));
}

#[test]
fn aligned_search_tries_every_place() {
    let regions = new_regions(&[0x1000..0x5000, 0x8000..0xa000]).unwrap();
    let mut search = AlignedSearch::new(regions, 0x2000, 0x2000).unwrap();
    assert_eq!(search.next(), Step::Try(Try { region: 0, start: 0x1000, end: 0x3000 }));
    assert_eq!(search.next(), Step::Try(Try { region: 1, start: 0, end: 0x2000 }));
    assert_eq!(search.next(), Step::Stop(Error::ENOSPC));
    assert!(AlignedSearch::new(Vec::new(), 0, 0x1000).is_err());
    assert!(AlignedSearch::new(Vec::new(), 0x1000, 0x1800).is_err());
}

#[test]
fn only_a_lack_of_space_goes_on() {
    assert_eq!(settle(Err(Error::ENOSPC)), None);
    assert_eq!(settle(Err(Error::ENOMEM)), Some(Err(Error::ENOMEM)));
    assert_eq!(settle(Ok(())), Some(Ok(())));
    let regions = new_regions(&[0..0x1000]).unwrap();
    assert_eq!(alloc_region(&regions, 0), Ok(0));
    assert_eq!(alloc_region(&regions, 1), Err(Error::ENOSPC));
}

#[test]
fn vram_blocks_are_one_piece() {
    let pieces = [
        AllocatedBlock { offset: 0x4000, size: 0x1000 },
        AllocatedBlock { offset: 0x5000, size: 0x1000 },
    ];
    let block = VramBlock::from_allocation(&pieces, 0x2000, 0x4000, Some(0x4000)).unwrap();
    assert_eq!(block, VramBlock { address: 0x4000, size: 0x2000 });
    let apart = [
        AllocatedBlock { offset: 0x4000, size: 0x1000 },
        AllocatedBlock { offset: 0x6000, size: 0x1000 },
    ];
    assert!(VramBlock::from_allocation(&apart, 0x2000, 0x1000, None).is_err());
    assert!(VramBlock::from_allocation(&pieces, 0x2000, 0x1000, Some(0x5000)).is_err());
    assert!(VramBlock::from_allocation(&[], 0x2000, 0x1000, None).is_err());
    assert!(VramBlock::validate_aligned(0, 0x1000).is_err());
    assert!(VramBlock { address: u64::MAX, size: 2 }.range().is_err());
}

#[test]
fn subregions_stay_inside() {
    let block = VramBlock { address: 0x10000, size: 0x4000 };
    let region = block.region(&(0x1000..0x3000)).unwrap();
    assert_eq!(region, VramRegion { address: 0x11000, size: 0x2000 });
    assert_eq!(
        region.subregion(&(0x800..0x1000)).unwrap(),
        block.region(&(0x1800..0x2000)).unwrap()
    );
    assert!(region.subregion(&(0x1000..0x2001)).is_err());
    assert_eq!(block.full_region(), VramRegion { address: 0x10000, size: 0x4000 });
    assert_eq!(
        VramRegion::from_placement(&[0x1000..0x3000], &(0x2000..0x3000)),
        Ok(VramRegion { address: 0x2000, size: 0x1000 })
    );
    assert!(VramRegion::from_placement(&[0x1000..0x3000], &(0x2000..0x4000)).is_err());
}

#[test]
fn allocations_are_validated() {
    assert!(validate_allocation(&(0x1000..0x2000), 0x1000).is_ok());
    assert!(validate_allocation(&(0x1000..0x2000), 0x1800).is_err());
    assert!(plan_range(&(0x2000..0x4000), 0x2000).is_ok());
    assert!(plan_range(&(0x1000..0x3000), 0x2000).is_err());
}

#[test]
fn backing_blocks_are_apart() {
    let blocks = vec![
        VramBlock { address: 0x1000, size: 0x1000 },
        VramBlock { address: 0x4000, size: 0x2000 },
    ];
    let backing = AllocatorBacking::from_blocks(blocks).unwrap();
    assert!(backing.contains_range(&(0x4000..0x6000)));
    assert!(!backing.contains_range(&(0x1000..0x5000)));
    assert_eq!(backing.ranges(), Ok(vec![0x1000..0x2000, 0x4000..0x6000]));
    assert!(AllocatorBacking::from_blocks(Vec::new()).is_err());
    let overlapping = vec![
        VramBlock { address: 0x1000, size: 0x2000 },
        VramBlock { address: 0x2000, size: 0x2000 },
    ];
    assert!(AllocatorBacking::from_blocks(overlapping).is_err());
}

#[test]
fn placements_in_use_block_others() {
    let backing =
        AllocatorBacking::from_blocks(vec![VramBlock { address: 0, size: 0x8000 }]).unwrap();
    let entries = vec![
        PlacementEntry::new(1, vec![0..0x2000]).unwrap(),
        PlacementEntry::new(2, vec![0x1000..0x3000]).unwrap(),
        PlacementEntry::new(3, vec![0x4000..0x6000]).unwrap(),
    ];
    let mut placement = Placement::new(&backing, entries).unwrap();
    assert!(placement.is_empty());
    let first = placement.allocate(1).unwrap();
    assert!(placement.allocate(2).is_err());
    assert!(placement.allocate(1).is_err());
    placement.allocate(3).unwrap();
    assert!(placement.allocate(9).is_err());
    placement.free(first, true, true, true).unwrap();
    assert!(placement.allocate(2).is_ok());
    let outside = PlacementEntry::new(4, vec![0x7000..0x9000]).unwrap();
    assert!(validate_map_entry(&backing, &outside).is_err());
    assert!(PlacementEntry::new(5, Vec::new()).is_err());
}

#[test]
fn addresses_have_frames() {
    let address = VramAddress::new(0x12345);
    assert_eq!(address.raw(), 0x12345);
    assert_eq!(address.offset(), 0x345);
    assert_eq!(address.frame_number(), Pfn::new(0x12));
    assert_eq!(address.align_down(0x1000), VramAddress::new(0x12000));
    assert_eq!(VirtualAddress::new(0x5432).frame_number(), Vfn::new(5));
    assert_eq!(VramAddress::from(Pfn::new(3)), VramAddress::new(0x3000));
    assert_eq!(address.checked_add(1u64), Some(VramAddress::new(0x12346)));
    assert_eq!(VramAddress::new(u64::MAX).checked_add(1u64), None);
    assert!(VramAddress::new(1) < VramAddress::new(2));
    assert_eq!(into_vram_range(1..2).end, VramAddress::new(2));
}

#[test]
fn window_follows_the_address() {
    let mut window = PraminWindow {
        vram_region: VramAddress::new(0)..VramAddress::new(0x1000_0000),
        base: VramAddress::new(0),
    };
    let near = window.reposition(VramAddress::new(0x100), 4).unwrap();
    assert_eq!(near.bar_offset, 0x70_0100);
    assert_eq!(near.new_base, None);
    let far = window.reposition(VramAddress::new(0x234_5678), 4).unwrap();
    assert_eq!(far.new_base, Some(window.base));
    assert_eq!(window.base.raw() + (far.bar_offset as u64 - 0x70_0000), 0x234_5678);
    assert!(window.compute_window(VramAddress::new(0x1000_0000), 4).is_err());
    assert!(window.compute_window(VramAddress::new(0x0fff_fffe), 4).is_err());
}

#[test]
fn tlb_flush_names_the_page_directory() {
    let flush = TlbFlush::new(VramAddress::new(0x1234_5678_9a00));
    assert_eq!(flush.pdb_lo, 0x3456_789a);
    assert_eq!(flush.pdb_hi, 0x12);
    assert!(flush.ctrl.trigger());
    assert!(!TlbFlush::completed(flush.ctrl));
}

#[test]
fn virtual_ranges_are_page_ranges() {
    let vmm = Vmm::new(VramAddress::new(0x1000), MmuVersion::V2, 0x10_0000);
    assert_eq!(
        vmm.alloc_vfn_range(2, Some(0x4000..0x6000)),
        Ok(VfnRequest::Exact { start: 4, end: 6 })
    );
    assert!(vmm.alloc_vfn_range(3, Some(0x4000..0x6000)).is_err());
    assert_eq!(
        vmm.alloc_vfn_range(3, None),
        Ok(VfnRequest::Anywhere { num_pages: 3, limit: 0x100 })
    );
    assert_eq!(
        vmm.read_mapping(WalkResult::Mapped { pte_addr: VramAddress::new(0), pfn: Pfn::new(7) }),
        Some(Pfn::new(7))
    );
    assert_eq!(vmm.read_mapping(WalkResult::PageTableMissing), None);
}

#[test]
fn released_mappings_are_gone() {
    let mapped = MappedRange { vfn_start: Vfn::new(2), num_pages: 3 };
    let mut access = BarUserAccess { mapped: Some(mapped) };
    assert_eq!(mapped.base(), VirtualAddress::new(0x2000));
    assert_eq!(mapped.size(), 0x3000);
    assert_eq!(mapped.bar_offset(0x10), Ok(0x2010));
    assert!(mapped.bar_offset(0x3000).is_err());
    assert_eq!(access.release(), Ok(mapped));
    assert!(access.release().is_err());
    assert!(validate_pfns(&[]).is_err());
    assert!(validate_pfns(&[Pfn::new(1)]).is_ok());
}

#[test]
fn bar1_maps_cover_partial_pages() {
    let region = VramRegion { address: 0x1800, size: 0x1000 };
    let plan = Bar1Plan::new(region).unwrap();
    assert_eq!(plan.pfns, vec![Pfn::new(1), Pfn::new(2)]);
    assert_eq!(plan.page_bias, 0x800);
    assert_eq!(plan.logical_size, 0x1000);
    let map = Bar1Map {
        mapped: MappedRange { vfn_start: Vfn::new(4), num_pages: 2 },
        region,
        page_bias: plan.page_bias,
        logical_size: plan.logical_size,
        bar1_size: 0x10000,
    };
    assert_eq!(map.bar_offset(0, 4), Ok(0x4800));
    assert_eq!(map.bar_offset(0xffc, 4), Ok(0x57fc));
    assert!(map.bar_offset(0xffd, 4).is_err());
    assert_eq!(map.gpu_va_addr(), Ok(0x4800));
}

#[test]
fn page_table_entries_give_their_frames() {
    let pte = ver2::Pte::new_vram(Pfn::new(0x1234), true);
    assert!(pte.is_valid());
    assert_eq!(pte.aperture(), AperturePte::VideoMemory);
    assert_eq!(pte.frame_number(), Pfn::new(0x1234));
    assert!(!ver2::Pte::invalid().is_valid());
    let pde = ver2::Pde::new_vram(Pfn::new(0x55));
    assert!(pde.is_valid_vram());
    assert_eq!(pde.table_vram_address(), VramAddress::new(0x55000));
    let dual = ver2::DualPde::new_small(Pfn::new(0x66));
    assert!(dual.has_small() && !dual.has_big());

    let pte = ver3::Pte::new_vram(Pfn::new(0x4321), false);
    assert!(pte.is_valid());
    assert_eq!(pte.frame_number(), Pfn::new(0x4321));
    let pde = ver3::Pde::new_vram(Pfn::new(0x77));
    assert_eq!(pde.aperture(), AperturePde::VideoMemory);
    assert_eq!(pde.table_vram_address(), VramAddress::new(0x77000));
    let dual = ver3::DualPde::new_small(Pfn::new(0x88));
    assert!(dual.has_small() && !dual.has_big());
    assert!(ver3::DualPdeBig::new_vram(VramAddress::new(0x100)).is_ok());
    assert!(ver3::DualPdeBig::new_vram(VramAddress::new(0x101)).is_err());
    assert_eq!(AperturePte::from_bits(2).into_bits(), 2);
}

#[test]
fn walk_reads_one_entry_per_level() {
    let mut walk = PtWalk::new(VramAddress::new(0x1000), MmuVersion::V2, vec![0, 1, 2, 0, 5]);
    let mut tables = vec![0x2000u64, 0x3000, 0x4000, 0x5000];
    let mut reads = 0;
    let mut pte_table = None;
    while pte_table.is_none() {
        match walk.action() {
            WalkAction::Read { .. } | WalkAction::ReadDual { .. } => {
                let word = ver2::Pde::new_vram(Pfn::new(tables.remove(0) >> 12)).raw_u64();
                assert_eq!(walk.on_word(word), WalkStep::Descended);
                reads += 1;
            }
            WalkAction::Done { pte_table: table } => pte_table = Some(table),
        }
    }
    assert_eq!(reads, MmuVersion::V2.pde_levels());
    assert_eq!(pte_table, Some(VramAddress::new(0x5000)));
    let pte_addr = walk.pte_addr();
    assert_eq!(pte_addr, VramAddress::new(0x5028));
    let pte = ver2::Pte::new_vram(Pfn::new(9), true);
    assert_eq!(
        walk.on_pte(pte_addr, pte.raw_u64()),
        WalkResult::Mapped { pte_addr, pfn: Pfn::new(9) }
    );
    assert_eq!(walk.on_pte(pte_addr, 0), WalkResult::Unmapped { pte_addr });
}

#[test]
fn walk_stops_where_a_table_is_missing() {
    let mut walk = PtWalk::new(VramAddress::new(0x1000), MmuVersion::V3, vec![1, 0, 0, 0, 0, 0]);
    assert_eq!(walk.action(), WalkAction::Read { addr: VramAddress::new(0x1008) });
    assert_eq!(
        walk.on_word(0),
        WalkStep::Missing(WalkPdeResult::Missing {
            install_addr: VramAddress::new(0x1008),
            level: PageTableLevel::Pdb,
        })
    );
    walk.resume(VramAddress::new(0x9000));
    assert_eq!(walk.action(), WalkAction::Read { addr: VramAddress::new(0x9000) });
}

#[test]
fn both_words_of_a_dual_entry_are_read() {
    let mut walk = PtWalk::new(VramAddress::new(0x1000), MmuVersion::V2, vec![0, 0, 0, 3, 0]);
    for table in [0x2000, 0x3000, 0x4000] {
        walk.on_word(ver2::Pde::new_vram(Pfn::new(table >> 12)).raw_u64());
    }
    assert_eq!(
        walk.action(),
        WalkAction::ReadDual { big: VramAddress::new(0x4030), small: VramAddress::new(0x4038) }
    );
}

#[test]
fn frame_numbers_convert_both_ways() {
    assert_eq!(u64::from(Pfn::from(0x1234u64)), 0x1234);
    assert_eq!(u64::from(Vfn::from(0x5678u64)), 0x5678);
    let pfn = Pfn::new(0x12);
    assert_eq!(VramAddress::from(pfn).raw(), 0x12000);
    assert_eq!(Pfn::from(VramAddress::from(pfn)), pfn);
    assert_eq!(VramAddress::from(Pfn::from(VramAddress::new(0x12fff))).raw(), 0x12000);
    let vfn = Vfn::new(0x34);
    assert_eq!(Vfn::from(VirtualAddress::from(vfn)), vfn);
}

#[test]
fn entries_have_to_have_addresses() {
    let at = |below: u64| VramAddress::new(u64::MAX - below);
    let version = MmuVersion::V2;
    assert!(entry_has_address(version, at(0), PageTableLevel::Pdb, 0));
    assert!(!entry_has_address(version, at(0), PageTableLevel::Pdb, 1));
    assert!(entry_has_address(version, at(8), PageTableLevel::Pdb, 1));
    assert!(entry_has_address(version, at(24), PageTableLevel::L3, 1));
    assert!(!entry_has_address(version, at(23), PageTableLevel::L3, 1));
    let walk = PtWalk::new(at(8), version, vec![1, 2, 0, 0, 0]);
    assert_eq!(walk.action(), WalkAction::Read { addr: at(0) });
    assert!(walk.accepts(at(16)));
    assert!(!walk.accepts(at(15)));
}
