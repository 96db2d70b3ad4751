//! Tests of the interrupt tree.

use nova_core::error::Error;
use nova_core::falcon::gsp::NV_PFALCON_FALCON_IRQSTAT;
use nova_core::gpu::Chipset;
use nova_core::irq::doorbell_test::{
    doorbell_vector, enable, prepare, Delivery, DoorbellTestHandler, Selftest, SelftestEvent, Signal,
};
use nova_core::irq::gsp::{
    gsp_irq_setup, gsp_vector, handle_threaded, quiesce, ThreadedIrqReturn, TopHalf, TopHalfAction,
};
use nova_core::irq::hal::{pf_cpu_interrupt_hal, IrqType, PciIrqRearmMethod};
use nova_core::irq::interrupt_tree::{GinVector, LeafCount, LeafMask, Subtree, SubtreeSet};
use nova_core::irq::regs::RegWrite;
use nova_core::irq::{
    alloc_vectors, handler_teardown, msix_entries, HandlerStep, MsiType, SubtreeVectors, Tree,
};

/// Pre-Hopper parts have an 8-leaf tree (4 subtrees, mask `0x0f`).
#[test]
fn pre_hopper_tree_size() {
    for chipset in [Chipset::TU102, Chipset::GA102, Chipset::AD102] {
        let hal = pf_cpu_interrupt_hal(chipset);
        assert_eq!(hal.num_leaves(), 8);
        assert_eq!(hal.subtree_mask(), 0x0f);
    }
}

/// Hopper and later implement a 16-leaf tree (8 subtrees, mask `0xff`).
#[test]
fn hopper_plus_tree_size() {
    for chipset in [Chipset::GH100, Chipset::GB100, Chipset::GB202] {
        let hal = pf_cpu_interrupt_hal(chipset);
        assert_eq!(hal.num_leaves(), 16);
        assert_eq!(hal.subtree_mask(), 0xff);
    }
}

/// The subtree mask always has exactly `num_leaves / 2` bits set, one per subtree.
#[test]
fn subtree_mask_matches_leaf_count() {
    for chipset in [
        Chipset::TU102,
        Chipset::GA102,
        Chipset::AD102,
        Chipset::GH100,
        Chipset::GB100,
        Chipset::GB202,
    ] {
        let hal = pf_cpu_interrupt_hal(chipset);
        assert_eq!(hal.subtree_mask().count_ones() as usize, hal.num_leaves() / 2);
    }
}

/// Only pre-Hopper MSI rearms through the configuration-space mirror. MSI on Hopper and later
/// cycles the `TOP` enables of every armed subtree.
#[test]
fn pci_irq_rearm_method_per_arch_and_type() {
    for chipset in [Chipset::TU102, Chipset::GA102, Chipset::AD102] {
        let hal = pf_cpu_interrupt_hal(chipset);
        assert_eq!(
            hal.pci_irq_rearm_method(IrqType::Msi),
            Some(PciIrqRearmMethod::ConfigMirrorEoi)
        );
    }

    for chipset in [Chipset::GH100, Chipset::GB100, Chipset::GB202] {
        let hal = pf_cpu_interrupt_hal(chipset);
        assert_eq!(
            hal.pci_irq_rearm_method(IrqType::Msi),
            Some(PciIrqRearmMethod::TopEnableCycleArmed)
        );
    }
}

/// MSI-X gives each subtree its own table entry, so on every architecture its rearm cycles
/// only the subtree the handler serves.
#[test]
fn msix_rearms_one_subtree_on_every_arch() {
    for chipset in [
        Chipset::TU102,
        Chipset::GA102,
        Chipset::AD102,
        Chipset::GH100,
        Chipset::GB100,
        Chipset::GB202,
    ] {
        let hal = pf_cpu_interrupt_hal(chipset);
        assert_eq!(
            hal.pci_irq_rearm_method(IrqType::MsiX),
            Some(PciIrqRearmMethod::TopEnableCycleSubtree)
        );
    }
}

/// `INTx` is level-triggered and needs no rearm write on any architecture.
#[test]
fn intx_needs_no_rearm() {
    for chipset in [
        Chipset::TU102,
        Chipset::GA102,
        Chipset::AD102,
        Chipset::GH100,
        Chipset::GB100,
        Chipset::GB202,
    ] {
        let hal = pf_cpu_interrupt_hal(chipset);
        assert_eq!(hal.pci_irq_rearm_method(IrqType::Intx), None);
    }
}

#[test]
fn vectors_have_a_place_in_the_tree() {
    let vector = GinVector::new::<155>();
    assert_eq!(vector.into_raw(), 155);
    assert_eq!(vector.leaf_index(), 4);
    assert_eq!(vector.leaf_mask(), LeafMask::from_raw(1 << 27));
    assert_eq!(vector.subtree().index(), 2);
    assert_eq!(vector.validate(LeafCount::Eight), Ok(()));
    assert!(GinVector::new::<300>().validate(LeafCount::Eight).is_err());
    assert_eq!(GinVector::new::<300>().validate(LeafCount::Sixteen), Ok(()));
    assert_eq!(gsp_vector().into_raw(), 155);
    assert_eq!(doorbell_vector().into_raw(), 129);
}

#[test]
fn subtree_sets_are_sets() {
    let set = SubtreeSet { raw: 0b101 };
    assert!(set.contains(Subtree::new(0)));
    assert!(!set.contains(Subtree::new(1)));
    assert_eq!(set.subtrees(), vec![Subtree::new(0), Subtree::new(2)]);
    assert_eq!(set.span(), 3);
    assert_eq!(SubtreeSet { raw: 0 }.span(), 0);
    assert_eq!(set.intersection(SubtreeSet::of(Subtree::new(2))).raw, 0b100);
    assert!(SubtreeSet { raw: 0 }.is_empty());
    assert_eq!(LeafCount::Sixteen.vector_count(), 512);
}

#[test]
fn reset_disables_and_drains_every_leaf() {
    let vectors = SubtreeVectors { serviced: SubtreeSet { raw: 0b100 }, msi_type: MsiType::MsiX };
    let writes = vectors.reset_tree(Chipset::GA102).unwrap();
    assert_eq!(writes.len(), 8 + 8 + 2);
    assert_eq!(writes[0], RegWrite { offset: 0xb8_1400, value: u32::MAX });
    assert_eq!(writes[15], RegWrite { offset: 0xb8_101c, value: u32::MAX });
    assert_eq!(writes[16], RegWrite { offset: 0xb8_1610, value: 0b100 });
    assert_eq!(writes[17], RegWrite { offset: 0xb8_1608, value: 0b100 });
    let tree = Tree::new(Chipset::GA102, &vectors).unwrap();
    assert_eq!(tree.rearm_pci_irq(Subtree::new(2)).len(), 2);
}

#[test]
fn vectors_fall_back_to_msi() {
    let serviced = SubtreeSet { raw: 0b100 };
    assert_eq!(msix_entries(serviced), Ok(3));
    let empty = SubtreeSet { raw: 0 };
    assert_eq!(msix_entries(empty), Err(Error::EINVAL));
    assert_eq!(alloc_vectors(empty, Err(Error::EINVAL), Ok(())), Err(Error::EINVAL));
    assert_eq!(alloc_vectors(empty, Ok(()), Ok(())), Err(Error::EINVAL));
    assert_eq!(alloc_vectors(empty, Err(Error::ENOSPC), Err(Error::ENODEV)), Err(Error::EINVAL));
    let msix = alloc_vectors(serviced, Ok(()), Ok(())).unwrap();
    assert_eq!(msix.msi_type, MsiType::MsiX);
    assert_eq!(msix.request_for(Subtree::new(2)), Ok(2));
    assert!(msix.request_for(Subtree::new(1)).is_err());
    let msi = alloc_vectors(serviced, Err(Error::ENOSPC), Ok(())).unwrap();
    assert_eq!(msi.msi_type, MsiType::Msi);
    assert_eq!(msi.request_for(Subtree::new(2)), Ok(0));
    assert_eq!(
        alloc_vectors(serviced, Err(Error::ENOSPC), Err(Error::ENODEV)),
        Err(Error::ENODEV)
    );
}

#[test]
fn gsp_interrupt_is_rearmed() {
    let (action, state) = TopHalf::start();
    assert_eq!(action, TopHalfAction::ReadLeaf);
    let (actions, done) = state.advance(0);
    assert_eq!(actions, vec![TopHalfAction::Rearm]);
    assert_eq!(done, TopHalf::Done(ThreadedIrqReturn::NotOurs));

    let (_, state) = state.advance(1 << 27);
    assert_eq!(state, TopHalf::Status);
    let (actions, done) = state.advance(1 << 6);
    assert_eq!(actions, vec![TopHalfAction::Retrigger, TopHalfAction::Rearm]);
    assert_eq!(done, TopHalf::Done(ThreadedIrqReturn::WakeThread));

    let (actions, faults) = state.advance(1 << 4);
    let status = NV_PFALCON_FALCON_IRQSTAT { raw: 1 << 4 };
    assert_eq!(actions[0], TopHalfAction::ClearFaults(status));
    assert_eq!(faults, TopHalf::Faults { status });
    let (actions, done) = faults.advance(1 << 4);
    assert_eq!(actions[0], TopHalfAction::DisableLeaf(LeafMask::from_raw(1 << 27)));
    assert_eq!(done, TopHalf::Done(ThreadedIrqReturn::Handled));
    assert_eq!(handle_threaded(Ok(())), None);
    assert_eq!(handle_threaded(Err(Error::EIO)), Some(LeafMask::from_raw(1 << 27)));
}

#[test]
fn selftest_needs_two_deliveries() {
    let mask = doorbell_vector().leaf_mask();
    let none = LeafMask::from_raw(0);
    let mut handler = DoorbellTestHandler::new();
    assert_eq!(handler.handle(none), Delivery::NotOurs);
    assert_eq!(
        handler.handle(mask),
        Delivery::Handled { clear: mask, signal: Some(Signal::First) }
    );
    assert_eq!(
        handler.handle(mask),
        Delivery::Handled { clear: mask, signal: Some(Signal::Second) }
    );
    assert_eq!(Selftest::start(), Selftest::Prepare);
    let step = Selftest::start().next(SelftestEvent::Made, &handler);
    assert_eq!(step, Selftest::ReadLeaf);
    let step = step.next(SelftestEvent::Pending(none), &handler);
    assert_eq!(step, Selftest::Enable);
    let step = step.next(SelftestEvent::Made, &handler);
    let step = step.next(SelftestEvent::Delivered(true), &handler);
    let step = step.next(SelftestEvent::Delivered(true), &handler);
    assert_eq!(step, Selftest::Quiesce { completed: true });
    assert_eq!(
        step.next(SelftestEvent::Pending(none), &handler),
        Selftest::Finished(Ok(()))
    );
    let missed = Selftest::TriggerFirst.next(SelftestEvent::Delivered(false), &handler);
    assert_eq!(missed, Selftest::Quiesce { completed: false });
}

#[test]
fn selftest_sets_up_and_tears_down_in_order() {
    let vectors = SubtreeVectors { serviced: SubtreeSet { raw: 0b100 }, msi_type: MsiType::Msi };
    let tree = Tree::new(Chipset::TU102, &vectors).unwrap();
    let writes = prepare(&tree);
    assert_eq!(writes.len(), 16);
    assert_eq!(writes[0], RegWrite { offset: 0xb8_1400, value: u32::MAX });
    assert_eq!(writes[7], RegWrite { offset: 0xb8_141c, value: u32::MAX });
    assert_eq!(writes[8], RegWrite { offset: 0xb8_1000, value: u32::MAX });
    assert_eq!(
        enable(),
        vec![HandlerStep::Register, HandlerStep::EnableLeaf, HandlerStep::EnableTop]
    );
    let all = vec![
        HandlerStep::DisableLeaf,
        HandlerStep::Free,
        HandlerStep::DisableTop,
        HandlerStep::FreeVectors,
    ];
    assert_eq!(Selftest::TriggerFirst.teardown(), all);
    assert_eq!(Selftest::TriggerSecond.teardown(), all);
    assert_eq!(Selftest::Quiesce { completed: false }.teardown(), all);
    for step in [Selftest::Prepare, Selftest::ReadLeaf, Selftest::Enable] {
        assert_eq!(step.teardown(), vec![HandlerStep::FreeVectors]);
    }
}

#[test]
fn gsp_handler_is_registered_before_it_is_enabled() {
    assert_eq!(
        gsp_irq_setup(),
        vec![HandlerStep::Register, HandlerStep::EnableTop, HandlerStep::EnableLeaf]
    );
    assert_eq!(
        handler_teardown(),
        vec![HandlerStep::DisableLeaf, HandlerStep::Free, HandlerStep::DisableTop]
    );
}

#[test]
fn quiescing_clears_the_latch_last() {
    let vectors = SubtreeVectors { serviced: SubtreeSet { raw: 0b100 }, msi_type: MsiType::Msi };
    let writes = quiesce(Chipset::GA102, &vectors).unwrap();
    let reset = vectors.reset_tree(Chipset::GA102).unwrap();
    assert_eq!(writes[..reset.len()], reset[..]);
    assert_eq!(writes[reset.len()..], [RegWrite { offset: 0x11_0004, value: 0x40 }]);
    let absent = SubtreeVectors { serviced: SubtreeSet { raw: 0x10 }, msi_type: MsiType::Msi };
    assert_eq!(quiesce(Chipset::GA102, &absent), Err(Error::EINVAL));
    assert!(quiesce(Chipset::GH100, &absent).is_ok());
}
