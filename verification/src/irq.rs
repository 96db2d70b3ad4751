//! GPU interrupt support.
//!
//! GIN, the GPU Interrupt and Notification unit, is the GPU's interrupt controller: a two-level tree
//! of pending and enable registers, one tree per PCIe function.

pub mod doorbell_test;
pub mod gsp;
pub mod hal;
pub mod interrupt_tree;
pub mod regs;

use vstd::prelude::*;

use crate::error::Error;
use crate::gpu::Chipset;
use crate::irq::hal::{hal_of, pf_cpu_interrupt_hal, IrqType, PciIrqRearmMethod};
use crate::irq::interrupt_tree::{subtrees_below, LeafCount, Subtree, SubtreeSet};
use crate::irq::regs::{
    RegWrite, NV_VIRTUAL_FUNCTION_PRIV_CPU_INTR_LEAF,
    NV_VIRTUAL_FUNCTION_PRIV_CPU_INTR_LEAF_EN_CLEAR,
};

verus! {

/// The message-signaled interrupt type a vector allocation obtained.
///
/// MSI-X or MSI is allocated and nothing else, so the level-triggered INTx has no variant here.
#[derive(Clone, Copy, Debug, PartialEq, Eq, Structural)]
pub enum MsiType {
    /// One message, which every subtree raises.
    Msi,
    /// One table entry per subtree.
    MsiX,
}

/// The PCI interrupt vectors allocated for the subtrees that are serviced.
///
/// Which entry a subtree arrives on follows from [`MsiType`]: MSI-X gives subtree `N` its own table
/// entry `N`, and MSI has one message that every subtree raises, so all of them arrive on entry 0.
#[derive(Clone, Copy, Debug, PartialEq, Eq, Structural)]
pub struct SubtreeVectors {
    /// Every subtree that is serviced.
    pub serviced: SubtreeSet,
    pub msi_type: MsiType,
}

/// The interrupt tree of a chipset, as the allocated vectors deliver it.
#[derive(Clone, Copy, Debug, PartialEq, Eq, Structural)]
pub struct Tree {
    pub leaves: LeafCount,
    pub serviced: SubtreeSet,
    pub rearm: PciIrqRearmMethod,
}

/// The writes that disable every vector of the first `count` leaves.
pub open spec fn disable_writes(count: nat) -> Seq<RegWrite> {
    Seq::new(
        count,
        |leaf: int|
            RegWrite {
                offset: (NV_VIRTUAL_FUNCTION_PRIV_CPU_INTR_LEAF_EN_CLEAR + 4 * leaf) as u32,
                value: u32::MAX,
            },
    )
}

/// The writes that clear every pending bit of the first `count` leaves.
pub open spec fn drain_writes(count: nat) -> Seq<RegWrite> {
    Seq::new(
        count,
        |leaf: int|
            RegWrite {
                offset: (NV_VIRTUAL_FUNCTION_PRIV_CPU_INTR_LEAF + 4 * leaf) as u32,
                value: u32::MAX,
            },
    )
}

impl Tree {
    /// The tree of a chipset, if it implements every serviced subtree.
    pub open spec fn of(chipset: Chipset, vectors: SubtreeVectors) -> Result<Tree, Error> {
        let hal = hal_of(chipset.arch());
        let all = hal.spec_leaf_count().spec_subtree_set();
        if vectors.serviced.raw & all.raw != vectors.serviced.raw {
            Err(Error::EINVAL)
        } else {
            Ok(
                Tree {
                    leaves: hal.spec_leaf_count(),
                    serviced: vectors.serviced,
                    rearm: hal.spec_rearm_method(
                        match vectors.msi_type {
                            MsiType::Msi => IrqType::Msi,
                            MsiType::MsiX => IrqType::MsiX,
                        },
                    ).unwrap(),
                },
            )
        }
    }

    /// Returns the tree of `chipset` that `vectors` deliver. Fails if this architecture does not
    /// implement a subtree these vectors service.
    pub fn new(chipset: Chipset, vectors: &SubtreeVectors) -> (tree: Result<Self, Error>)
        ensures
            tree == Tree::of(chipset, *vectors),
    {
        let hal = pf_cpu_interrupt_hal(chipset);
        let leaves = hal.leaf_count();
        let implemented = vectors.serviced.intersection(leaves.subtree_set());
        if implemented.raw != vectors.serviced.raw {
            return Err(Error::EINVAL);
        }
        let irq_type = match vectors.msi_type {
            MsiType::Msi => IrqType::Msi,
            MsiType::MsiX => IrqType::MsiX,
        };
        match hal.pci_irq_rearm_method(irq_type) {
            Some(rearm) => Ok(Tree { leaves, serviced: vectors.serviced, rearm }),
            None => Err(Error::EINVAL),
        }
    }

    /// The writes that rearm delivery for a handler that serves `subtree`.
    pub open spec fn spec_rearm_writes(self, subtree: Subtree) -> Seq<RegWrite> {
        match self.rearm {
            PciIrqRearmMethod::TopEnableCycleArmed => self.rearm.writes(self.serviced.raw),
            _ => self.rearm.writes(subtree.spec_raw()),
        }
    }

    /// Returns the writes that rearm PCI interrupt delivery for a handler that serves `subtree`.
    pub fn rearm_pci_irq(&self, subtree: Subtree) -> (writes: Vec<RegWrite>)
        ensures
            writes@ == self.spec_rearm_writes(subtree),
    {
        match self.rearm {
            PciIrqRearmMethod::TopEnableCycleArmed => self.rearm.rearm(self.serviced.raw),
            _ => self.rearm.rearm(subtree.into_raw()),
        }
    }

    /// Returns the writes that disable every vector of every leaf.
    pub fn disable_all_leaves(&self) -> (writes: Vec<RegWrite>)
        ensures
            writes@ == disable_writes(self.leaves.count() as nat),
    {
        let count: u32 = self.leaves.into_u32();
        let mut writes: Vec<RegWrite> = Vec::new();
        let mut leaf: u32 = 0;
        while leaf < count
            invariant
                leaf <= count <= 16,
                writes@ == disable_writes(leaf as nat),
            decreases count - leaf,
        {
            writes.push(
                RegWrite {
                    offset: NV_VIRTUAL_FUNCTION_PRIV_CPU_INTR_LEAF_EN_CLEAR + 4 * leaf,
                    value: u32::MAX,
                },
            );
            leaf = leaf + 1;
            assert(writes@ =~= disable_writes(leaf as nat));
        }
        writes
    }

    /// Returns the writes that clear every pending bit of every leaf.
    pub fn drain(&self) -> (writes: Vec<RegWrite>)
        ensures
            writes@ == drain_writes(self.leaves.count() as nat),
    {
        let count: u32 = self.leaves.into_u32();
        let mut writes: Vec<RegWrite> = Vec::new();
        let mut leaf: u32 = 0;
        while leaf < count
            invariant
                leaf <= count <= 16,
                writes@ == drain_writes(leaf as nat),
            decreases count - leaf,
        {
            writes.push(
                RegWrite {
                    offset: NV_VIRTUAL_FUNCTION_PRIV_CPU_INTR_LEAF + 4 * leaf,
                    value: u32::MAX,
                },
            );
            leaf = leaf + 1;
            assert(writes@ =~= drain_writes(leaf as nat));
        }
        writes
    }

    /// The rearm writes of each of the subtrees.
    pub open spec fn rearm_all(self, subtrees: Seq<Subtree>) -> Seq<RegWrite>
        decreases subtrees.len(),
    {
        if subtrees.len() == 0 {
            seq![]
        } else {
            self.rearm_all(subtrees.drop_last()) + self.spec_rearm_writes(subtrees.last())
        }
    }
}

impl SubtreeVectors {
    /// The writes of a reset of the tree.
    pub open spec fn reset_writes(self, tree: Tree) -> Seq<RegWrite> {
        disable_writes(tree.leaves.count() as nat) + drain_writes(tree.leaves.count() as nat)
            + tree.rearm_all(subtrees_below(self.serviced, 32))
    }

    /// Returns the writes that reset the interrupt tree these vectors deliver.
    ///
    /// They clear every leaf enable and every pending bit, then rearm PCI interrupt delivery. No
    /// vector is enabled at its leaf afterwards, so the tree delivers nothing. Whether the serviced
    /// subtrees are left enabled at `TOP` depends on the rearm method.
    ///
    /// Call this only during probe. It must not run concurrently with an interrupt handler.
    pub fn reset_tree(&self, chipset: Chipset) -> (writes: Result<Vec<RegWrite>, Error>)
        ensures
            match (writes, Tree::of(chipset, *self)) {
                (Ok(writes), Ok(tree)) => writes@ == self.reset_writes(tree),
                (Err(error), Err(expected)) => error == expected,
                _ => false,
            },
    {
        let tree = match Tree::new(chipset, self) {
            Ok(tree) => tree,
            Err(error) => {
                return Err(error);
            },
        };
        let mut writes = tree.disable_all_leaves();
        let mut drained = tree.drain();
        writes.append(&mut drained);
        let ghost before = writes@;
        let subtrees = self.serviced.subtrees();
        let mut i: usize = 0;
        assert(subtrees@.take(0) =~= seq![]);
        assert(before + tree.rearm_all(subtrees@.take(0)) =~= before);
        while i < subtrees.len()
            invariant
                i <= subtrees@.len(),
                subtrees@ == subtrees_below(self.serviced, 32),
                writes@ == before + tree.rearm_all(subtrees@.take(i as int)),
            decreases subtrees@.len() - i,
        {
            proof {
                interrupt_tree::law_subtrees_of_set(self.serviced, 32);
                let next = subtrees@.take(i + 1);
                assert(next.drop_last() =~= subtrees@.take(i as int));
                assert(next.last() == subtrees@[i as int]);
            }
            let mut rearm = tree.rearm_pci_irq(subtrees[i]);
            writes.append(&mut rearm);
            i = i + 1;
            assert(writes@ =~= before + tree.rearm_all(subtrees@.take(i as int)));
        }
        assert(subtrees@.take(i as int) =~= subtrees@);
        Ok(writes)
    }

    /// Returns the entry of the vector that delivers `subtree`. Fails if `subtree` is not serviced.
    pub fn request_for(&self, subtree: Subtree) -> (entry: Result<usize, Error>)
        ensures
            entry == if !self.serviced.has(subtree.spec_index()) {
                Err::<usize, Error>(Error::EINVAL)
            } else {
                match self.msi_type {
                    MsiType::MsiX => Ok(subtree.spec_index() as usize),
                    MsiType::Msi => Ok(0),
                }
            },
    {
        if !self.serviced.contains(subtree) {
            return Err(Error::EINVAL);
        }
        match self.msi_type {
            MsiType::MsiX => Ok(subtree.index() as usize),
            MsiType::Msi => Ok(0),
        }
    }
}

/// Returns the number of MSI-X entries to ask for: one per subtree up to the highest one in
/// `serviced`. Fails if `serviced` is empty.
pub fn msix_entries(serviced: SubtreeSet) -> (entries: Result<u32, Error>)
    ensures
        match entries {
            Ok(entries) => serviced.raw != 0 && serviced.spans(entries),
            Err(error) => serviced.raw == 0 && error == Error::EINVAL,
        },
{
    if serviced.is_empty() {
        return Err(Error::EINVAL);
    }
    Ok(serviced.span())
}

/// Returns the vectors that were allocated. `msix` is the outcome of the request for MSI-X, which is
/// made for as many entries as [`msix_entries`] returns, and `msi` that of the request for a single
/// MSI, which is made where the first one failed and serves the whole tree.
///
/// Fails if `serviced` is empty, in which case nothing is requested. Otherwise fails with the error of
/// the request for MSI, when neither type can be allocated.
pub fn alloc_vectors(serviced: SubtreeSet, msix: Result<(), Error>, msi: Result<(), Error>) -> (
vectors: Result<SubtreeVectors, Error>)
    ensures
        vectors == if serviced.raw == 0 {
            Err::<SubtreeVectors, Error>(Error::EINVAL)
        } else {
            match (msix, msi) {
                (Ok(_), _) => Ok((SubtreeVectors { serviced, msi_type: MsiType::MsiX })),
                (Err(_), Ok(_)) => Ok((SubtreeVectors { serviced, msi_type: MsiType::Msi })),
                (Err(_), Err(error)) => Err(error),
            }
        },
{
    if serviced.is_empty() {
        return Err(Error::EINVAL);
    }
    match msix {
        Ok(_) => Ok(SubtreeVectors { serviced, msi_type: MsiType::MsiX }),
        Err(_) => match msi {
            Ok(_) => Ok(SubtreeVectors { serviced, msi_type: MsiType::Msi }),
            Err(error) => Err(error),
        },
    }
}

/// A step of setting up or tearing down an interrupt handler.
#[derive(Clone, Copy, Debug, PartialEq, Eq, Structural)]
pub enum HandlerStep {
    /// Register the handler.
    Register,
    /// Enable the vector of the handler at its leaf.
    EnableLeaf,
    /// Enable the serviced subtrees at the top.
    EnableTop,
    /// Disable the vector of the handler at its leaf, which stops new deliveries.
    DisableLeaf,
    /// Free the handler, which waits out one that is still in flight.
    Free,
    /// Disable the serviced subtrees at the top. A handler that was late could rearm them.
    DisableTop,
    /// Free the vectors.
    FreeVectors,
}

/// The order in which a handler is torn down.
pub open spec fn handler_teardown_steps() -> Seq<HandlerStep> {
    seq![HandlerStep::DisableLeaf, HandlerStep::Free, HandlerStep::DisableTop]
}

/// Returns the steps that tear a handler down, in the order in which they have to be made.
pub fn handler_teardown() -> (steps: Vec<HandlerStep>)
    ensures
        steps@ == handler_teardown_steps(),
{
    let steps = vec![HandlerStep::DisableLeaf, HandlerStep::Free, HandlerStep::DisableTop];
    assert(steps@ =~= handler_teardown_steps());
    steps
}

/// Whether `first` is made before `second`, where both are made.
pub open spec fn made_before(
    steps: Seq<HandlerStep>,
    first: HandlerStep,
    second: HandlerStep,
) -> bool {
    forall|i: int, j: int|
        0 <= i < steps.len() && 0 <= j < steps.len() && #[trigger] steps[i] == first
            && #[trigger] steps[j] == second ==> i < j
}

/// Every serviced subtree has an entry among those that were asked for.
pub proof fn law_serviced_subtree_has_entry(serviced: SubtreeSet, entries: u32, index: u32)
    requires
        serviced.spans(entries),
        index < 32,
        serviced.has(index),
    ensures
        index < entries,
{
    if index >= entries {
        vstd::arithmetic::power2::lemma2_to64();
        lemma_bit_value(serviced.raw, index);
        vstd::bits::lemma_u64_shl_is_mul(1, index as u64);
        vstd::arithmetic::power2::lemma_pow2_strictly_increases(index as nat, 64);
        if entries < index {
            vstd::arithmetic::power2::lemma_pow2_strictly_increases(entries as nat, index as nat);
        }
    }
}

/// A number with a bit set is at least as large as that bit.
proof fn lemma_bit_value(raw: u32, index: u32)
    by (bit_vector)
    requires
        index < 32,
        crate::bits::bit32(raw, index as u64),
    ensures
        (1u64 << (index as u64)) <= raw as u64,
{
}

/// Disabling and draining write all ones to the register of each leaf in turn, four bytes apart: from
/// `0xb81400` on to disable and from `0xb81000` on to drain.
pub proof fn law_leaf_writes(count: nat, leaf: int)
    requires
        0 <= leaf < count <= 16,
    ensures
        disable_writes(count).len() == count,
        disable_writes(count)[leaf].offset == 0x00b8_1400 + 4 * leaf,
        disable_writes(count)[leaf].value == 0xffff_ffff,
        drain_writes(count).len() == count,
        drain_writes(count)[leaf].offset == 0x00b8_1000 + 4 * leaf,
        drain_writes(count)[leaf].value == 0xffff_ffff,
{
}

/// Which trees there are: up to Ada only the four lowest subtrees can be serviced, from Hopper on the
/// eight lowest. The tree services what the vectors do, and MSI-X is rearmed one subtree at a time.
pub proof fn law_tree_of_vectors(chipset: Chipset, vectors: SubtreeVectors)
    ensures
        ({
            let old = chipset.code() / 16 == 0x16 || chipset.code() / 16 == 0x17 || chipset.code()
                / 16 == 0x19;
            match Tree::of(chipset, vectors) {
                Ok(tree) => {
                    &&& tree.serviced == vectors.serviced
                    &&& vectors.serviced.raw < if old {
                        16int
                    } else {
                        256
                    }
                    &&& tree.leaves == if old {
                        LeafCount::Eight
                    } else {
                        LeafCount::Sixteen
                    }
                    &&& tree.rearm == if vectors.msi_type == MsiType::MsiX {
                        PciIrqRearmMethod::TopEnableCycleSubtree
                    } else if old {
                        PciIrqRearmMethod::ConfigMirrorEoi
                    } else {
                        PciIrqRearmMethod::TopEnableCycleArmed
                    }
                },
                Err(error) => error == Error::EINVAL && vectors.serviced.raw >= if old {
                    16int
                } else {
                    256
                },
            }
        }),
{
    lemma_low_sets(vectors.serviced.raw);
}

/// The sets of low subtrees are the small numbers.
proof fn lemma_low_sets(raw: u32)
    by (bit_vector)
    ensures
        raw & 0x0f == raw <==> raw < 16,
        raw & 0xff == raw <==> raw < 256,
{
}

/// Rearming for a handler: where each subtree has its own entry the subtree of the handler is cycled,
/// where one message serves all of them every serviced subtree is.
pub proof fn law_rearm_of_handler(tree: Tree, subtree: Subtree)
    ensures
        tree.rearm == PciIrqRearmMethod::TopEnableCycleSubtree ==> tree.spec_rearm_writes(subtree)
            =~= seq![
            RegWrite { offset: 0x00b8_1610, value: subtree.spec_raw() },
            RegWrite { offset: 0x00b8_1608, value: subtree.spec_raw() },
        ],
        tree.rearm == PciIrqRearmMethod::TopEnableCycleArmed ==> tree.spec_rearm_writes(subtree)
            =~= seq![
            RegWrite { offset: 0x00b8_1610, value: tree.serviced.raw },
            RegWrite { offset: 0x00b8_1608, value: tree.serviced.raw },
        ],
        tree.rearm == PciIrqRearmMethod::ConfigMirrorEoi ==> tree.spec_rearm_writes(subtree)
            =~= seq![RegWrite { offset: 0x0008_8704, value: 0 }],
{
    hal::law_rearm_writes(subtree.spec_raw());
    hal::law_rearm_writes(tree.serviced.raw);
}

/// A reset disables every leaf, then drains every leaf, and then rearms delivery for each serviced
/// subtree in turn.
pub proof fn law_reset_order(vectors: SubtreeVectors, tree: Tree, leaf: int)
    requires
        0 <= leaf < tree.leaves.count(),
    ensures
        ({
            let writes = vectors.reset_writes(tree);
            let count = tree.leaves.count() as int;
            &&& writes[leaf].offset == 0x00b8_1400 + 4 * leaf && writes[leaf].value == 0xffff_ffff
            &&& writes[count + leaf].offset == 0x00b8_1000 + 4 * leaf && writes[count + leaf].value
                == 0xffff_ffff
            &&& writes.skip(2 * count) =~= tree.rearm_all(subtrees_below(vectors.serviced, 32))
        }),
{
    let count = tree.leaves.count() as nat;
    law_leaf_writes(count, leaf);
}

/// The rearm writes of some subtrees are those of the ones before the last, then those of the last.
pub proof fn law_rearm_of_each(tree: Tree, subtrees: Seq<Subtree>, last: Subtree)
    ensures
        tree.rearm_all(Seq::empty()) =~= Seq::<RegWrite>::empty(),
        tree.rearm_all(subtrees.push(last)) =~= tree.rearm_all(subtrees) + tree.spec_rearm_writes(
            last,
        ),
{
    assert(subtrees.push(last).drop_last() =~= subtrees);
}

/// Tearing a handler down takes three steps, and each of them is made.
pub proof fn law_teardown_makes_each_step()
    ensures
        handler_teardown_steps().len() == 3,
        handler_teardown_steps()[0] == HandlerStep::DisableLeaf,
        handler_teardown_steps()[1] == HandlerStep::Free,
        handler_teardown_steps()[2] == HandlerStep::DisableTop,
{
}

} // verus!
