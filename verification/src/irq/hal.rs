//! Per-architecture properties of the GIN PF CPU interrupt tree.

use vstd::prelude::*;

use crate::gpu::{Architecture, Chipset};
use crate::irq::interrupt_tree::LeafCount;
use crate::irq::regs::{
    RegWrite, NV_VIRTUAL_FUNCTION_PRIV_CPU_INTR_TOP_EN_CLEAR,
    NV_VIRTUAL_FUNCTION_PRIV_CPU_INTR_TOP_EN_SET, NV_XVE_CYA_2,
};

verus! {

/// The kinds of PCI interrupts.
#[derive(Clone, Copy, Debug, PartialEq, Eq, Structural)]
pub enum IrqType {
    /// Level-triggered.
    Intx,
    /// One message.
    Msi,
    /// A table of messages.
    MsiX,
}

/// Register write that restores PCI interrupt delivery to the CPU.
///
/// A message-signaled interrupt is delivered on an edge, and the edge that delivered one interrupt
/// does not deliver the next. Delivery resumes only once the method named here has been performed,
/// so a handler that skips it receives no further interrupts.
#[derive(Clone, Copy, Debug, PartialEq, Eq, Structural)]
pub enum PciIrqRearmMethod {
    /// The MSI end-of-interrupt register in the BAR0 PCI configuration-space mirror, used by MSI on
    /// pre-Hopper GPUs.
    ConfigMirrorEoi,
    /// A clear followed by a set of the `TOP` enable bits of every armed subtree, which produces the
    /// enable edge that delivers the next interrupt.
    ///
    /// MSI has a single message that every subtree raises, so one handler serves the whole tree and
    /// its rearm covers every subtree that is armed.
    TopEnableCycleArmed,
    /// The same enable cycle, restricted to the one subtree the handler serves.
    ///
    /// MSI-X raises a separate table entry per subtree, and each armed subtree has its own entry and
    /// its own handler, so a rearm covers the caller's subtree alone.
    TopEnableCycleSubtree,
}

impl PciIrqRearmMethod {
    /// The register writes of this method.
    pub open spec fn writes(self, subtrees: u32) -> Seq<RegWrite> {
        match self {
            PciIrqRearmMethod::ConfigMirrorEoi => seq![RegWrite { offset: NV_XVE_CYA_2, value: 0 }],
            _ => seq![
                RegWrite {
                    offset: NV_VIRTUAL_FUNCTION_PRIV_CPU_INTR_TOP_EN_CLEAR,
                    value: subtrees,
                },
                RegWrite { offset: NV_VIRTUAL_FUNCTION_PRIV_CPU_INTR_TOP_EN_SET, value: subtrees },
            ],
        }
    }

    /// Returns this method's register writes, in order.
    ///
    /// `subtrees` is the set of `TOP` bits to cycle, which the caller matches to this method: every
    /// armed subtree for [`Self::TopEnableCycleArmed`], and the bit of the subtree the caller serves
    /// for [`Self::TopEnableCycleSubtree`]. [`Self::ConfigMirrorEoi`] ignores it.
    pub fn rearm(self, subtrees: u32) -> (writes: Vec<RegWrite>)
        ensures
            writes@ == self.writes(subtrees),
    {
        match self {
            // The written value is ignored, so any write rearms delivery.
            PciIrqRearmMethod::ConfigMirrorEoi => {
                let writes = vec![RegWrite { offset: NV_XVE_CYA_2, value: 0 }];
                assert(writes@ =~= self.writes(subtrees));
                writes
            },
            PciIrqRearmMethod::TopEnableCycleArmed
            | PciIrqRearmMethod::TopEnableCycleSubtree => {
                let writes = vec![
                    RegWrite {
                        offset: NV_VIRTUAL_FUNCTION_PRIV_CPU_INTR_TOP_EN_CLEAR,
                        value: subtrees,
                    },
                    RegWrite {
                        offset: NV_VIRTUAL_FUNCTION_PRIV_CPU_INTR_TOP_EN_SET,
                        value: subtrees,
                    },
                ];
                assert(writes@ =~= self.writes(subtrees));
                writes
            },
        }
    }
}

/// Per-architecture properties of the GIN PF CPU interrupt tree.
///
/// The tree walk, vector encoding, and acknowledge sequence are identical across GPU architectures
/// and live in generic code. The size of the tree and the method that rearms PCI interrupt delivery
/// differ by family, and are provided here.
#[derive(Clone, Copy, Debug, PartialEq, Eq, Structural)]
pub enum PfCpuInterruptHal {
    /// Turing, Ampere, and Ada, which have an 8-leaf PF CPU tree.
    Tu102,
    /// Hopper and Blackwell, which implement a 16-leaf PF CPU tree. Only 12 leaves are currently
    /// used, but arming the unused subtrees is harmless because they read back zero.
    Gh100,
}

impl PfCpuInterruptHal {
    /// The number of leaves.
    pub open spec fn spec_leaf_count(self) -> LeafCount {
        match self {
            PfCpuInterruptHal::Tu102 => LeafCount::Eight,
            PfCpuInterruptHal::Gh100 => LeafCount::Sixteen,
        }
    }

    /// Returns the number of implemented interrupt leaves in the PF CPU tree.
    pub fn leaf_count(&self) -> (leaves: LeafCount)
        ensures
            leaves == self.spec_leaf_count(),
    {
        match self {
            PfCpuInterruptHal::Tu102 => LeafCount::Eight,
            PfCpuInterruptHal::Gh100 => LeafCount::Sixteen,
        }
    }

    /// Returns the number of implemented interrupt leaves in the PF CPU tree.
    ///
    /// Each leaf is a 32-bit register, so the tree exposes `num_leaves * 32` vectors. Pre-Hopper
    /// parts have 8 leaves, and Hopper and later implement 16.
    pub fn num_leaves(&self) -> (leaves: usize)
        ensures
            leaves == self.spec_leaf_count().count(),
    {
        self.leaf_count().into_raw()
    }

    /// Returns the mask of subtree bits this architecture implements.
    ///
    /// Each `TOP` bit covers two adjacent leaves, so the tree has `num_leaves / 2` subtrees, and the
    /// returned mask has one bit set for each. It bounds the bits that are meaningful in
    /// `TOP_EN_SET` and `TOP_EN_CLEAR`.
    pub fn subtree_mask(&self) -> (mask: u32)
        ensures
            mask == self.spec_leaf_count().spec_subtree_set().raw,
    {
        self.leaf_count().subtree_set().raw
    }

    /// The method that rearms PCI interrupt delivery for `irq_type`.
    pub open spec fn spec_rearm_method(self, irq_type: IrqType) -> Option<PciIrqRearmMethod> {
        match irq_type {
            IrqType::Intx => None,
            IrqType::MsiX => Some(PciIrqRearmMethod::TopEnableCycleSubtree),
            IrqType::Msi => match self {
                PfCpuInterruptHal::Tu102 => Some(PciIrqRearmMethod::ConfigMirrorEoi),
                PfCpuInterruptHal::Gh100 => Some(PciIrqRearmMethod::TopEnableCycleArmed),
            },
        }
    }

    /// Returns the method that rearms PCI interrupt delivery for `irq_type`.
    ///
    /// `None` means that `irq_type` needs no rearm write. That is the case for `INTx`, which is
    /// level-triggered, and which is never allocated.
    pub fn pci_irq_rearm_method(&self, irq_type: IrqType) -> (method: Option<PciIrqRearmMethod>)
        ensures
            method == self.spec_rearm_method(irq_type),
    {
        match irq_type {
            IrqType::Intx => None,
            IrqType::MsiX => Some(PciIrqRearmMethod::TopEnableCycleSubtree),
            IrqType::Msi => match self {
                PfCpuInterruptHal::Tu102 => Some(PciIrqRearmMethod::ConfigMirrorEoi),
                PfCpuInterruptHal::Gh100 => Some(PciIrqRearmMethod::TopEnableCycleArmed),
            },
        }
    }
}

/// The [`PfCpuInterruptHal`] of a generation.
pub open spec fn hal_of(arch: Architecture) -> PfCpuInterruptHal {
    match arch {
        Architecture::Turing | Architecture::Ampere | Architecture::Ada => {
            PfCpuInterruptHal::Tu102
        },
        _ => PfCpuInterruptHal::Gh100,
    }
}

/// Returns the [`PfCpuInterruptHal`] for `chipset`.
pub fn pf_cpu_interrupt_hal(chipset: Chipset) -> (hal: PfCpuInterruptHal)
    ensures
        hal == hal_of(chipset.arch()),
{
    match chipset.arch() {
        Architecture::Turing | Architecture::Ampere | Architecture::Ada => {
            PfCpuInterruptHal::Tu102
        },
        Architecture::Hopper | Architecture::BlackwellGB10x | Architecture::BlackwellGB20x => {
            PfCpuInterruptHal::Gh100
        },
    }
}

/// Rearming writes the end-of-interrupt register once, or clears the given subtrees at the top and then
/// sets them again.
pub proof fn law_rearm_writes(subtrees: u32)
    ensures
        PciIrqRearmMethod::ConfigMirrorEoi.writes(subtrees) =~= seq![
            RegWrite { offset: 0x0008_8704, value: 0 },
        ],
        PciIrqRearmMethod::TopEnableCycleArmed.writes(subtrees) =~= seq![
            RegWrite { offset: 0x00b8_1610, value: subtrees },
            RegWrite { offset: 0x00b8_1608, value: subtrees },
        ],
        PciIrqRearmMethod::TopEnableCycleSubtree.writes(subtrees) =~= seq![
            RegWrite { offset: 0x00b8_1610, value: subtrees },
            RegWrite { offset: 0x00b8_1608, value: subtrees },
        ],
{
}

/// Up to Ada the tree has eight leaves and MSI is rearmed through the config mirror. From Hopper on
/// it has sixteen and MSI is rearmed by cycling all armed subtrees. MSI-X is rearmed by cycling the one
/// subtree everywhere, and INTx never.
pub proof fn law_interrupt_hal(arch: Architecture, irq_type: IrqType)
    ensures
        ({
            let old = arch == Architecture::Turing || arch == Architecture::Ampere || arch
                == Architecture::Ada;
            let hal = hal_of(arch);
            &&& old ==> hal.spec_leaf_count() == LeafCount::Eight
            &&& !old ==> hal.spec_leaf_count() == LeafCount::Sixteen
            &&& hal.spec_rearm_method(IrqType::Intx) is None
            &&& hal.spec_rearm_method(IrqType::MsiX) == Some(
                PciIrqRearmMethod::TopEnableCycleSubtree,
            )
            &&& old ==> hal.spec_rearm_method(IrqType::Msi) == Some(
                PciIrqRearmMethod::ConfigMirrorEoi,
            )
            &&& !old ==> hal.spec_rearm_method(IrqType::Msi) == Some(
                PciIrqRearmMethod::TopEnableCycleArmed,
            )
        }),
{
}

} // verus!
