//! GSP event (SWGEN0) interrupt handling.
//!
//! The GSP firmware raises SWGEN0 when it has posted messages in the GSP-to-CPU queue. That signal
//! reaches the CPU as a PCI interrupt through the GIN tree. The top half services the GIN leaf and
//! the falcon's latched causes, and the IRQ thread drains the message queue.

use vstd::prelude::*;

use crate::bits::bit32;
use crate::error::Error;
use crate::falcon::gsp::{clear_swgen0_intr, swgen0_clear, NV_PFALCON_FALCON_IRQSTAT};
use crate::gpu::Chipset;
use crate::irq::interrupt_tree::{GinVector, LeafMask, Subtree};
use crate::irq::regs::RegWrite;
use crate::irq::{handler_teardown_steps, made_before, HandlerStep, SubtreeVectors, Tree};

verus! {

/// The number of the GSP SWGEN0 notification vector, pinned by GSP firmware on every supported chip.
pub const GSP_INTR_0: u32 = 155;

/// The bit of the GSP notification vector in its leaf.
pub open spec fn gsp_mask() -> LeafMask {
    LeafMask { raw: 1u32 << (GSP_INTR_0 % 32) }
}

/// Returns the GSP SWGEN0 notification vector.
pub fn gsp_vector() -> (vector: GinVector)
    ensures
        vector.spec_raw() == GSP_INTR_0,
{
    GinVector::new::<155>()
}

/// Returns the subtree carrying the GSP notification vector, and the only subtree that is serviced.
pub fn gsp_subtree() -> (subtree: Subtree)
    ensures
        subtree.spec_index() == 2,
{
    gsp_vector().subtree()
}

/// Returns the writes that clear the interrupt state that GSP boot left behind: those that reset the
/// tree `vectors` cover, and then the one that clears the falcon's SWGEN0 latch. Afterwards no vector is
/// enabled, so the tree delivers nothing.
///
/// The latch is cleared after the reset of the tree, which would otherwise erase the leaf bit that a
/// message posted in between had set.
///
/// Fails with `EINVAL` if this architecture does not implement a subtree `vectors` service.
pub fn quiesce(chipset: Chipset, vectors: &SubtreeVectors) -> (writes: Result<Vec<RegWrite>, Error>)
    ensures
        match (writes, Tree::of(chipset, *vectors)) {
            (Ok(writes), Ok(tree)) => writes@ == vectors.reset_writes(tree).push(swgen0_clear()),
            (Err(error), Err(expected)) => error == expected && error == Error::EINVAL,
            _ => false,
        },
{
    match vectors.reset_tree(chipset) {
        Ok(mut writes) => {
            writes.push(clear_swgen0_intr());
            Ok(writes)
        },
        Err(error) => Err(error),
    }
}

/// The order in which the handler of the GSP event is set up. It is registered before anything that
/// it serves is enabled. A message posted while the vector was disabled stays latched in the leaf, so
/// enabling it delivers that interrupt.
pub open spec fn gsp_irq_steps() -> Seq<HandlerStep> {
    seq![HandlerStep::Register, HandlerStep::EnableTop, HandlerStep::EnableLeaf]
}

/// Returns the steps that set up the handler of the GSP event, in order.
pub fn gsp_irq_setup() -> (steps: Vec<HandlerStep>)
    ensures
        steps@ == gsp_irq_steps(),
{
    let steps = vec![HandlerStep::Register, HandlerStep::EnableTop, HandlerStep::EnableLeaf];
    assert(steps@ =~= gsp_irq_steps());
    steps
}

/// The handler of the GSP event is registered before its vector can be delivered. When it is torn down,
/// the leaf is disabled first, the handler is freed next, and the top is disabled only after that.
pub proof fn law_gsp_handler_order()
    ensures
        made_before(gsp_irq_steps(), HandlerStep::Register, HandlerStep::EnableTop),
        made_before(gsp_irq_steps(), HandlerStep::Register, HandlerStep::EnableLeaf),
        made_before(handler_teardown_steps(), HandlerStep::DisableLeaf, HandlerStep::Free),
        made_before(handler_teardown_steps(), HandlerStep::Free, HandlerStep::DisableTop),
{
}

/// What a top half tells the interrupt core.
#[derive(Clone, Copy, Debug, PartialEq, Eq, Structural)]
pub enum ThreadedIrqReturn {
    /// The interrupt was not for this handler.
    NotOurs,
    /// The interrupt has been handled.
    Handled,
    /// The IRQ thread has to run.
    WakeThread,
}

/// Something that the top half does.
#[derive(Clone, Copy, Debug, PartialEq, Eq, Structural)]
pub enum TopHalfAction {
    /// Read the pending vectors of the leaf of the GSP vector.
    ReadLeaf,
    /// Clear these vectors of the leaf.
    ClearLeaf(LeafMask),
    /// Read the falcon causes pending for the host, clearing the SWGEN0 latch if it was set.
    TakeHostIntr,
    /// Report these causes as faults and clear their latches.
    ClearFaults(NV_PFALCON_FALCON_IRQSTAT),
    /// Read the falcon causes pending for the host.
    ReadHostIntr,
    /// Make the falcon signal the tree again.
    Retrigger,
    /// Disable these vectors of the leaf, since the falcon needs a device reset.
    DisableLeaf(LeafMask),
    /// Rearm PCI interrupt delivery for the GSP subtree.
    Rearm,
}

/// What the top half waits for.
#[derive(Clone, Copy, Debug, PartialEq, Eq, Structural)]
pub enum TopHalf {
    /// The pending vectors of the leaf.
    Leaf,
    /// The causes that were taken.
    Status,
    /// The causes that are still set after the faults in `status` have been cleared.
    Faults { status: NV_PFALCON_FALCON_IRQSTAT },
    /// Nothing: this is what it returns.
    Done(ThreadedIrqReturn),
}

/// How the top half ends, with the causes that were taken and the faults that remain.
///
/// Where every host cause is clear the falcon can signal the tree again. Otherwise a retrigger would
/// deliver the vector again at once, without end, so the vector is disabled. SWGEN0 is the
/// message-queue notification, so it wakes the IRQ thread.
pub open spec fn ending(
    status: NV_PFALCON_FALCON_IRQSTAT,
    remaining: NV_PFALCON_FALCON_IRQSTAT,
) -> (Seq<TopHalfAction>, ThreadedIrqReturn) {
    (
        seq![
            if remaining.raw == 0 {
                TopHalfAction::Retrigger
            } else {
                TopHalfAction::DisableLeaf(gsp_mask())
            },
            TopHalfAction::Rearm,
        ],
        if bit32(status.raw, 6) {
            ThreadedIrqReturn::WakeThread
        } else {
            ThreadedIrqReturn::Handled
        },
    )
}

impl TopHalf {
    /// What the top half does on the value that it waited for, and what it waits for next.
    pub open spec fn advanced(self, value: u32) -> (Seq<TopHalfAction>, TopHalf) {
        match self {
            TopHalf::Leaf => if (LeafMask { raw: value }).spec_contains(gsp_mask()) {
                (
                    seq![TopHalfAction::ClearLeaf(gsp_mask()), TopHalfAction::TakeHostIntr],
                    TopHalf::Status,
                )
            } else {
                (seq![TopHalfAction::Rearm], TopHalf::Done(ThreadedIrqReturn::NotOurs))
            },
            TopHalf::Status => {
                let status = NV_PFALCON_FALCON_IRQSTAT { raw: value };
                if status.spec_faults().raw == 0 {
                    let (actions, result) = ending(status, status.spec_faults());
                    (actions, TopHalf::Done(result))
                } else {
                    (
                        seq![
                            TopHalfAction::ClearFaults(status.spec_faults()),
                            TopHalfAction::ReadHostIntr,
                        ],
                        TopHalf::Faults { status },
                    )
                }
            },
            TopHalf::Faults { status } => {
                let remaining = (NV_PFALCON_FALCON_IRQSTAT { raw: value }).spec_faults();
                let (actions, result) = ending(status, remaining);
                (actions, TopHalf::Done(result))
            },
            TopHalf::Done(_) => (seq![], self),
        }
    }

    /// Starts the top half: it reads the leaf.
    pub fn start() -> (result: (TopHalfAction, TopHalf))
        ensures
            result == (TopHalfAction::ReadLeaf, TopHalf::Leaf),
    {
        (TopHalfAction::ReadLeaf, TopHalf::Leaf)
    }

    /// Returns what to do at the end, in order, and what is returned then.
    fn conclude(
        status: NV_PFALCON_FALCON_IRQSTAT,
        remaining: NV_PFALCON_FALCON_IRQSTAT,
    ) -> (result: (Vec<TopHalfAction>, TopHalf))
        ensures
            (result.0@, result.1) == ({
                let (actions, ret) = ending(status, remaining);
                (actions, TopHalf::Done(ret))
            }),
    {
        let first = if remaining.raw == 0 {
            TopHalfAction::Retrigger
        } else {
            TopHalfAction::DisableLeaf(gsp_vector().leaf_mask())
        };
        let actions = vec![first, TopHalfAction::Rearm];
        assert(actions@ =~= ending(status, remaining).0);
        let ret = if status.swgen0() {
            ThreadedIrqReturn::WakeThread
        } else {
            ThreadedIrqReturn::Handled
        };
        (actions, TopHalf::Done(ret))
    }

    /// Takes the value that the top half waited for. Returns what to do now, in order, and what it
    /// waits for next.
    ///
    /// Only the GSP vector is serviced, so a vector pending alongside it in this leaf stays pending
    /// for whoever services it.
    pub fn advance(self, value: u32) -> (result: (Vec<TopHalfAction>, TopHalf))
        ensures
            (result.0@, result.1) == self.advanced(value),
    {
        match self {
            TopHalf::Leaf => {
                let mask = gsp_vector().leaf_mask();
                if !LeafMask::from_raw(value).contains(mask) {
                    // Nothing to service, but delivery still has to be rearmed.
                    let actions = vec![TopHalfAction::Rearm];
                    assert(actions@ =~= self.advanced(value).0);
                    return (actions, TopHalf::Done(ThreadedIrqReturn::NotOurs));
                }
                let actions = vec![TopHalfAction::ClearLeaf(mask), TopHalfAction::TakeHostIntr];
                assert(actions@ =~= self.advanced(value).0);
                (actions, TopHalf::Status)
            },
            TopHalf::Status => {
                let status = NV_PFALCON_FALCON_IRQSTAT { raw: value };
                let faults = status.faults();
                if faults.raw == 0 {
                    return Self::conclude(status, faults);
                }
                let actions = vec![
                    TopHalfAction::ClearFaults(faults),
                    TopHalfAction::ReadHostIntr,
                ];
                assert(actions@ =~= self.advanced(value).0);
                (actions, TopHalf::Faults { status })
            },
            TopHalf::Faults { status } => {
                let remaining = NV_PFALCON_FALCON_IRQSTAT { raw: value }.faults();
                Self::conclude(status, remaining)
            },
            TopHalf::Done(_) => (Vec::new(), self),
        }
    }
}

/// Delivery is rearmed however the top half ends, and it is the last thing that it does.
pub proof fn law_delivery_is_always_rearmed(state: TopHalf, value: u32)
    requires
        !(state is Done),
        state.advanced(value).1 is Done,
    ensures
        state.advanced(value).0.last() == TopHalfAction::Rearm,
{
}

/// The falcon is retriggered only where no fault remains: not one among the causes that were taken,
/// or not one that is still set after they have been cleared.
pub proof fn law_retrigger_only_without_faults(state: TopHalf, value: u32)
    requires
        state.advanced(value).0.contains(TopHalfAction::Retrigger),
    ensures
        (NV_PFALCON_FALCON_IRQSTAT { raw: value }).spec_faults().raw == 0,
{
    let actions = state.advanced(value).0;
    let i = choose|i: int| 0 <= i < actions.len() && actions[i] == TopHalfAction::Retrigger;
    assert(actions[i] == TopHalfAction::Retrigger);
}

/// The IRQ thread is woken if and only if SWGEN0 was among the causes that were taken.
pub proof fn law_thread_woken_by_swgen0(status: u32, remaining: u32)
    ensures
        ({
            let (_, after) = TopHalf::Status.advanced(status);
            let end = match after {
                TopHalf::Faults { .. } => after.advanced(remaining).1,
                _ => after,
            };
            end == TopHalf::Done(ThreadedIrqReturn::WakeThread) <==> bit32(status, 6)
        }),
{
}

/// Returns the vectors of the leaf to disable after the message queue has been drained: those of the
/// GSP if that failed. A failed drain repeats on every later notification.
pub fn handle_threaded(drained: Result<(), Error>) -> (disable: Option<LeafMask>)
    ensures
        disable == match drained {
            Ok(_) => None::<LeafMask>,
            Err(_) => Some(gsp_mask()),
        },
{
    match drained {
        Ok(_) => None,
        Err(_) => Some(gsp_vector().leaf_mask()),
    }
}

/// The GSP vector is bit 27 of its leaf.
proof fn lemma_gsp_mask(value: u32)
    by (bit_vector)
    ensures
        1u32 << 27u32 == 0x800_0000,
        value & 0x800_0000 == 0x800_0000 <==> value / 0x800_0000 % 2 == 1,
        bit32(value, 6) == (value / 64 % 2 == 1),
{
}

/// The first thing that the top half looks at is bit 27 of the leaf, which is vector 155. Where it is
/// clear the interrupt is not for this handler and delivery is only rearmed. Where it is set that bit
/// alone is cleared and the causes of the falcon are taken.
pub proof fn law_top_half_leaf(value: u32)
    ensures
        gsp_mask().raw == 0x800_0000,
        GSP_INTR_0 == 155,
        value / 0x800_0000 % 2 == 0 ==> TopHalf::Leaf.advanced(value) == (
            seq![TopHalfAction::Rearm],
            TopHalf::Done(ThreadedIrqReturn::NotOurs),
        ),
        value / 0x800_0000 % 2 == 1 ==> TopHalf::Leaf.advanced(value) == (
            seq![
                TopHalfAction::ClearLeaf(LeafMask { raw: 0x800_0000 }),
                TopHalfAction::TakeHostIntr,
            ],
            TopHalf::Status,
        ),
{
    lemma_gsp_mask(value);
}

/// Where the causes that were taken have no bit but bit 6, SWGEN0, the falcon is made to signal again
/// and delivery is rearmed. Otherwise the other bits are cleared and read again, and where one is
/// still set the vector is disabled in place of that. The IRQ thread is woken for bit 6 alone.
pub proof fn law_top_half_status(status: u32, value: u32)
    ensures
        ({
            let faults = status - (status / 64 % 2) * 64;
            let remaining = value - (value / 64 % 2) * 64;
            let state = NV_PFALCON_FALCON_IRQSTAT { raw: status };
            let ret = TopHalf::Done(
                if status / 64 % 2 == 1 {
                    ThreadedIrqReturn::WakeThread
                } else {
                    ThreadedIrqReturn::Handled
                },
            );
            &&& faults == 0 ==> TopHalf::Status.advanced(status) == (
                seq![TopHalfAction::Retrigger, TopHalfAction::Rearm],
                ret,
            )
            &&& faults != 0 ==> TopHalf::Status.advanced(status) == (
                seq![
                    TopHalfAction::ClearFaults(NV_PFALCON_FALCON_IRQSTAT { raw: faults as u32 }),
                    TopHalfAction::ReadHostIntr,
                ],
                TopHalf::Faults { status: state },
            )
            &&& remaining == 0 ==> (TopHalf::Faults { status: state }).advanced(value) == (
                seq![TopHalfAction::Retrigger, TopHalfAction::Rearm],
                ret,
            )
            &&& remaining != 0 ==> (TopHalf::Faults { status: state }).advanced(value) == (
                seq![
                    TopHalfAction::DisableLeaf(LeafMask { raw: 0x800_0000 }),
                    TopHalfAction::Rearm,
                ],
                ret,
            )
        }),
{
    lemma_gsp_mask(status);
    crate::falcon::gsp::law_swgen0_bit(NV_PFALCON_FALCON_IRQSTAT { raw: status });
    crate::falcon::gsp::law_swgen0_bit(NV_PFALCON_FALCON_IRQSTAT { raw: value });
}

/// A top half that is done stays as it is, and setting the handler up takes three steps.
pub proof fn law_top_half_done(ret: ThreadedIrqReturn, value: u32)
    ensures
        TopHalf::Done(ret).advanced(value) == (Seq::<TopHalfAction>::empty(), TopHalf::Done(ret)),
        gsp_irq_steps().len() == 3,
        gsp_irq_steps()[0] == HandlerStep::Register,
        gsp_irq_steps()[1] == HandlerStep::EnableTop,
        gsp_irq_steps()[2] == HandlerStep::EnableLeaf,
{
}

} // verus!
