//! Interrupt delivery self-test, driven through the CPU doorbell vector.
//!
//! Injects a known vector through the GIN software trigger twice, one delivery at a time, and
//! confirms both reach the handler. It is run before GSP boot, so it never reads or clears GSP
//! interrupt state.

use vstd::prelude::*;

use crate::error::Error;
use crate::irq::interrupt_tree::{GinVector, LeafMask, Subtree};
use crate::irq::regs::RegWrite;
use crate::irq::{
    disable_writes, drain_writes, handler_teardown, handler_teardown_steps, made_before, HandlerStep,
    Tree,
};

verus! {

/// The number of the CPU doorbell vector, hardwired on every supported chip, so the test can inject
/// it before GSP-RM runs.
pub const DOORBELL: u32 = 129;

/// Time allowed for each of the two deliveries to arrive, in milliseconds.
pub const DELIVERY_TIMEOUT_MS: u32 = 1000;

/// The bit of the doorbell vector in its leaf.
pub open spec fn doorbell_mask() -> LeafMask {
    LeafMask { raw: 1u32 << (DOORBELL % 32) }
}

/// Returns the CPU doorbell vector.
pub fn doorbell_vector() -> (vector: GinVector)
    ensures
        vector.spec_raw() == DOORBELL,
{
    GinVector::new::<129>()
}

/// Returns the subtree carrying the doorbell vector, and the only subtree this test services.
pub fn doorbell_subtree() -> (subtree: Subtree)
    ensures
        subtree.spec_index() == 2,
{
    doorbell_vector().subtree()
}

/// A completion that the handler signals.
#[derive(Clone, Copy, Debug, PartialEq, Eq, Structural)]
pub enum Signal {
    First,
    Second,
}

/// What the handler does on an interrupt. Delivery is rearmed in either case, before anything is
/// signaled.
#[derive(Clone, Copy, Debug, PartialEq, Eq, Structural)]
pub enum Delivery {
    /// The vector is not pending: the interrupt was not for this handler.
    NotOurs,
    /// The vector is pending: its bit is cleared, and the completion is signaled, if there is one.
    Handled { clear: LeafMask, signal: Option<Signal> },
}

/// Interrupt handler installed by the self-test.
///
/// Clears its own leaf bit and rearms PCI interrupt delivery, leaving the rest of the tree
/// untouched, which is what a notification handler does. Records the leaf's pending bits from each
/// of the first two deliveries and signals the matching completion.
#[derive(Clone, Copy, Debug, PartialEq, Eq, Structural)]
pub struct DoorbellTestHandler {
    /// Count of deliveries this handler has serviced.
    pub irq_count: u32,
    /// Doorbell leaf's pending bits observed on the first delivery.
    pub first_pending: LeafMask,
    /// Doorbell leaf's pending bits observed on the second delivery.
    pub second_pending: LeafMask,
}

impl DoorbellTestHandler {
    /// The handler before any delivery.
    pub open spec fn initial() -> Self {
        DoorbellTestHandler {
            irq_count: 0,
            first_pending: LeafMask { raw: 0 },
            second_pending: LeafMask { raw: 0 },
        }
    }

    /// The handler after an interrupt, with `pending` in the leaf of the doorbell.
    pub open spec fn handled(self, pending: LeafMask) -> (Self, Delivery) {
        if !pending.spec_contains(doorbell_mask()) {
            (self, Delivery::NotOurs)
        } else {
            (
                DoorbellTestHandler {
                    irq_count: if self.irq_count == u32::MAX {
                        0
                    } else {
                        (self.irq_count + 1) as u32
                    },
                    first_pending: if self.irq_count == 0 {
                        pending
                    } else {
                        self.first_pending
                    },
                    second_pending: if self.irq_count == 1 {
                        pending
                    } else {
                        self.second_pending
                    },
                },
                Delivery::Handled {
                    clear: doorbell_mask(),
                    signal: if self.irq_count == 0 {
                        Some(Signal::First)
                    } else if self.irq_count == 1 {
                        Some(Signal::Second)
                    } else {
                        None
                    },
                },
            )
        }
    }

    /// Returns the handler before any delivery.
    pub fn new() -> (handler: Self)
        ensures
            handler == Self::initial(),
    {
        DoorbellTestHandler {
            irq_count: 0,
            first_pending: LeafMask { raw: 0 },
            second_pending: LeafMask { raw: 0 },
        }
    }

    /// Services an interrupt, with `pending` in the leaf of the doorbell. The count wraps around.
    pub fn handle(&mut self, pending: LeafMask) -> (delivery: Delivery)
        ensures
            (*final(self), delivery) == old(self).handled(pending),
    {
        let mask = doorbell_vector().leaf_mask();
        if !pending.contains(mask) {
            return Delivery::NotOurs;
        }
        let count: u32 = self.irq_count;
        self.irq_count = if count == u32::MAX {
            0
        } else {
            count + 1
        };
        let signal = match count {
            0 => {
                self.first_pending = pending;
                Some(Signal::First)
            },
            1 => {
                self.second_pending = pending;
                Some(Signal::Second)
            },
            _ => None,
        };
        Delivery::Handled { clear: mask, signal }
    }
}

/// The writes that the self-test starts with: every leaf is disabled, and then the tree is drained.
pub open spec fn prepare_writes(tree: Tree) -> Seq<RegWrite> {
    disable_writes(tree.leaves.count() as nat) + drain_writes(tree.leaves.count() as nat)
}

/// Returns the writes that the self-test starts with, in order.
///
/// No delivery may reach the CPU before a handler is registered, and a vector left enabled by boot
/// would fail the check that the doorbell is not pending.
pub fn prepare(tree: &Tree) -> (writes: Vec<RegWrite>)
    ensures
        writes@ == prepare_writes(*tree),
{
    let mut writes = tree.disable_all_leaves();
    let mut drained = tree.drain();
    writes.append(&mut drained);
    writes
}

/// The order in which the handler of the self-test is set up.
pub open spec fn enable_steps() -> Seq<HandlerStep> {
    seq![HandlerStep::Register, HandlerStep::EnableLeaf, HandlerStep::EnableTop]
}

/// Returns the steps that set up the handler of the self-test, in order. The handler is registered
/// before any vector is enabled.
pub fn enable() -> (steps: Vec<HandlerStep>)
    ensures
        steps@ == enable_steps(),
{
    let steps = vec![HandlerStep::Register, HandlerStep::EnableLeaf, HandlerStep::EnableTop];
    assert(steps@ =~= enable_steps());
    steps
}

/// A step of the self-test. The vectors have been allocated before the first one.
#[derive(Clone, Copy, Debug, PartialEq, Eq)]
pub enum Selftest {
    /// Make the writes of [`prepare`].
    Prepare,
    /// Read the pending vectors of the leaf of the doorbell.
    ReadLeaf,
    /// Make the steps of [`enable`].
    Enable,
    /// Trigger the doorbell and wait for the first delivery.
    TriggerFirst,
    /// Trigger the doorbell and wait for the second delivery. This comes only after the first
    /// handler has rearmed, so the two cannot coalesce into one delivery.
    TriggerSecond,
    /// Disable the doorbell and wait for a handler that is already running, then read the leaf.
    Quiesce { completed: bool },
    /// The test is over.
    Finished(Result<(), Error>),
}

/// What came of a step of the self-test.
#[derive(Clone, Copy, Debug, PartialEq, Eq, Structural)]
pub enum SelftestEvent {
    /// The step could not be made.
    Failed(Error),
    /// The step was made.
    Made,
    /// The delivery that was waited for arrived, or did not arrive in time.
    Delivered(bool),
    /// The leaf of the doorbell has these vectors pending.
    Pending(LeafMask),
}

/// The verdict of the self-test, once no further delivery can reach the handler. Nothing but the
/// doorbell can be pending in its leaf, so the exact mask is required, and nothing is left after.
pub open spec fn verdict(
    completed: bool,
    handler: DoorbellTestHandler,
    residual: LeafMask,
) -> Result<(), Error> {
    if !completed {
        Err(Error::ETIMEDOUT)
    } else if handler.irq_count != 2 || handler.first_pending != doorbell_mask()
        || handler.second_pending != doorbell_mask() || residual.spec_contains(doorbell_mask()) {
        Err(Error::EIO)
    } else {
        Ok(())
    }
}

impl Selftest {
    /// The step after this one, with what came of this one and the state of the handler. A delivery
    /// counts as the trigger's only if the vector starts out clear.
    pub open spec fn following(
        self,
        event: SelftestEvent,
        handler: DoorbellTestHandler,
    ) -> Selftest {
        match (self, event) {
            (Selftest::Finished(result), _) => Selftest::Finished(result),
            (_, SelftestEvent::Failed(error)) => Selftest::Finished(Err(error)),
            (Selftest::Prepare, SelftestEvent::Made) => Selftest::ReadLeaf,
            (Selftest::ReadLeaf, SelftestEvent::Pending(pending)) => if pending.spec_contains(
                doorbell_mask(),
            ) {
                Selftest::Finished(Err(Error::EIO))
            } else {
                Selftest::Enable
            },
            (Selftest::Enable, SelftestEvent::Made) => Selftest::TriggerFirst,
            (Selftest::TriggerFirst, SelftestEvent::Delivered(arrived)) => if arrived {
                Selftest::TriggerSecond
            } else {
                Selftest::Quiesce { completed: false }
            },
            (Selftest::TriggerSecond, SelftestEvent::Delivered(arrived)) => Selftest::Quiesce {
                completed: arrived,
            },
            (Selftest::Quiesce { completed }, SelftestEvent::Pending(residual)) => {
                Selftest::Finished(verdict(completed, handler, residual))
            },
            _ => Selftest::Finished(Err(Error::EIO)),
        }
    }

    /// Returns the first step of the self-test.
    pub fn start() -> (step: Self)
        ensures
            step == Selftest::Prepare,
    {
        Selftest::Prepare
    }

    /// Returns the step after this one. An event that is none of this step fails the test.
    pub fn next(self, event: SelftestEvent, handler: &DoorbellTestHandler) -> (step: Self)
        ensures
            step == self.following(event, *handler),
    {
        let mask = doorbell_vector().leaf_mask();
        match (self, event) {
            (Selftest::Finished(_), _) => self,
            (_, SelftestEvent::Failed(error)) => Selftest::Finished(Err(error)),
            (Selftest::Prepare, SelftestEvent::Made) => Selftest::ReadLeaf,
            (Selftest::ReadLeaf, SelftestEvent::Pending(pending)) => {
                if pending.contains(mask) {
                    Selftest::Finished(Err(Error::EIO))
                } else {
                    Selftest::Enable
                }
            },
            (Selftest::Enable, SelftestEvent::Made) => Selftest::TriggerFirst,
            (Selftest::TriggerFirst, SelftestEvent::Delivered(arrived)) => {
                if arrived {
                    Selftest::TriggerSecond
                } else {
                    Selftest::Quiesce { completed: false }
                }
            },
            (Selftest::TriggerSecond, SelftestEvent::Delivered(arrived)) => {
                Selftest::Quiesce { completed: arrived }
            },
            (Selftest::Quiesce { completed }, SelftestEvent::Pending(residual)) => {
                if !completed {
                    return Selftest::Finished(Err(Error::ETIMEDOUT));
                }
                if handler.irq_count != 2 || handler.first_pending != mask
                    || handler.second_pending != mask || residual.contains(mask) {
                    return Selftest::Finished(Err(Error::EIO));
                }
                Selftest::Finished(Ok(()))
            },
            _ => Selftest::Finished(Err(Error::EIO)),
        }
    }

    /// Whether the handler is set up when this step is made.
    pub open spec fn holds_handler(self) -> bool {
        self is TriggerFirst || self is TriggerSecond || self is Quiesce
    }

    /// What is torn down when the test ends with this step, in order: the handler, if it is set up,
    /// and then the vectors.
    pub open spec fn teardown_steps(self) -> Seq<HandlerStep> {
        if self.holds_handler() {
            handler_teardown_steps().push(HandlerStep::FreeVectors)
        } else {
            seq![HandlerStep::FreeVectors]
        }
    }

    /// Returns what to tear down, in order, when the test ends with this step, however it does.
    pub fn teardown(self) -> (steps: Vec<HandlerStep>)
        ensures
            steps@ == self.teardown_steps(),
    {
        let mut steps: Vec<HandlerStep> = match self {
            Selftest::TriggerFirst | Selftest::TriggerSecond | Selftest::Quiesce { .. } => {
                handler_teardown()
            },
            _ => Vec::new(),
        };
        steps.push(HandlerStep::FreeVectors);
        assert(steps@ =~= self.teardown_steps());
        steps
    }
}

/// The handler is set up exactly from the step that enables it on, so each test that has set it up
/// tears it down again, with whatever step it ends.
pub proof fn law_handler_is_torn_down(
    step: Selftest,
    event: SelftestEvent,
    handler: DoorbellTestHandler,
)
    ensures
        ({
            let next = step.following(event, handler);
            &&& !(next is Finished) ==> (next.holds_handler() <==> step is Enable
                || step.holds_handler())
            &&& step.holds_handler() ==> step.teardown_steps().contains(HandlerStep::Free)
        }),
        step.teardown_steps().last() == HandlerStep::FreeVectors,
{
    if step.holds_handler() {
        assert(step.teardown_steps()[1] == HandlerStep::Free);
    }
}

/// The handler is registered before its vector can be delivered. With whatever step the test ends, the
/// leaf is disabled first, the handler is freed next, and the top is disabled only after that.
pub proof fn law_handler_order(step: Selftest)
    ensures
        made_before(enable_steps(), HandlerStep::Register, HandlerStep::EnableLeaf),
        made_before(enable_steps(), HandlerStep::Register, HandlerStep::EnableTop),
        made_before(step.teardown_steps(), HandlerStep::DisableLeaf, HandlerStep::Free),
        made_before(step.teardown_steps(), HandlerStep::Free, HandlerStep::DisableTop),
{
}

/// The state of the handler after two interrupts.
pub open spec fn after_two(first: LeafMask, second: LeafMask) -> DoorbellTestHandler {
    DoorbellTestHandler::initial().handled(first).0.handled(second).0
}

/// The self-test passes if each of two deliveries finds exactly the doorbell pending and nothing is
/// left pending.
pub proof fn law_two_clean_deliveries_pass(residual: LeafMask)
    requires
        !residual.spec_contains(doorbell_mask()),
    ensures
        ({
            let handler = after_two(doorbell_mask(), doorbell_mask());
            verdict(true, handler, residual) == Ok::<(), Error>(())
        }),
{
    lemma_own_bit(doorbell_mask().raw);
}

/// A mask contains itself.
proof fn lemma_own_bit(raw: u32)
    by (bit_vector)
    ensures
        raw & raw == raw,
{
}

/// The self-test passes only if the handler has serviced exactly two deliveries, both in time.
pub proof fn law_pass_needs_two_deliveries(
    completed: bool,
    handler: DoorbellTestHandler,
    residual: LeafMask,
)
    requires
        verdict(completed, handler, residual) is Ok,
    ensures
        completed,
        handler.irq_count == 2,
        handler.first_pending == doorbell_mask(),
        handler.second_pending == doorbell_mask(),
{
}

/// The doorbell vector is bit 1 of its leaf.
proof fn lemma_doorbell_mask(value: u32)
    by (bit_vector)
    ensures
        1u32 << 1u32 == 2,
        value & 2 == 2 <==> value / 2 % 2 == 1,
{
}

/// The handler services an interrupt where bit 1 of the leaf is pending, which is vector 129. It
/// clears that bit alone, counts, and on the first two deliveries keeps what was pending and signals.
pub proof fn law_doorbell_delivery(handler: DoorbellTestHandler, pending: LeafMask)
    ensures
        doorbell_mask().raw == 2,
        DOORBELL == 129,
        ({
            let (next, delivery) = handler.handled(pending);
            let ours = pending.raw / 2 % 2 == 1;
            &&& !ours ==> next == handler && delivery == Delivery::NotOurs
            &&& ours ==> {
                &&& delivery matches Delivery::Handled { clear, signal }
                &&& clear.raw == 2
                &&& signal == Some(Signal::First) <==> handler.irq_count == 0
                &&& signal == Some(Signal::Second) <==> handler.irq_count == 1
                &&& handler.irq_count < 0xffff_ffff ==> next.irq_count == handler.irq_count + 1
                &&& handler.irq_count == 0xffff_ffff ==> next.irq_count == 0
                &&& handler.irq_count == 0 ==> next.first_pending == pending
                &&& handler.irq_count != 0 ==> next.first_pending == handler.first_pending
                &&& handler.irq_count == 1 ==> next.second_pending == pending
                &&& handler.irq_count != 1 ==> next.second_pending == handler.second_pending
            }
        }),
        DoorbellTestHandler::initial().irq_count == 0,
{
    lemma_doorbell_mask(pending.raw);
}

/// When the self-test passes: both deliveries have to come in time. There have to be exactly two of
/// them, each with nothing but bit 1 pending, and that bit may not be left over.
pub proof fn law_when_selftest_passes(completed: bool, handler: DoorbellTestHandler, residual: LeafMask)
    ensures
        verdict(completed, handler, residual) == if !completed {
            Err::<(), Error>(Error::ETIMEDOUT)
        } else if handler.irq_count == 2 && handler.first_pending.raw == 2
            && handler.second_pending.raw == 2 && residual.raw / 2 % 2 == 0 {
            Ok(())
        } else {
            Err(Error::EIO)
        },
{
    lemma_doorbell_mask(residual.raw);
}

/// The course of the test: the tree is prepared, the leaf is read and bit 1 has to be clear, the
/// handler is set up, the doorbell is triggered twice, the second time only if the first delivery
/// came, and at the end the leaf is read to tell whether it passes. A failed step ends it with its
/// error.
pub proof fn law_selftest_course(
    step: Selftest,
    handler: DoorbellTestHandler,
    pending: LeafMask,
    arrived: bool,
    completed: bool,
    error: Error,
)
    ensures
        Selftest::Prepare.following(SelftestEvent::Made, handler) == Selftest::ReadLeaf,
        Selftest::ReadLeaf.following(SelftestEvent::Pending(pending), handler) == if pending.raw / 2
            % 2 == 1 {
            Selftest::Finished(Err(Error::EIO))
        } else {
            Selftest::Enable
        },
        Selftest::Enable.following(SelftestEvent::Made, handler) == Selftest::TriggerFirst,
        Selftest::TriggerFirst.following(SelftestEvent::Delivered(true), handler)
            == Selftest::TriggerSecond,
        Selftest::TriggerFirst.following(SelftestEvent::Delivered(false), handler) == (
        Selftest::Quiesce { completed: false }),
        Selftest::TriggerSecond.following(SelftestEvent::Delivered(arrived), handler) == (
        Selftest::Quiesce { completed: arrived }),
        (Selftest::Quiesce { completed }).following(SelftestEvent::Pending(pending), handler)
            == Selftest::Finished(verdict(completed, handler, pending)),
        !(step is Finished) ==> step.following(SelftestEvent::Failed(error), handler)
            == Selftest::Finished(Err(error)),
        step is Finished ==> step.following(SelftestEvent::Failed(error), handler) == step,
{
    lemma_doorbell_mask(pending.raw);
}

/// An event that is none of the step fails the self-test, and nothing changes one that has finished.
pub proof fn law_selftest_refuses_other_events(
    step: Selftest,
    event: SelftestEvent,
    handler: DoorbellTestHandler,
)
    ensures
        step is Finished ==> step.following(event, handler) == step,
        (step is Prepare || step is Enable) && (event is Pending || event is Delivered)
            ==> step.following(event, handler) == Selftest::Finished(Err(Error::EIO)),
        (step is ReadLeaf || step is Quiesce) && (event is Made || event is Delivered)
            ==> step.following(event, handler) == Selftest::Finished(Err(Error::EIO)),
        (step is TriggerFirst || step is TriggerSecond) && (event is Made || event is Pending)
            ==> step.following(event, handler) == Selftest::Finished(Err(Error::EIO)),
{
}

/// The test starts with every leaf disabled and then drained. Setting the handler up takes three
/// steps, and tearing down ends with freeing the vectors.
pub proof fn law_selftest_steps(tree: Tree, step: Selftest, leaf: int)
    requires
        0 <= leaf < tree.leaves.count(),
    ensures
        ({
            let writes = prepare_writes(tree);
            let count = tree.leaves.count() as int;
            &&& writes.len() == 2 * count
            &&& writes[leaf].offset == 0x00b8_1400 + 4 * leaf && writes[leaf].value == 0xffff_ffff
            &&& writes[count + leaf].offset == 0x00b8_1000 + 4 * leaf && writes[count + leaf].value
                == 0xffff_ffff
        }),
        enable_steps().len() == 3,
        enable_steps()[0] == HandlerStep::Register,
        enable_steps()[1] == HandlerStep::EnableLeaf,
        enable_steps()[2] == HandlerStep::EnableTop,
        step is TriggerFirst || step is TriggerSecond || step is Quiesce ==> step.teardown_steps()
            =~= seq![
            HandlerStep::DisableLeaf,
            HandlerStep::Free,
            HandlerStep::DisableTop,
            HandlerStep::FreeVectors,
        ],
        step is Prepare || step is ReadLeaf || step is Enable ==> step.teardown_steps() =~= seq![
            HandlerStep::FreeVectors,
        ],
{
    crate::irq::law_leaf_writes(tree.leaves.count() as nat, leaf);
}

/// A handler that nothing was delivered to has counted nothing and recorded nothing, so it passes no
/// self-test.
pub proof fn law_fresh_handler(residual: LeafMask)
    ensures
        DoorbellTestHandler::initial().irq_count == 0,
        DoorbellTestHandler::initial().first_pending.raw == 0,
        DoorbellTestHandler::initial().second_pending.raw == 0,
        verdict(true, DoorbellTestHandler::initial(), residual) == Err::<(), Error>(Error::EIO),
{
}

} // verus!
