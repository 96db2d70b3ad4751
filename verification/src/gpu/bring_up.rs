//! Bringing up a GPU: the steps, what each of them leaves to be released, and the layout of its
//! memory.

use core::ops::Range;

use vstd::prelude::*;

use crate::error::Error;
use crate::mm::addr::VramAddress;
use crate::num::{is_power_of_two, power_of_two};

verus! {

/// A step of bringing up a GPU.
#[derive(Clone, Copy, Debug, PartialEq, Eq, Structural)]
pub enum Step {
    /// Identify the GPU.
    Identify,
    /// Set the DMA mask of the chipset.
    SetDmaMask,
    /// Wait for GFW_BOOT completion, before doing any significant setup on the GPU.
    WaitGfwBoot,
    /// Validate the interrupt path on a quiesced interrupt tree, before booting GSP.
    Selftest,
    /// Register the sysmem flush page.
    RegisterSysmemFlush,
    /// Create the channel ID pool.
    CreateChannelIdPool,
    /// Create the vGPU manager, which borrows the pool.
    CreateVgpuManager,
    /// Create the GSP falcon, and clear its software interrupt.
    CreateGspFalcon,
    /// Create the SEC2 falcon.
    CreateSec2Falcon,
    /// Create the FSP, if on an architecture that supports it.
    CreateFsp,
    /// Detect the vGPU state. This does not fail.
    DetectVgpuState,
    /// Create the GSP runtime data.
    CreateGsp,
    /// Boot the GSP.
    BootGsp,
    /// Create the GPU memory manager.
    CreateMm,
    /// Create the BAR1 user interface.
    CreateBarUser,
}

/// Something that a step leaves behind, to be released when the GPU is given up.
#[derive(Clone, Copy, Debug, PartialEq, Eq, Structural)]
pub enum Resource {
    /// The registration of the sysmem flush page.
    SysmemFlush,
    /// The channel ID pool.
    ChannelIdPool,
    /// The vGPU manager.
    VgpuManager,
    /// The running GSP, which has to be unloaded.
    BootedGsp,
    /// The GPU memory manager.
    Mm,
    /// The BAR1 user interface.
    BarUser,
}

impl Step {
    /// The place of the step in the order.
    pub open spec fn place(self) -> int {
        match self {
            Step::Identify => 0,
            Step::SetDmaMask => 1,
            Step::WaitGfwBoot => 2,
            Step::Selftest => 3,
            Step::RegisterSysmemFlush => 4,
            Step::CreateChannelIdPool => 5,
            Step::CreateVgpuManager => 6,
            Step::CreateGspFalcon => 7,
            Step::CreateSec2Falcon => 8,
            Step::CreateFsp => 9,
            Step::DetectVgpuState => 10,
            Step::CreateGsp => 11,
            Step::BootGsp => 12,
            Step::CreateMm => 13,
            Step::CreateBarUser => 14,
        }
    }

    /// The step after this one, if there is one. The self-test is only run if it is enabled.
    pub open spec fn following(self, selftest: bool) -> Option<Step> {
        match self {
            Step::Identify => Some(Step::SetDmaMask),
            Step::SetDmaMask => Some(Step::WaitGfwBoot),
            Step::WaitGfwBoot => if selftest {
                Some(Step::Selftest)
            } else {
                Some(Step::RegisterSysmemFlush)
            },
            Step::Selftest => Some(Step::RegisterSysmemFlush),
            Step::RegisterSysmemFlush => Some(Step::CreateChannelIdPool),
            Step::CreateChannelIdPool => Some(Step::CreateVgpuManager),
            Step::CreateVgpuManager => Some(Step::CreateGspFalcon),
            Step::CreateGspFalcon => Some(Step::CreateSec2Falcon),
            Step::CreateSec2Falcon => Some(Step::CreateFsp),
            Step::CreateFsp => Some(Step::DetectVgpuState),
            Step::DetectVgpuState => Some(Step::CreateGsp),
            Step::CreateGsp => Some(Step::BootGsp),
            Step::BootGsp => Some(Step::CreateMm),
            Step::CreateMm => Some(Step::CreateBarUser),
            Step::CreateBarUser => None,
        }
    }

    /// Returns the step after this one, if there is one.
    pub fn next(self, selftest: bool) -> (step: Option<Step>)
        ensures
            step == self.following(selftest),
    {
        match self {
            Step::Identify => Some(Step::SetDmaMask),
            Step::SetDmaMask => Some(Step::WaitGfwBoot),
            Step::WaitGfwBoot => {
                if selftest {
                    Some(Step::Selftest)
                } else {
                    Some(Step::RegisterSysmemFlush)
                }
            },
            Step::Selftest => Some(Step::RegisterSysmemFlush),
            Step::RegisterSysmemFlush => Some(Step::CreateChannelIdPool),
            Step::CreateChannelIdPool => Some(Step::CreateVgpuManager),
            Step::CreateVgpuManager => Some(Step::CreateGspFalcon),
            Step::CreateGspFalcon => Some(Step::CreateSec2Falcon),
            Step::CreateSec2Falcon => Some(Step::CreateFsp),
            Step::CreateFsp => Some(Step::DetectVgpuState),
            Step::DetectVgpuState => Some(Step::CreateGsp),
            Step::CreateGsp => Some(Step::BootGsp),
            Step::BootGsp => Some(Step::CreateMm),
            Step::CreateMm => Some(Step::CreateBarUser),
            Step::CreateBarUser => None,
        }
    }

    /// What the step leaves behind when it succeeds.
    pub open spec fn spec_acquires(self) -> Option<Resource> {
        match self {
            Step::RegisterSysmemFlush => Some(Resource::SysmemFlush),
            Step::CreateChannelIdPool => Some(Resource::ChannelIdPool),
            Step::CreateVgpuManager => Some(Resource::VgpuManager),
            Step::BootGsp => Some(Resource::BootedGsp),
            Step::CreateMm => Some(Resource::Mm),
            Step::CreateBarUser => Some(Resource::BarUser),
            _ => None,
        }
    }

    /// Returns what the step leaves behind when it succeeds.
    pub fn acquires(self) -> (resource: Option<Resource>)
        ensures
            resource == self.spec_acquires(),
    {
        match self {
            Step::RegisterSysmemFlush => Some(Resource::SysmemFlush),
            Step::CreateChannelIdPool => Some(Resource::ChannelIdPool),
            Step::CreateVgpuManager => Some(Resource::VgpuManager),
            Step::BootGsp => Some(Resource::BootedGsp),
            Step::CreateMm => Some(Resource::Mm),
            Step::CreateBarUser => Some(Resource::BarUser),
            _ => None,
        }
    }
}

/// A bring-up in progress: the step to be made, and what the steps before it have left behind.
pub struct BringUp {
    pub step: Option<Step>,
    pub acquired: Vec<Resource>,
    pub selftest: bool,
}

/// What the steps before a place in the order leave behind, in the order in which they do.
pub open spec fn acquired_before(place: int) -> Seq<Resource> {
    if place <= 4 {
        Seq::empty()
    } else if place == 5 {
        seq![Resource::SysmemFlush]
    } else if place == 6 {
        seq![Resource::SysmemFlush, Resource::ChannelIdPool]
    } else if place <= 12 {
        seq![Resource::SysmemFlush, Resource::ChannelIdPool, Resource::VgpuManager]
    } else if place == 13 {
        seq![
            Resource::SysmemFlush,
            Resource::ChannelIdPool,
            Resource::VgpuManager,
            Resource::BootedGsp,
        ]
    } else if place == 14 {
        seq![
            Resource::SysmemFlush,
            Resource::ChannelIdPool,
            Resource::VgpuManager,
            Resource::BootedGsp,
            Resource::Mm,
        ]
    } else {
        seq![
            Resource::SysmemFlush,
            Resource::ChannelIdPool,
            Resource::VgpuManager,
            Resource::BootedGsp,
            Resource::Mm,
            Resource::BarUser,
        ]
    }
}

impl BringUp {
    /// The place in the order that the bring-up has reached.
    pub open spec fn place(self) -> int {
        match self.step {
            Some(step) => step.place(),
            None => 15,
        }
    }

    /// What has been left behind is what the steps so far leave.
    pub open spec fn wf(self) -> bool {
        self.acquired@ == acquired_before(self.place())
    }

    /// Starts to bring up a GPU. `selftest` tells whether the interrupt self-test is enabled.
    pub fn start(selftest: bool) -> (bring_up: Self)
        ensures
            bring_up.wf(),
            bring_up.step == Some(Step::Identify),
            bring_up.selftest == selftest,
    {
        BringUp { step: Some(Step::Identify), acquired: Vec::new(), selftest }
    }

    /// Goes on after the step has succeeded.
    pub fn succeeded(&mut self)
        requires
            old(self).wf(),
            old(self).step is Some,
        ensures
            final(self).wf(),
            final(self).selftest == old(self).selftest,
            final(self).step == old(self).step.unwrap().following(old(self).selftest),
    {
        if let Some(step) = self.step {
            if let Some(resource) = step.acquires() {
                self.acquired.push(resource);
            }
            self.step = step.next(self.selftest);
            assert(self.acquired@ =~= acquired_before(self.place()));
        }
    }

    /// Returns what to release, in order, after the step has failed: the reverse of the order in which
    /// it was left behind.
    pub fn failed(&self) -> (releases: Vec<Resource>)
        requires
            self.wf(),
        ensures
            releases@ == acquired_before(self.place()).reverse(),
    {
        let total: usize = self.acquired.len();
        let mut releases: Vec<Resource> = Vec::new();
        let mut i: usize = total;
        while i > 0
            invariant
                i <= total,
                total == self.acquired@.len(),
                releases@.len() == total - i,
                forall|k: int| 0 <= k < releases@.len() ==> releases@[k] == self.acquired@[total - 1 - k],
            decreases i,
        {
            i = i - 1;
            releases.push(self.acquired[i]);
        }
        assert(releases@ =~= self.acquired@.reverse());
        releases
    }
}

/// Returns what to release, in order, when a GPU that was brought up is given up.
pub fn teardown() -> (releases: Vec<Resource>)
    ensures
        releases@ == spec_teardown(),
{
    let releases = vec![
        Resource::VgpuManager,
        Resource::BarUser,
        Resource::Mm,
        Resource::BootedGsp,
        Resource::ChannelIdPool,
        Resource::SysmemFlush,
    ];
    releases
}

/// The order in which a GPU that was brought up is given up.
pub open spec fn spec_teardown() -> Seq<Resource> {
    seq![
        Resource::VgpuManager,
        Resource::BarUser,
        Resource::Mm,
        Resource::BootedGsp,
        Resource::ChannelIdPool,
        Resource::SysmemFlush,
    ]
}

/// Whether `second`, where it is released, is released after `first` if that is released at all.
pub open spec fn released_before(releases: Seq<Resource>, first: Resource, second: Resource) -> bool {
    forall|i: int, j: int|
        0 <= i < releases.len() && 0 <= j < releases.len() && #[trigger] releases[i] == first
            && #[trigger] releases[j] == second ==> i < j
}

/// Wherever the bring-up fails, and also when the GPU is given up later, the GSP is unloaded while the
/// sysmem flush page is still in place, and the vGPU manager is gone before the pool that it borrows
/// from.
pub proof fn law_release_order(place: int)
    requires
        0 <= place <= 15,
    ensures
        ({
            let failed = acquired_before(place).reverse();
            &&& released_before(failed, Resource::BootedGsp, Resource::SysmemFlush)
            &&& released_before(failed, Resource::VgpuManager, Resource::ChannelIdPool)
        }),
        released_before(spec_teardown(), Resource::BootedGsp, Resource::SysmemFlush),
        released_before(spec_teardown(), Resource::VgpuManager, Resource::ChannelIdPool),
        released_before(spec_teardown(), Resource::VgpuManager, Resource::Mm),
{
}

/// What is released when the GPU is given up is what its bring-up has left behind, each once.
pub proof fn law_teardown_is_complete(resource: Resource)
    ensures
        spec_teardown().contains(resource),
        acquired_before(15).contains(resource),
        spec_teardown().len() == acquired_before(15).len(),
{
    let all = spec_teardown();
    let acquired = acquired_before(15);
    assert(all[0] == Resource::VgpuManager && acquired[2] == Resource::VgpuManager);
    assert(all[1] == Resource::BarUser && acquired[5] == Resource::BarUser);
    assert(all[2] == Resource::Mm && acquired[4] == Resource::Mm);
    assert(all[3] == Resource::BootedGsp && acquired[3] == Resource::BootedGsp);
    assert(all[4] == Resource::ChannelIdPool && acquired[1] == Resource::ChannelIdPool);
    assert(all[5] == Resource::SysmemFlush && acquired[0] == Resource::SysmemFlush);
}

/// A part of the framebuffer that a buddy allocator manages.
#[derive(Clone, Copy, Debug, PartialEq, Eq, Structural)]
pub struct GpuBuddyParams {
    /// Where it starts.
    pub base_offset: u64,
    /// How large it is.
    pub size: u64,
    /// The smallest size that is handed out.
    pub chunk_size: u64,
}

/// The memory of a GPU, as its memory manager is to be created with.
pub struct MmPlan {
    /// The parts of the framebuffer to manage.
    pub buddy_params: Vec<GpuBuddyParams>,
    /// Alignment of the parts.
    pub buddy_base_alignment: usize,
    /// Physical VRAM that the PRAMIN window may reach.
    pub pramin_vram_region: Range<VramAddress>,
}

/// The parts of the framebuffer to manage: the usable regions, in chunks of 4K.
pub open spec fn buddy_params_of(regions: Seq<Range<u64>>) -> Seq<GpuBuddyParams> {
    Seq::new(
        regions.len(),
        |i: int|
            GpuBuddyParams {
                base_offset: regions[i].start,
                size: (regions[i].end - regions[i].start) as u64,
                chunk_size: 4096,
            },
    )
}

/// The alignment that a VMMU segment size asks for: 4K if there is none.
pub open spec fn base_alignment_of(vmmu_segment_size: Option<u64>) -> Result<usize, Error> {
    match vmmu_segment_size {
        Some(size) => if size > usize::MAX {
            Err(Error::EOVERFLOW)
        } else if !power_of_two(size as nat) {
            Err(Error::EINVAL)
        } else {
            Ok(size as usize)
        },
        None => Ok(4096),
    }
}

/// Returns the memory of a GPU, from what the GSP reported at boot.
///
/// PRAMIN covers all physical VRAM (including GSP-reserved areas above the usable region, e.g. the BAR1
/// page directory). No region may end before it starts.
pub fn mm_plan(
    usable_fb_regions: &[Range<u64>],
    vmmu_segment_size: Option<u64>,
    total_fb_end: u64,
) -> (plan: Result<MmPlan, Error>)
    requires
        forall|i: int|
            0 <= i < usable_fb_regions@.len() ==> (#[trigger] usable_fb_regions@[i]).start
                <= usable_fb_regions@[i].end,
    ensures
        match plan {
            Ok(plan) => {
                &&& base_alignment_of(vmmu_segment_size) == Ok::<usize, Error>(
                    plan.buddy_base_alignment,
                )
                &&& plan.buddy_params@ == buddy_params_of(usable_fb_regions@)
                &&& plan.pramin_vram_region.start.raw == 0
                &&& plan.pramin_vram_region.end.raw == total_fb_end
            },
            Err(error) => base_alignment_of(vmmu_segment_size) == Err::<usize, Error>(error),
        },
{
    let total: usize = usable_fb_regions.len();
    let mut buddy_params: Vec<GpuBuddyParams> = Vec::new();
    let mut i: usize = 0;
    while i < total
        invariant
            i <= total,
            total == usable_fb_regions@.len(),
            forall|k: int|
                0 <= k < usable_fb_regions@.len() ==> (#[trigger] usable_fb_regions@[k]).start
                    <= usable_fb_regions@[k].end,
            buddy_params@ == buddy_params_of(usable_fb_regions@.take(i as int)),
        decreases total - i,
    {
        let region = &usable_fb_regions[i];
        assert(usable_fb_regions@[i as int].start <= usable_fb_regions@[i as int].end);
        buddy_params.push(
            GpuBuddyParams {
                base_offset: region.start,
                size: region.end - region.start,
                chunk_size: 4096,
            },
        );
        i = i + 1;
        assert(buddy_params@ =~= buddy_params_of(usable_fb_regions@.take(i as int)));
    }
    assert(usable_fb_regions@.take(total as int) =~= usable_fb_regions@);
    let buddy_base_alignment: usize = match vmmu_segment_size {
        Some(size) => {
            if size > usize::MAX as u64 {
                return Err(Error::EOVERFLOW);
            }
            if !is_power_of_two(size) {
                return Err(Error::EINVAL);
            }
            size as usize
        },
        None => 4096,
    };
    Ok(
        MmPlan {
            buddy_params,
            buddy_base_alignment,
            pramin_vram_region: Range {
                start: VramAddress::new(0),
                end: VramAddress::new(total_fb_end),
            },
        },
    )
}

/// The sum of the sizes of some regions.
pub open spec fn regions_size(regions: Seq<Range<u64>>) -> int
    decreases regions.len(),
{
    if regions.len() == 0 {
        0
    } else {
        regions_size(regions.drop_last()) + (regions.last().end - regions.last().start)
    }
}

/// Returns the total size of the usable regions, or the largest number of 64 bits if it is larger. No
/// region may end before it starts.
pub fn total_usable_vram(regions: &[Range<u64>]) -> (size: u64)
    requires
        forall|i: int|
            0 <= i < regions@.len() ==> (#[trigger] regions@[i]).start <= regions@[i].end,
    ensures
        size == if regions_size(regions@) > u64::MAX {
            u64::MAX as int
        } else {
            regions_size(regions@)
        },
{
    let total: usize = regions.len();
    let mut size: u64 = 0;
    let mut i: usize = 0;
    while i < total
        invariant
            i <= total,
            total == regions@.len(),
            forall|k: int|
                0 <= k < regions@.len() ==> (#[trigger] regions@[k]).start <= regions@[k].end,
            size == if regions_size(regions@.take(i as int)) > u64::MAX {
                u64::MAX as int
            } else {
                regions_size(regions@.take(i as int))
            },
        decreases total - i,
    {
        let region = &regions[i];
        assert(regions@[i as int].start <= regions@[i as int].end);
        size = size.saturating_add(region.end - region.start);
        i = i + 1;
        assert(regions@.take(i as int).drop_last() =~= regions@.take(i - 1));
    }
    assert(regions@.take(total as int) =~= regions@);
    size
}

/// The steps are made in this order. The self-test is only made where it is enabled.
pub proof fn law_step_order(selftest: bool)
    ensures
        Step::Identify.following(selftest) == Some(Step::SetDmaMask),
        Step::SetDmaMask.following(selftest) == Some(Step::WaitGfwBoot),
        Step::WaitGfwBoot.following(true) == Some(Step::Selftest),
        Step::WaitGfwBoot.following(false) == Some(Step::RegisterSysmemFlush),
        Step::Selftest.following(selftest) == Some(Step::RegisterSysmemFlush),
        Step::RegisterSysmemFlush.following(selftest) == Some(Step::CreateChannelIdPool),
        Step::CreateChannelIdPool.following(selftest) == Some(Step::CreateVgpuManager),
        Step::CreateVgpuManager.following(selftest) == Some(Step::CreateGspFalcon),
        Step::CreateGspFalcon.following(selftest) == Some(Step::CreateSec2Falcon),
        Step::CreateSec2Falcon.following(selftest) == Some(Step::CreateFsp),
        Step::CreateFsp.following(selftest) == Some(Step::DetectVgpuState),
        Step::DetectVgpuState.following(selftest) == Some(Step::CreateGsp),
        Step::CreateGsp.following(selftest) == Some(Step::BootGsp),
        Step::BootGsp.following(selftest) == Some(Step::CreateMm),
        Step::CreateMm.following(selftest) == Some(Step::CreateBarUser),
        Step::CreateBarUser.following(selftest) is None,
{
}

/// Each step comes after those it follows, and what has been left behind when it is made is what was
/// left behind when the one before was made and what that one leaves.
pub proof fn law_steps_leave_resources(step: Step, selftest: bool)
    ensures
        ({
            let next = match step.following(selftest) {
                Some(next) => next.place(),
                None => 15,
            };
            &&& step.place() < next
            &&& acquired_before(next) =~= match step.spec_acquires() {
                Some(resource) => acquired_before(step.place()).push(resource),
                None => acquired_before(step.place()),
            }
        }),
        acquired_before(Step::Identify.place()).len() == 0,
{
}

/// Which step leaves which resource behind.
pub proof fn law_resources_of_steps(step: Step)
    ensures
        step.spec_acquires() == Some(Resource::SysmemFlush) <==> step == Step::RegisterSysmemFlush,
        step.spec_acquires() == Some(Resource::ChannelIdPool) <==> step
            == Step::CreateChannelIdPool,
        step.spec_acquires() == Some(Resource::VgpuManager) <==> step == Step::CreateVgpuManager,
        step.spec_acquires() == Some(Resource::BootedGsp) <==> step == Step::BootGsp,
        step.spec_acquires() == Some(Resource::Mm) <==> step == Step::CreateMm,
        step.spec_acquires() == Some(Resource::BarUser) <==> step == Step::CreateBarUser,
{
}

/// The order of giving a GPU up.
pub proof fn law_teardown_order()
    ensures
        spec_teardown().len() == 6,
        spec_teardown()[0] == Resource::VgpuManager,
        spec_teardown()[1] == Resource::BarUser,
        spec_teardown()[2] == Resource::Mm,
        spec_teardown()[3] == Resource::BootedGsp,
        spec_teardown()[4] == Resource::ChannelIdPool,
        spec_teardown()[5] == Resource::SysmemFlush,
{
}

/// Each usable region is managed as a whole, in chunks of 4096 bytes.
pub proof fn law_managed_regions(regions: Seq<Range<u64>>, i: int)
    requires
        0 <= i < regions.len(),
        regions[i].start <= regions[i].end,
    ensures
        buddy_params_of(regions).len() == regions.len(),
        buddy_params_of(regions)[i].base_offset == regions[i].start,
        buddy_params_of(regions)[i].base_offset + buddy_params_of(regions)[i].size == regions[i].end,
        buddy_params_of(regions)[i].chunk_size == 4096,
{
}

/// The regions are aligned to the VMMU segment size where there is one, which has to be a power of two,
/// and to 4096 bytes otherwise.
pub proof fn law_base_alignment(size: u64)
    ensures
        base_alignment_of(None) == Ok::<usize, Error>(4096),
        size > usize::MAX ==> base_alignment_of(Some(size)) == Err::<usize, Error>(
            Error::EOVERFLOW,
        ),
        size <= usize::MAX && power_of_two(size as nat) ==> base_alignment_of(Some(size)) == Ok::<
            usize,
            Error,
        >(size as usize),
        size <= usize::MAX && !power_of_two(size as nat) ==> base_alignment_of(Some(size)) == Err::<
            usize,
            Error,
        >(Error::EINVAL),
{
}

/// The sizes of regions add up.
pub proof fn law_sizes_add_up(regions: Seq<Range<u64>>, region: Range<u64>)
    ensures
        regions_size(Seq::empty()) == 0,
        regions_size(regions.push(region)) == regions_size(regions) + region.end - region.start,
{
    assert(regions.push(region).drop_last() =~= regions);
}

} // verus!
