//! Detection of the vGPU boot mode.

use vstd::prelude::*;

use crate::error::Error;

verus! {

/// The vGPU mode that the FSP reports for this boot.
#[derive(Debug, Clone, Copy, PartialEq, Eq, Structural)]
pub enum VgpuMode {
    /// vGPU mode is off.
    Disabled,
    /// vGPU mode is on.
    Enabled,
}

impl VgpuMode {
    /// The mode that a knob of the given value stands for.
    pub open spec fn of_code(code: u16) -> Option<VgpuMode> {
        if code == 0 {
            Some(VgpuMode::Disabled)
        } else if code == 1 {
            Some(VgpuMode::Enabled)
        } else {
            None
        }
    }

    /// Returns the mode that a knob of the given value stands for.
    pub fn try_from(value: u16) -> (mode: Result<VgpuMode, Error>)
        ensures
            mode == match VgpuMode::of_code(value) {
                Some(mode) => Ok::<VgpuMode, Error>(mode),
                None => Err(Error::EINVAL),
            },
    {
        match value {
            0 => Ok(VgpuMode::Disabled),
            1 => Ok(VgpuMode::Enabled),
            _ => Err(Error::EINVAL),
        }
    }
}

/// vGPU state detected during GPU construction.
#[derive(Debug, Clone, Copy, PartialEq, Eq, Structural)]
pub enum VgpuState {
    /// vGPU mode is not enabled for this boot.
    Disabled,
    /// vGPU mode is enabled for this boot.
    Enabled {
        /// Total number of SR-IOV VFs supported by this device.
        total_vfs: u16,
    },
}

/// What detecting the vGPU state takes after the device has been looked at.
#[derive(Debug, Clone, Copy, PartialEq, Eq, Structural)]
pub enum VgpuQuery {
    /// Nothing more: this is the state.
    Known(VgpuState),
    /// The FSP has to be asked, and there is none.
    NoFsp,
    /// The FSP has to be asked for the mode of a device with this many VFs.
    AskFsp {
        /// Total number of SR-IOV VFs supported by this device.
        total_vfs: u16,
    },
}

/// The vGPU state of a device. `mode` is what the FSP answers if it is asked.
///
/// Devices with fewer than two VFs are treated as vGPU-disabled.
pub open spec fn queried(
    supports_vgpu: bool,
    total_vfs: Option<u16>,
    has_fsp: bool,
    mode: Result<VgpuMode, Error>,
) -> Result<VgpuState, Error> {
    if !supports_vgpu || total_vfs is None || total_vfs.unwrap() < 2 {
        Ok(VgpuState::Disabled)
    } else if !has_fsp {
        Err(Error::ENODEV)
    } else {
        match mode {
            Ok(VgpuMode::Enabled) => Ok(VgpuState::Enabled { total_vfs: total_vfs.unwrap() }),
            Ok(VgpuMode::Disabled) => Ok(VgpuState::Disabled),
            Err(error) => Err(error),
        }
    }
}

impl VgpuQuery {
    /// The state that comes of this query, where `mode` is what the FSP answers.
    pub open spec fn answered(self, mode: Result<VgpuMode, Error>) -> Result<VgpuState, Error> {
        match self {
            VgpuQuery::Known(state) => Ok(state),
            VgpuQuery::NoFsp => Err(Error::ENODEV),
            VgpuQuery::AskFsp { total_vfs } => match mode {
                Ok(VgpuMode::Enabled) => Ok(VgpuState::Enabled { total_vfs }),
                Ok(VgpuMode::Disabled) => Ok(VgpuState::Disabled),
                Err(error) => Err(error),
            },
        }
    }

    /// Looks at whether the chipset supports vGPU, at the number of VFs of the device, if it has
    /// SR-IOV, and at whether there is an FSP.
    pub fn start(supports_vgpu: bool, total_vfs: Option<u16>, has_fsp: bool) -> (query: VgpuQuery)
        ensures
            forall|mode: Result<VgpuMode, Error>| #[trigger]
                query.answered(mode) == queried(supports_vgpu, total_vfs, has_fsp, mode),
            query is AskFsp <==> supports_vgpu && has_fsp && total_vfs is Some
                && total_vfs.unwrap() >= 2,
    {
        if !supports_vgpu {
            return VgpuQuery::Known(VgpuState::Disabled);
        }
        match total_vfs {
            None => VgpuQuery::Known(VgpuState::Disabled),
            Some(total_vfs) => {
                if total_vfs < 2 {
                    VgpuQuery::Known(VgpuState::Disabled)
                } else if !has_fsp {
                    VgpuQuery::NoFsp
                } else {
                    VgpuQuery::AskFsp { total_vfs }
                }
            },
        }
    }

    /// Returns the state, where `mode` is what the FSP answered. It counts only if the FSP had to
    /// be asked.
    pub fn finish(self, mode: Result<VgpuMode, Error>) -> (state: Result<VgpuState, Error>)
        ensures
            state == self.answered(mode),
    {
        match self {
            VgpuQuery::Known(state) => Ok(state),
            VgpuQuery::NoFsp => Err(Error::ENODEV),
            VgpuQuery::AskFsp { total_vfs } => {
                match mode {
                    Ok(VgpuMode::Enabled) => Ok(VgpuState::Enabled { total_vfs }),
                    Ok(VgpuMode::Disabled) => Ok(VgpuState::Disabled),
                    Err(error) => Err(error),
                }
            },
        }
    }
}

impl VgpuState {
    /// Returns the boot mode, which is disabled if querying the device failed.
    pub fn detect(queried: Result<VgpuState, Error>) -> (state: VgpuState)
        ensures
            state == match queried {
                Ok(state) => state,
                Err(_) => VgpuState::Disabled,
            },
    {
        match queried {
            Ok(state) => state,
            Err(_) => VgpuState::Disabled,
        }
    }

    /// Returns the number of VFs of an enabled boot.
    pub fn total_vfs(self) -> (total_vfs: Option<u16>)
        ensures
            total_vfs == match self {
                VgpuState::Enabled { total_vfs } => Some(total_vfs),
                VgpuState::Disabled => None,
            },
    {
        match self {
            VgpuState::Enabled { total_vfs } => Some(total_vfs),
            VgpuState::Disabled => None,
        }
    }
}

/// Runtime parameters of an enabled vGPU boot. `E` is the list of FIFO engines that GSP-RM reported.
pub struct VgpuManager<E> {
    vmmu_segment_size: u64,
    total_channels: u32,
    fifo_engine_list: E,
}

impl<E> VgpuManager<E> {
    /// The VMMU segment size in bytes.
    pub closed spec fn spec_vmmu_segment_size(&self) -> u64 {
        self.vmmu_segment_size
    }

    /// The number of channels.
    pub closed spec fn spec_total_channels(&self) -> u32 {
        self.total_channels
    }

    /// The list of FIFO engines.
    pub closed spec fn spec_fifo_engine_list(&self) -> E {
        self.fifo_engine_list
    }

    /// Retains runtime parameters from a completed vGPU-enabled GSP boot.
    pub fn new(fifo_engine_list: E, vmmu_segment_size: u64, total_channels: u32) -> (manager: Self)
        ensures
            manager.spec_fifo_engine_list() == fifo_engine_list,
            manager.spec_vmmu_segment_size() == vmmu_segment_size,
            manager.spec_total_channels() == total_channels,
    {
        VgpuManager { vmmu_segment_size, total_channels, fifo_engine_list }
    }

    /// Returns the VMMU segment size in bytes, or zero if GSP-RM omitted it.
    pub fn vmmu_segment_size(&self) -> (size: u64)
        ensures
            size == self.spec_vmmu_segment_size(),
    {
        self.vmmu_segment_size
    }

    /// Returns the number of channels.
    pub fn total_channels(&self) -> (count: u32)
        ensures
            count == self.spec_total_channels(),
    {
        self.total_channels
    }

    /// Returns the list of FIFO engines.
    pub fn fifo_engine_list(&self) -> (list: &E)
        ensures
            *list == self.spec_fifo_engine_list(),
    {
        &self.fifo_engine_list
    }
}

/// A boot is vGPU-enabled only where the chipset supports it, the device has at least two VFs and
/// the FSP says so.
pub proof fn law_enabled_needs_support(
    supports_vgpu: bool,
    total_vfs: Option<u16>,
    has_fsp: bool,
    mode: Result<VgpuMode, Error>,
)
    ensures
        queried(supports_vgpu, total_vfs, has_fsp, mode) matches Ok(
            VgpuState::Enabled { total_vfs: vfs },
        ) ==> supports_vgpu && has_fsp && total_vfs == Some(vfs) && vfs >= 2 && mode == Ok::<
            VgpuMode,
            Error,
        >(VgpuMode::Enabled),
{
}

/// The knob has two values: 0 for off and 1 for on.
pub proof fn law_vgpu_mode_numbers(code: u16)
    ensures
        VgpuMode::of_code(0) == Some(VgpuMode::Disabled),
        VgpuMode::of_code(1) == Some(VgpuMode::Enabled),
        code > 1 ==> VgpuMode::of_code(code) is None,
{
}

/// The state of a device: without support, SR-IOV or a second VF it is disabled and nothing is asked.
/// Otherwise there has to be an FSP, and the state is what it answers.
pub proof fn law_vgpu_state(vfs: u16, has_fsp: bool, mode: Result<VgpuMode, Error>, error: Error)
    ensures
        queried(false, Some(vfs), has_fsp, mode) == Ok::<VgpuState, Error>(VgpuState::Disabled),
        queried(true, None, has_fsp, mode) == Ok::<VgpuState, Error>(VgpuState::Disabled),
        vfs < 2 ==> queried(true, Some(vfs), has_fsp, mode) == Ok::<VgpuState, Error>(
            VgpuState::Disabled,
        ),
        vfs >= 2 ==> {
            &&& queried(true, Some(vfs), false, mode) == Err::<VgpuState, Error>(Error::ENODEV)
            &&& queried(true, Some(vfs), true, Ok(VgpuMode::Enabled)) == Ok::<VgpuState, Error>(
                VgpuState::Enabled { total_vfs: vfs },
            )
            &&& queried(true, Some(vfs), true, Ok(VgpuMode::Disabled)) == Ok::<VgpuState, Error>(
                VgpuState::Disabled,
            )
            &&& queried(true, Some(vfs), true, Err(error)) == Err::<VgpuState, Error>(error)
        },
{
}

/// What comes of a query: the state that was known, or the answer of the FSP.
pub proof fn law_query_answers(
    state: VgpuState,
    total_vfs: u16,
    mode: Result<VgpuMode, Error>,
    error: Error,
)
    ensures
        VgpuQuery::Known(state).answered(mode) == Ok::<VgpuState, Error>(state),
        VgpuQuery::NoFsp.answered(mode) == Err::<VgpuState, Error>(Error::ENODEV),
        (VgpuQuery::AskFsp { total_vfs }).answered(Ok(VgpuMode::Enabled)) == Ok::<VgpuState, Error>(
            VgpuState::Enabled { total_vfs },
        ),
        (VgpuQuery::AskFsp { total_vfs }).answered(Ok(VgpuMode::Disabled)) == Ok::<
            VgpuState,
            Error,
        >(VgpuState::Disabled),
        (VgpuQuery::AskFsp { total_vfs }).answered(Err(error)) == Err::<VgpuState, Error>(error),
{
}

} // verus!
