//! RM control messages.

use vstd::prelude::*;

use crate::bytes::{le_value, lemma_pow256_values, read_le};
use crate::error::Error;

verus! {

/// Command code for RM control RPCs sent using
/// [`MsgFunction::GspRmControl`](crate::gsp::fw::MsgFunction::GspRmControl).
#[derive(Clone, Copy, Debug, PartialEq, Eq, Structural)]
pub enum RmControlMsgFunction {
    /// Get the CE fault method buffer size.
    CeGetFaultMethodBufferSize,
    /// Upload vGPU type definitions to GSP.
    VgpuMgrInternalPgpuAddVgpuType,
}

/// The numbers that the firmware interface gives the RM control commands.
#[derive(Clone, Copy, Debug, PartialEq, Eq, Structural)]
pub struct RmControlCodes {
    /// `NV2080_CTRL_CMD_CE_GET_FAULT_METHOD_BUFFER_SIZE`.
    pub ce_get_fault_method_buffer_size: u32,
    /// `NV2080_CTRL_CMD_VGPU_MGR_INTERNAL_PGPU_ADD_VGPU_TYPE`.
    pub vgpu_mgr_internal_pgpu_add_vgpu_type: u32,
}

impl RmControlCodes {
    /// The number of a command.
    pub open spec fn code(self, function: RmControlMsgFunction) -> u32 {
        match function {
            RmControlMsgFunction::CeGetFaultMethodBufferSize => {
                self.ce_get_fault_method_buffer_size
            },
            RmControlMsgFunction::VgpuMgrInternalPgpuAddVgpuType => {
                self.vgpu_mgr_internal_pgpu_add_vgpu_type
            },
        }
    }

    /// The commands have different numbers.
    pub open spec fn wf(self) -> bool {
        self.ce_get_fault_method_buffer_size != self.vgpu_mgr_internal_pgpu_add_vgpu_type
    }

    /// Returns the number of a command.
    pub fn into_raw(&self, function: RmControlMsgFunction) -> (code: u32)
        ensures
            code == self.code(function),
    {
        match function {
            RmControlMsgFunction::CeGetFaultMethodBufferSize => {
                self.ce_get_fault_method_buffer_size
            },
            RmControlMsgFunction::VgpuMgrInternalPgpuAddVgpuType => {
                self.vgpu_mgr_internal_pgpu_add_vgpu_type
            },
        }
    }

    /// Returns the command of a number.
    pub fn try_from(&self, value: u32) -> (function: Result<RmControlMsgFunction, Error>)
        requires
            self.wf(),
        ensures
            match function {
                Ok(function) => value == self.code(function),
                Err(error) => {
                    &&& error == Error::EINVAL
                    &&& forall|function: RmControlMsgFunction|
                        value != #[trigger] self.code(function)
                },
            },
    {
        if value == self.ce_get_fault_method_buffer_size {
            Ok(RmControlMsgFunction::CeGetFaultMethodBufferSize)
        } else if value == self.vgpu_mgr_internal_pgpu_add_vgpu_type {
            Ok(RmControlMsgFunction::VgpuMgrInternalPgpuAddVgpuType)
        } else {
            Err(Error::EINVAL)
        }
    }
}

/// RM control message element structure.
#[derive(Clone, Copy, Debug, PartialEq, Eq, Structural)]
pub struct GspRmControl {
    pub h_client: u32,
    pub h_object: u32,
    pub cmd: u32,
    pub status: u32,
    pub params_size: u32,
    pub flags: u32,
}

impl GspRmControl {
    /// Creates a new RM control command.
    pub fn new(h_client: u32, h_object: u32, cmd: u32, params_size: u32) -> (control: Self)
        ensures
            control == (GspRmControl { h_client, h_object, cmd, status: 0, params_size, flags: 0 }),
    {
        GspRmControl { h_client, h_object, cmd, status: 0, params_size, flags: 0 }
    }

    /// Returns the status from the RM control response.
    pub fn status(&self) -> (status: u32)
        ensures
            status == self.status,
    {
        self.status
    }
}

/// Wrapper for the parameters of the command that gets the CE fault method buffer size.
#[derive(Clone, Copy, Debug, PartialEq, Eq, Structural)]
pub struct CeGetFaultMethodBufferSizeParams(pub u32);

/// Size of [`CeGetFaultMethodBufferSizeParams`] in bytes.
pub const CE_GET_FAULT_METHOD_BUFFER_SIZE_PARAMS_SIZE: usize = 4;

impl CeGetFaultMethodBufferSizeParams {
    /// Returns the parameters that `bytes` are.
    pub fn from_bytes(bytes: &[u8]) -> (params: Option<Self>)
        ensures
            params == if bytes@.len() == 4 {
                Some(CeGetFaultMethodBufferSizeParams(le_value(bytes@) as u32))
            } else {
                None
            },
    {
        if bytes.len() != CE_GET_FAULT_METHOD_BUFFER_SIZE_PARAMS_SIZE {
            return None;
        }
        proof {
            lemma_pow256_values();
            assert(bytes@.subrange(0, 4) =~= bytes@);
        }
        Some(CeGetFaultMethodBufferSizeParams(read_le(bytes, 0, 4) as u32))
    }

    /// Returns the CE fault method buffer size in bytes.
    pub fn size(&self) -> (size: u32)
        ensures
            size == self.0,
    {
        self.0
    }
}

/// The number of each function is the one that is set for it.
pub proof fn law_control_codes(codes: RmControlCodes)
    ensures
        codes.code(RmControlMsgFunction::CeGetFaultMethodBufferSize)
            == codes.ce_get_fault_method_buffer_size,
        codes.code(RmControlMsgFunction::VgpuMgrInternalPgpuAddVgpuType)
            == codes.vgpu_mgr_internal_pgpu_add_vgpu_type,
{
}

} // verus!
