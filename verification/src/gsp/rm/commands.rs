//! RM control commands.

use vstd::prelude::*;

use crate::bytes::le_value;
use crate::error::Error;
use crate::gsp::fw::rm::{
    CeGetFaultMethodBufferSizeParams, GspRmControl, RmControlCodes, RmControlMsgFunction,
};

verus! {

/// Command for sending an RM control message to the GSP.
pub struct RmControl<'a> {
    pub h_client: u32,
    pub h_object: u32,
    pub cmd: RmControlMsgFunction,
    pub params: &'a [u8],
}

impl<'a> RmControl<'a> {
    /// Creates a new RM control command.
    pub fn new(h_client: u32, h_object: u32, cmd: RmControlMsgFunction, params: &'a [u8]) -> (control:
        Self)
        ensures
            control.h_client == h_client,
            control.h_object == h_object,
            control.cmd == cmd,
            control.params@ == params@,
    {
        RmControl { h_client, h_object, cmd, params }
    }

    /// Returns the fixed part of the command. The parameters follow it.
    pub fn init(&self, codes: &RmControlCodes) -> (message: GspRmControl)
        ensures
            message == (GspRmControl {
                h_client: self.h_client,
                h_object: self.h_object,
                cmd: codes.code(self.cmd),
                status: 0,
                params_size: self.params@.len() as u32,
                flags: 0,
            }),
    {
        GspRmControl::new(
            self.h_client,
            self.h_object,
            codes.into_raw(self.cmd),
            self.params.len() as u32,
        )
    }

    /// Returns the length of the part of the command that follows the fixed part.
    pub fn variable_payload_len(&self) -> (len: usize)
        ensures
            len == self.params@.len(),
    {
        self.params.len()
    }
}

/// Response from an RM control message.
pub struct RmControlReply {
    /// What the status of the response means.
    pub status: Result<(), Error>,
    /// Parameters of the response.
    pub params: Vec<u8>,
}

/// Checks the status of the reply to an RM control command, and returns the raw parameter bytes.
pub fn send_rm_control(reply: RmControlReply) -> (params: Result<Vec<u8>, Error>)
    ensures
        params == match reply.status {
            Ok(_) => Ok::<Vec<u8>, Error>(reply.params),
            Err(error) => Err(error),
        },
{
    match reply.status {
        Ok(_) => Ok(reply.params),
        Err(error) => Err(error),
    }
}

/// Returns the parameters of the request for the CE fault method buffer size: four zero bytes.
pub fn ce_fault_method_buffer_size_request() -> (params: Vec<u8>)
    ensures
        params@ == seq![0u8, 0u8, 0u8, 0u8],
{
    let params = vec![0, 0, 0, 0];
    params
}

/// Returns the CE fault method buffer size in bytes, from the reply to its RM control command.
pub fn get_ce_fault_method_buffer_size(reply: RmControlReply) -> (size: Result<u32, Error>)
    ensures
        size == match reply.status {
            Ok(_) => if reply.params@.len() == 4 {
                Ok::<u32, Error>(le_value(reply.params@) as u32)
            } else {
                Err(Error::EINVAL)
            },
            Err(error) => Err(error),
        },
{
    let params = match send_rm_control(reply) {
        Ok(params) => params,
        Err(error) => {
            return Err(error);
        },
    };
    match CeGetFaultMethodBufferSizeParams::from_bytes(params.as_slice()) {
        Some(params) => Ok(params.size()),
        None => Err(Error::EINVAL),
    }
}

} // verus!
