//! fwctl driver for GMC API pass-through.

use vstd::prelude::*;
use vstd::slice::slice_subrange;

use crate::bytes::{le_bytes, le_value, lemma_pow256_values, push_le, read_le};
use crate::error::Error;

verus! {

/// What a user of the device is allowed to do.
#[derive(Clone, Copy, Debug, PartialEq, Eq, Structural)]
pub enum RpcScope {
    /// Read and write the configuration of the device.
    Configuration,
    /// Read debug information of the device.
    DebugReadOnly,
    /// Write debug information of the device, without changing what the kernel relies on.
    DebugWrite,
    /// Write all debug information of the device.
    DebugWriteFull,
}

/// Size of the header of a request and of a response: the command ID, and a reserved word.
pub const RPC_HEADER_SIZE: usize = 8;

/// Largest size of the response to a pass-through command.
pub const GSP_GMC_MAX_RESPONSE_SIZE: u32 = 16384;

/// Check whether `command_id` is permitted for the given `scope`. Every command is.
pub fn is_command_permitted(scope: RpcScope, command_id: u32) -> (permitted: bool)
    ensures
        permitted,
{
    true
}

/// Returns the command that a request asks for, and its payload.
pub fn fw_rpc<'a>(scope: RpcScope, rpc_in: &'a [u8]) -> (command: Result<(u32, &'a [u8]), Error>)
    ensures
        match command {
            Ok((command_id, payload)) => {
                &&& rpc_in@.len() >= RPC_HEADER_SIZE
                &&& command_id == le_value(rpc_in@.take(4))
                &&& payload@ == rpc_in@.skip(8)
            },
            Err(error) => rpc_in@.len() < RPC_HEADER_SIZE && error == Error::EINVAL,
        },
{
    if rpc_in.len() < RPC_HEADER_SIZE {
        return Err(Error::EINVAL);
    }
    proof {
        lemma_pow256_values();
        assert(rpc_in@.subrange(0, 4) =~= rpc_in@.take(4));
        assert(rpc_in@.subrange(8, rpc_in@.len() as int) =~= rpc_in@.skip(8));
    }
    let command_id: u32 = read_le(rpc_in, 0, 4) as u32;
    if !is_command_permitted(scope, command_id) {
        return Err(Error::EPERM);
    }
    Ok((command_id, slice_subrange(rpc_in, RPC_HEADER_SIZE, rpc_in.len())))
}

/// Returns the response to a request, from the status and the payload that the firmware answered
/// with.
pub fn fw_rpc_response(command_id: u32, status: u32, payload: &[u8]) -> (response: Result<
    Vec<u8>,
    Error,
>)
    ensures
        match response {
            Ok(response) => {
                &&& status == 0
                &&& response@ == le_bytes(command_id as nat, 4) + le_bytes(0, 4) + payload@
            },
            Err(error) => status != 0 && error == Error::EIO,
        },
{
    if status != 0 {
        return Err(Error::EIO);
    }
    let mut response: Vec<u8> = Vec::new();
    push_le(&mut response, command_id as u64, 4);
    push_le(&mut response, 0, 4);
    response.extend_from_slice(payload);
    assert(response@ =~= le_bytes(command_id as nat, 4) + le_bytes(0, 4) + payload@);
    Ok(response)
}

/// A response names the command that its request did.
pub proof fn law_response_names_command(command_id: u32, payload: Seq<u8>)
    ensures
        ({
            let response = le_bytes(command_id as nat, 4) + le_bytes(0, 4) + payload;
            &&& response.len() == RPC_HEADER_SIZE + payload.len()
            &&& le_value(response.take(4)) == command_id
            &&& response.skip(8) == payload
        }),
{
    let response = le_bytes(command_id as nat, 4) + le_bytes(0, 4) + payload;
    lemma_pow256_values();
    crate::bytes::lemma_le_bytes_len(command_id as nat, 4);
    crate::bytes::lemma_le_bytes_len(0, 4);
    crate::bytes::lemma_le_value_of_le_bytes(command_id as nat, 4);
    assert(response.take(4) =~= le_bytes(command_id as nat, 4));
    assert(response.skip(8) =~= payload);
}

} // verus!
