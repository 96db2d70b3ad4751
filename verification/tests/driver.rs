//! Tests of the driver and its interfaces to user-space.

use nova_core::driver::{matches_device, registers_pf, sriov_configure, SriovAction};
use nova_core::drm::file::{gem_create, gem_info, get_param};
use nova_core::error::Error;
use nova_core::fwctl::{fw_rpc, fw_rpc_response, is_command_permitted, RpcScope};
use nova_core::trace::nova_core_trace_message;

#[test]
fn nvidia_gpus_are_matched() {
    assert!(matches_device(0x10de, 0x03_0000));
    assert!(matches_device(0x10de, 0x03_0201));
    assert!(!matches_device(0x10de, 0x03_8000));
    assert!(!matches_device(0x1002, 0x03_0000));
}

#[test]
fn virtual_functions_need_a_registration() {
    assert!(registers_pf(Some(4)));
    assert!(!registers_pf(None));
    assert_eq!(sriov_configure(false, 4), Err(Error::ENODEV));
    assert_eq!(sriov_configure(true, 0), Ok(SriovAction::Disable));
    assert_eq!(sriov_configure(true, 4), Ok(SriovAction::Enable(4)));
}

#[test]
fn commands_pass_through() {
    let scope = RpcScope::Configuration;
    assert!(is_command_permitted(scope, 1));
    assert_eq!(fw_rpc(scope, &[1, 0, 1, 0, 0, 0, 0, 0, 9]), Ok((0x10001, &[9u8][..])));
    assert_eq!(fw_rpc(scope, &[1, 0, 1, 0, 0, 0, 0]), Err(Error::EINVAL));
    assert_eq!(
        fw_rpc_response(0x10001, 0, &[5, 6]),
        Ok(vec![1, 0, 1, 0, 0, 0, 0, 0, 5, 6])
    );
    assert_eq!(fw_rpc_response(0x10001, 1, &[]), Err(Error::EIO));
}

#[test]
fn trace_messages_are_cut_off() {
    assert_eq!(nova_core_trace_message(b"short"), b"short");
    assert_eq!(nova_core_trace_message(&[b'x'; 600]), &[b'x'; 512][..]);
}

#[test]
fn parameters_are_queried() {
    assert_eq!(get_param(1, 1, Some(Ok(0x1000))), Ok(0x1000));
    assert_eq!(get_param(0x1_0000_0001, 1, Some(Ok(0x1000))), Ok(0x1000));
    assert_eq!(get_param(2, 1, Some(Ok(0x1000))), Err(Error::EINVAL));
    assert_eq!(get_param(1, 1, None), Err(Error::ENOENT));
    assert_eq!(get_param(1, 1, Some(Err(Error::EINVAL))), Err(Error::EINVAL));
    assert_eq!(gem_create(0x1000), Ok(0x1000));
    assert_eq!(gem_info(0x1000), 0x1000);
}
