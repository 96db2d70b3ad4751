//! The PCI driver.

use vstd::prelude::*;

use crate::error::Error;

verus! {

/// Size of BAR 0.
pub const BAR0_SIZE: usize = 0x100_0000;

/// PCI vendor ID of NVIDIA.
pub const VENDOR_NVIDIA: u16 = 0x10de;

/// Returns whether the driver binds to a PCI device. Modern NVIDIA GPUs will show up as either VGA or
/// 3D controllers; the programming interface, in the low byte of the class, does not matter.
pub fn matches_device(vendor: u16, class: u32) -> (result: bool)
    ensures
        result == (vendor == VENDOR_NVIDIA && (class / 256 == 0x0300 || class / 256 == 0x0302)),
{
    vendor == VENDOR_NVIDIA && (class / 256 == 0x0300 || class / 256 == 0x0302)
}

/// What to do to change the number of virtual functions.
#[derive(Clone, Copy, Debug, PartialEq, Eq, Structural)]
pub enum SriovAction {
    /// Disable them all.
    Disable,
    /// Enable this many.
    Enable(i32),
}

/// Returns whether probing a device with that many virtual functions registers it as a physical
/// function.
pub fn registers_pf(total_vfs: Option<u16>) -> (registers: bool)
    ensures
        registers == (total_vfs is Some),
{
    total_vfs.is_some()
}

/// Returns how to set the number of virtual functions to `nr_virtfn`. The device has to be registered
/// as a physical function. Once the action has succeeded, `nr_virtfn` is what is reported back.
pub fn sriov_configure(registered: bool, nr_virtfn: i32) -> (action: Result<SriovAction, Error>)
    ensures
        action == if !registered {
            Err::<SriovAction, Error>(Error::ENODEV)
        } else if nr_virtfn == 0 {
            Ok(SriovAction::Disable)
        } else {
            Ok(SriovAction::Enable(nr_virtfn))
        },
{
    if !registered {
        return Err(Error::ENODEV);
    }
    if nr_virtfn == 0 {
        Ok(SriovAction::Disable)
    } else {
        Ok(SriovAction::Enable(nr_virtfn))
    }
}

/// The numbers by which a device is matched, and the size of its register space.
pub proof fn law_device_numbers()
    ensures
        VENDOR_NVIDIA == 0x10de,
        BAR0_SIZE == 16 * 0x10_0000,
{
}

} // verus!
