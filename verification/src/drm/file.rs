//! The requests that user-space makes of a DRM device file.

use vstd::prelude::*;

use crate::error::Error;

verus! {

/// Query GPU / driver metadata: returns the value of a parameter.
///
/// The only parameter is the size of the VRAM BAR, which has the number `vram_bar_size`; only the low
/// 32 bits of `param` tell. `bar_len` is the length of that BAR, unless it cannot be had, and is
/// `None` if the device has no parent.
pub fn get_param(param: u64, vram_bar_size: u32, bar_len: Option<Result<u64, Error>>) -> (value: Result<
    u64,
    Error,
>)
    ensures
        value == match bar_len {
            None => Err::<u64, Error>(Error::ENOENT),
            Some(bar_len) => if param % 0x1_0000_0000 == vram_bar_size {
                bar_len
            } else {
                Err(Error::EINVAL)
            },
        },
{
    let bar_len = match bar_len {
        Some(bar_len) => bar_len,
        None => {
            return Err(Error::ENOENT);
        },
    };
    if param % 0x1_0000_0000 == vram_bar_size as u64 {
        bar_len
    } else {
        Err(Error::EINVAL)
    }
}

/// Create a new DRM GEM object: returns the size of the object, which has to be one that the machine
/// can have.
pub fn gem_create(size: u64) -> (object_size: Result<usize, Error>)
    ensures
        match object_size {
            Ok(object_size) => object_size == size,
            Err(error) => size > usize::MAX && error == Error::EINVAL,
        },
{
    if size > usize::MAX as u64 {
        Err(Error::EINVAL)
    } else {
        Ok(size as usize)
    }
}

/// Query GEM metadata: returns the size of an object.
pub fn gem_info(object_size: usize) -> (size: u64)
    ensures
        size == object_size,
{
    object_size as u64
}

} // verus!
