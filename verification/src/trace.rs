//! Tracepoint helpers.

use vstd::prelude::*;
use vstd::slice::slice_subrange;

verus! {

/// Largest length of the message of a trace event.
pub const MESSAGE_MAX: usize = 512;

/// Returns what a trace event emits of a formatted message: as much as fits.
pub fn nova_core_trace_message<'a>(message: &'a [u8]) -> (emitted: &'a [u8])
    ensures
        emitted@ == if message@.len() <= MESSAGE_MAX {
            message@
        } else {
            message@.take(512)
        },
{
    if message.len() <= MESSAGE_MAX {
        return message;
    }
    assert(message@.subrange(0, 512) =~= message@.take(512));
    slice_subrange(message, 0, MESSAGE_MAX)
}

} // verus!
