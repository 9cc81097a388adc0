//! The boundary to the privileged opening of device files.
use vstd::prelude::*;

verus! {

/// Judges what the opening of a device file returned: a negative value is
/// no descriptor, and anything else is the descriptor. The native layer is
/// told of the absence and fails the device; nothing else comes of it.
pub fn open_restricted(fd: i32) -> (r: Option<i32>)
    ensures
        r == if fd < 0 {
            None
        } else {
            Some(fd)
        },
{
    if fd < 0 {
        None
    } else {
        Some(fd)
    }
}

} // verus!
