//! The display's state, read from the kernel's replies.
use vstd::prelude::*;

verus! {

/// Whether the application is in the foreground: the kernel answers 1 for
/// yes and 0 for no.
pub fn is_foreground(reply: i32) -> (b: bool)
    requires
        reply == 0 || reply == 1,
    ensures
        b == (reply == 1),
{
    reply == 1
}

} // verus!
