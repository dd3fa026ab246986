//! Low-level debug output, switched at build time.

use vstd::prelude::*;

verus! {

/// The line to print for a debug message, or `None` when debug output is
/// off. `enabled` is the build's debug-output switch.
pub fn ll_debug(msg: &str, enabled: bool) -> (r: Option<String>)
    ensures
        enabled ==> r is Some && r->0@ == msg@,
        !enabled ==> r is None,
{
    if enabled {
        Some(msg.to_owned())
    } else {
        None
    }
}

} // verus!
