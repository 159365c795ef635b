//! The control plane's answers: which status a request ends with.

use vstd::prelude::*;

verus! {

/// The status of a request that was carried out.
pub const OK: u16 = 200;

/// The status of a request that failed.
pub const INTERNAL_SERVER_ERROR: u16 = 500;

/// The status that answers a request: 200 where the supervisor carried it
/// out, 500 where it failed.
pub fn status(carried_out: bool) -> (code: u16)
    ensures
        code == (if carried_out {
            OK
        } else {
            INTERNAL_SERVER_ERROR
        }),
{
    if carried_out {
        OK
    } else {
        INTERNAL_SERVER_ERROR
    }
}

} // verus!
