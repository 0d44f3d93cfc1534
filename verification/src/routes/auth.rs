//! The boundary of logging in and registering.

use vstd::prelude::*;

verus! {

/// The HTTP status of a login or a registration: success where it went
/// through, a client error where it was refused, whatever the reason.
pub fn reply_status(accepted: bool) -> (status: u16)
    ensures
        status == if accepted { 200u16 } else { 400u16 },
{
    if accepted {
        200
    } else {
        400
    }
}

} // verus!
