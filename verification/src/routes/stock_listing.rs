//! The boundary of the stock-listing operation.

use vstd::prelude::*;

verus! {

/// The HTTP status of a request for a listing that failed: a client error,
/// whether the request lacked its user or the store refused the query.
pub const FAILURE_STATUS: u16 = 400;

} // verus!
