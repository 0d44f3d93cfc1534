//! The boundary of the stock-details operation.

use vstd::prelude::*;

verus! {

/// The query string of a request for stock details.
#[derive(Debug, PartialEq)]
pub struct StockQuery {
    /// Accepted for later use. It has no effect on the response.
    pub detail_level: Option<String>,
}

/// The HTTP status of a request for stock details that failed: a server
/// error, whether the store failed or a record did not decode.
pub const FAILURE_STATUS: u16 = 500;

} // verus!
