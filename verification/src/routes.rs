//! What the HTTP boundary takes beside a request's body, and how the outcome
//! of an operation shows there.

pub mod auth;
pub mod stock_details;
pub mod stock_listing;
pub mod trade_route;
