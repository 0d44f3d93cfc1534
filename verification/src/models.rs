//! The records of the service.

pub mod stock_models;
pub mod trade_models;
pub mod users;
