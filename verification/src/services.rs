//! The operations of the service.

pub mod auth_service;
pub mod pipeline;
pub mod stock_service;
pub mod trade_service;
