//! A trading simulator's back end without its plumbing: how requests become
//! store queries, and how the documents that answer them become responses.

pub mod decode;
pub mod document;
pub mod encode;
pub mod laws;
pub mod models;
pub mod object_id;
pub mod routes;
pub mod services;
pub mod time;
