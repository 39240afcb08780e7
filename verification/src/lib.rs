//! A model of a minimal user-persistence service: one entity
//! ("user") with a create-one and a list-all operation, handlers that
//! map request outcomes to HTTP status codes and JSON bodies,
//! and the SQL text the data layer executes.

pub mod errors;
pub mod handlers;
pub mod http;
pub mod json;
pub mod laws;
pub mod models;
pub mod sql;
pub mod store;
pub mod validate;
