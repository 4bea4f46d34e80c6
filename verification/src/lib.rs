//! Request handling for a small users service: identifier parsing, the
//! exchange with the document store, and the responses that come of it.

pub mod assets;
pub mod handlers;
pub mod http;
pub mod json;
pub mod laws;
pub mod object_id;
pub mod store;
pub mod user;
