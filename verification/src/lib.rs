//! Core logic of a URL-shortening service.
//!
//! The library holds everything that can be stated and proved: short-id
//! generation, the validation and translation steps of the two HTTP
//! handlers, and a mathematical model of the external key-value store
//! that the service keeps its mappings in. The network itself (the HTTP
//! server and the store connection) lives outside the library and hands
//! these functions plain values.

pub mod id;
pub mod store;
pub mod handlers;
