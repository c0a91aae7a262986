//! Verified client-side model for a home-automation gateway.
//!
//! The library owns the session/token lifecycle, the one-time configuration
//! cache, the factory that classifies remote functions into typed devices,
//! and the recursive location-tree flattener.  All network transport lives
//! outside the library; every function here is a pure, verified transition
//! on the client state, taking the transport's responses as plain values.

pub mod config;
pub mod covers;
pub mod dup;
pub mod errors;
pub mod flatten;
pub mod function;
pub mod lights;
pub mod locations;
pub mod parse;
pub mod values;
pub mod x1;
