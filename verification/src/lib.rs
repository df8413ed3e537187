//! Client-side engine for a WASM deployment platform: credential lifecycle
//! with expiry semantics, normalized API error handling, module-reference
//! resolution, and construction of the host-configuration wire payloads.

pub mod api;
pub mod credentials;
pub mod envvar;
pub mod errors;
pub mod jsontext;
pub mod numerals;
pub mod payload;
pub mod scan;
pub mod workflow;
