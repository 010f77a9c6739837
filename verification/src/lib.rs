//! Verified core of a small video-search facade.
//!
//! The library models the data flowing through one search call, selects the
//! best thumbnail for each result item by a fixed quality priority, encodes
//! thumbnail bytes as base64 text, builds the upstream request URL, and maps
//! upstream outcomes to the caller-facing result or error. Network I/O and
//! serialization live outside the library and hand it plain values.

pub mod errors;
pub mod model;
pub mod search;
pub mod thumbs;
