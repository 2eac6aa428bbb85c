//! Checksums of byte streams under a closed set of algorithms.

pub mod algorithm;
pub mod backend;
pub mod accumulator;
pub mod engine;
pub mod laws;
pub mod hex;
