//! File hashing engine: one pass over a file's bytes feeds every requested
//! digest algorithm, with contracts over named digest functions.

pub mod algo;
pub mod digests;
pub mod adapters;
pub mod encoding;
pub mod engine;
pub mod multi;
pub mod strategy;
pub mod text;
pub mod format;
pub mod state;
pub mod laws;
