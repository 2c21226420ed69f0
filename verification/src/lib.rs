//! Call-data codec and per-block decision logic of a sandwich searcher.
//!
//! The crate holds the packed-value encoder, the jump-label tables, the payload
//! assembler for the V2 and V3 variants, and the decisions that the block-driven
//! tasks take (oracle update, balance sweep, aggregation window, bundle stamping).

pub mod types;
pub mod utils;
pub mod relay;
pub mod runner;
