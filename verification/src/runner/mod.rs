//! What the block-driven tasks decide on each event; the tasks themselves, and
//! what they wait for, are the caller's.

pub mod bundle_sender;
pub mod oracles;
pub mod state;
