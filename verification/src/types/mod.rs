//! Plain-value data types that the codec and the pipeline work on.

pub mod address;
pub mod block;
pub mod signed;
pub mod pool;
pub mod uint;
