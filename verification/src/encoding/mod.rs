//! Encoding values into VSF binary format.

pub mod flatten;
pub mod primitives;
pub mod traits;
