//! Decoding VSF binary data back into values.

pub mod determinism;
pub mod helpers;
pub mod metadata;
pub mod parse;
pub mod primitives;
pub mod spirix;
pub mod tensors;
pub mod toka_tree;
pub mod traits;
