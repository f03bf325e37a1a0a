//! VSF (Versatile Storage Format): a self-describing binary format with exponential-width
//! integer encoding, typed cryptographic fields, bitpacked tensors and Spirix numbers.

pub mod bytes;
pub mod decode_laws;
pub mod decoding;
pub mod decrypt;
pub mod encoding;
pub mod eggs;
pub mod elements;
pub mod ewe;
pub mod list_laws;
pub mod roundtrip;
pub mod roundtrip_parts;
pub mod spirix;
pub mod toka;
pub mod types;
pub mod wire_laws;
