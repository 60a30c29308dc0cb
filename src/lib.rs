//! Client-side verification of proof records: model binding, input and
//! output integrity, freshness, and the external validity flag.

pub mod hashing;
pub mod laws;
pub mod protocol;

pub use hashing::{encode, hash_data};
pub use protocol::{ParseError, ProofData, WasmVerifier};
