//! An append-only ledger of records, each bound to its predecessor by a
//! SHA-256 digest and sealed by a proof-of-work nonce.
pub mod block;
pub mod chain;
pub mod clock;
pub mod digest;
pub mod error;
pub mod mining;
pub mod text;
