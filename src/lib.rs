//! Authenticated encryption of a payload followed by a dual-digest commitment
//! (BLAKE3 and SHA-256) over the hex form of the ciphertext, with the adapters
//! that hand the result to a ledger program, a request handler and the web
//! services.

pub mod encoding;
pub mod error;
pub mod cipher;
pub mod digest;
pub mod keys;
pub mod pipeline;
pub mod host;
pub mod services;
