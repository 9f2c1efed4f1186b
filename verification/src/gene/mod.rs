//! The Gene layer: cryptographic identities, their hierarchy and signed
//! authorization tokens.

pub mod crypto;
pub mod identity;
pub mod token;
pub mod storage;
