//! The mobile bridge and the passkey (WebAuthn) challenge engine.

pub mod bridge;
pub mod passkey;
