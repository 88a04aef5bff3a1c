//! Verifier side of a hardware remote-attestation protocol: exact binary
//! decoding of attestation quotes, unwrapping of signed attestation reports
//! from an HTTP envelope, cryptographic verification of the chain of trust
//! and the report signature, and the bounded-retry policy of the client that
//! talks to the attestation authority.

pub mod client;
pub mod envelope;
pub mod codec;
pub mod errors;
pub mod verify;
