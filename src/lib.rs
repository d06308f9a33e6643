//! Confidential output pipeline and attestation verification for an
//! enclave-hosted contract runtime.
pub mod attestation;
pub mod codec;
pub mod crypto;
pub mod encrypt;
pub mod envelope;
pub mod framing;
pub mod headers;
pub mod msg;
pub mod output;
pub mod pipeline;
pub mod reply;
pub mod sign;
pub mod text;
