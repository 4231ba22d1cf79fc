//! Attestation-backed trust establishment for a confidential-computing
//! network tunnel: a certificate verifier that delegates peer validation to a
//! remote attestation service while capturing the peer's evidence claims, and
//! the client-side decision logic of an HTTP upgrade handshake that carries
//! the attestation result from the handshake layer to the application layer.

pub mod attestation;
pub mod cert_verifier;
pub mod wrapping;
