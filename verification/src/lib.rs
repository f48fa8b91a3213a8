//! Verified pieces of a WebRTC stack: the Original Header Block of PERC double encryption, and
//! the OpenSSL-backed cipher suites and key exchange groups of its DTLS provider.

pub mod rtp;
pub mod dimpl_provider;
pub mod text;
