//! DTLS crypto provider on top of OpenSSL.

pub mod buffer;
pub mod cipher_suite;
pub mod ec;
pub mod evp;
pub mod kx_group;
