//! Secure framing layer of an encrypted tunnel.
//!
//! The crate turns a raw duplex byte stream into a sequence of authenticated,
//! confidential packages: a per-connection subkey is derived from a long-lived
//! master secret and a public salt, and each package travels as two
//! AEAD-protected chunks (an encrypted two-byte length, then the encrypted
//! body) sealed under sequential nonces.

pub mod aead;
pub mod cipher;
pub mod crypter;
pub mod error;
pub mod framing;
pub mod kdf;

pub use cipher::CipherSpec;
pub use cipher::CipherType;
pub use cipher::NonceType;
pub use crypter::Crypter;
pub use crypter::create_crypter;
pub use crypter::derive_crypter;
pub use crypter::generate_salt;
pub use error::Error;
pub use error::convert_to_io_error;
pub use framing::LENGTH_SIZE;
pub use framing::MAX_PACKAGE_SIZE;
pub use framing::open_length_chunk;
pub use framing::seal_package;
