//! The error taxonomy of the stream layer.

use vstd::prelude::*;

verus! {

#[verifier::external_type_specification]
#[verifier::external_body]
pub struct ExIoError(std::io::Error);

/// Every failure this layer can surface. All of them are fatal to the
/// stream: there is no retry and no resynchronisation.
#[derive(Debug)]
pub enum Error {
    /// Transport read/write failure or premature close, propagated unchanged.
    IOError(std::io::Error),
    /// Failure to produce ciphertext, such as an exhausted nonce counter.
    EncryptionError,
    /// Authentication failure on a chunk: tampering or desynchronised state.
    DecryptionError,
}

/// The generic, Other-kind I/O error value carrying a given message: what
/// the constructor below assigns to that message, and nothing more specific.
pub uninterp spec fn generic_io_error(msg: Seq<char>) -> std::io::Error;

/// Relies on std::io::Error::new to build the generic (Other-kind) error
/// carrying the given message, a value determined by the message alone.
#[verifier::external_body]
fn other_io_error(msg: &str) -> (r: std::io::Error)
    ensures
        r == generic_io_error(msg@),
{
    std::io::Error::new(std::io::ErrorKind::Other, msg)
}

/// Normalises a stream-layer failure to a plain I/O error, so that an
/// adaptation to a generic I/O interface never leaks cryptographic detail.
/// A transport failure passes through unchanged; each cryptographic failure
/// maps to the generic error naming only its category.
pub fn convert_to_io_error(error: Error) -> (r: std::io::Error)
    ensures
        (match error {
            Error::IOError(e) => r == e,
            Error::EncryptionError => r == generic_io_error("Encryption error"@),
            Error::DecryptionError => r == generic_io_error("Decryption error"@),
        }),
{
    match error {
        Error::IOError(e) => e,
        Error::EncryptionError => other_io_error("Encryption error"),
        Error::DecryptionError => other_io_error("Decryption error"),
    }
}

} // verus!
