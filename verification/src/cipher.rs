//! Static metadata for the supported cipher variants.

use vstd::prelude::*;

verus! {

/// The closed set of AEAD cipher variants a connection may choose from.
#[derive(Clone, Copy, PartialEq, Eq, Structural, Debug)]
pub enum CipherType {
    Aes256GCM,
}

/// How a crypter picks the nonce for each seal or open operation.
#[derive(Clone, Copy, PartialEq, Eq, Structural, Debug)]
pub enum NonceType {
    /// A monotonic counter, starting at zero, advanced by one per operation.
    Sequential,
    /// A fresh random nonce per operation, carried in front of the ciphertext.
    Random,
}

/// Sizing metadata of one cipher variant; every other component uses it to
/// size buffers.
#[derive(Clone, Copy, PartialEq, Eq, Structural, Debug)]
pub struct CipherSpec {
    /// Length in bytes of the public per-direction salt.
    pub salt_size: usize,
    /// Length in bytes of the derived symmetric key.
    pub key_size: usize,
    /// Bytes the AEAD adds to a message: the authentication tag.
    pub tag_size: usize,
    /// Length in bytes of one nonce.
    pub nonce_size: usize,
}

impl CipherType {
    /// The sizing metadata of this variant, as a pure mathematical function.
    pub open spec fn spec_params(self) -> CipherSpec {
        match self {
            CipherType::Aes256GCM => CipherSpec {
                salt_size: 32,
                key_size: 32,
                tag_size: 16,
                nonce_size: 12,
            },
        }
    }

    /// The sizing metadata of this variant.
    pub fn params(self) -> (r: CipherSpec)
        ensures
            r == self.spec_params(),
    {
        match self {
            CipherType::Aes256GCM => CipherSpec {
                salt_size: 32,
                key_size: 32,
                tag_size: 16,
                nonce_size: 12,
            },
        }
    }
}

} // verus!
