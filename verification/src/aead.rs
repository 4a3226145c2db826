//! The AEAD primitive behind the stream, taken on trust from its crate.

use aes_gcm::aead::Aead;
use aes_gcm::aead::KeyInit;
use vstd::prelude::*;

verus! {

/// The ciphertext (message followed by its tag) that AES-256-GCM assigns to a
/// key, a nonce and a plaintext.
pub uninterp spec fn aes256_gcm_seal(key: Seq<u8>, nonce: Seq<u8>, plaintext: Seq<u8>) -> Seq<u8>;

/// Relies on aes_gcm::Aes256Gcm (KeyInit::new_from_slice, Aead::encrypt):
/// sealing is a deterministic function of key, nonce and plaintext, and the
/// ciphertext is the encrypted message followed by the 16-byte tag. With a
/// key of the right length, encryption refuses only a message longer than
/// the cipher's limit of 2^36 bytes, so anything within it seals.
#[verifier::external_body]
pub(crate) fn aes256_seal(key: &[u8], nonce: &[u8], plaintext: &[u8]) -> (r: Option<Vec<u8>>)
    requires
        key@.len() == 32,
        nonce@.len() == 12,
        plaintext@.len() + 16 <= usize::MAX,
    ensures
        r matches Some(c) ==> c@ == aes256_gcm_seal(key@, nonce@, plaintext@)
            && c@.len() == plaintext@.len() + 16,
        plaintext@.len() <= 0x10_0000_0000 ==> r is Some,
{
    let cipher = match aes_gcm::Aes256Gcm::new_from_slice(key) {
        Ok(c) => c,
        Err(_) => return None,
    };
    cipher.encrypt(aes_gcm::Nonce::from_slice(nonce), plaintext).ok()
}

/// Relies on aes_gcm::Aes256Gcm (KeyInit::new_from_slice, Aead::decrypt):
/// opening verifies the tag and succeeds exactly on ciphertexts that sealing
/// under the same key and nonce produces, returning that sealed message with
/// the tag stripped; on any other input it reports failure and returns no
/// plaintext bytes.
#[verifier::external_body]
pub(crate) fn aes256_open(key: &[u8], nonce: &[u8], ciphertext: &[u8]) -> (r: Option<Vec<u8>>)
    requires
        key@.len() == 32,
        nonce@.len() == 12,
    ensures
        r matches Some(p) ==> ciphertext@ == aes256_gcm_seal(key@, nonce@, p@)
            && p@.len() + 16 == ciphertext@.len(),
        r matches Some(p) ==> forall|q: Seq<u8>|
            ciphertext@ == aes256_gcm_seal(key@, nonce@, q) ==> q == p@,
        r is None ==> forall|q: Seq<u8>| ciphertext@ != aes256_gcm_seal(key@, nonce@, q),
{
    let cipher = match aes_gcm::Aes256Gcm::new_from_slice(key) {
        Ok(c) => c,
        Err(_) => return None,
    };
    cipher.decrypt(aes_gcm::Nonce::from_slice(nonce), ciphertext).ok()
}

} // verus!
