//! Per-connection key derivation.
//!
//! The subkey is a fixed, externally specified function of the master secret
//! and the public salt, so that two independent endpoints derive
//! byte-identical keys and the wire stays interoperable.

use vstd::prelude::*;

verus! {

/// The subkey that the reference derivation assigns to a master secret, a
/// salt, and a requested key length.
pub uninterp spec fn derived_subkey(master: Seq<u8>, salt: Seq<u8>, key_size: int) -> Seq<u8>;

/// Relies on hkdf::Hkdf::<Sha1>::new and Hkdf::expand: HKDF-SHA1 keyed by the
/// salt, applied to the master secret, expanded under a fixed info string.
/// The output is a deterministic function of the three arguments and fills
/// exactly `key_size` bytes; `expand` accepts any length up to 255 hash
/// blocks, which the bound on `key_size` guarantees.
#[verifier::external_body]
pub fn derive_subkey_compatible(master_key: &[u8], salt: &[u8], key_size: usize) -> (r: Vec<u8>)
    requires
        key_size <= 5100,
    ensures
        r@ == derived_subkey(master_key@, salt@, key_size as int),
        r@.len() == key_size,
{
    let hk = hkdf::Hkdf::<sha1::Sha1>::new(Some(salt), master_key);
    let mut okm = vec![0u8; key_size];
    let _ = hk.expand(b"ss-subkey", &mut okm);
    okm
}

} // verus!
