//! The stateful AEAD engine: one crypter drives one direction of one
//! connection, advancing its nonce state on every operation.

use vstd::prelude::*;

use crate::aead::aes256_gcm_seal;
use crate::aead::aes256_open;
use crate::aead::aes256_seal;
use crate::cipher::CipherType;
use crate::cipher::NonceType;
use crate::error::Error;
use crate::kdf::derived_subkey;

verus! {

/// The twelve-byte nonce that a sequential crypter uses for counter value
/// `counter`: the counter in little-endian order, zero-padded.
pub open spec fn nonce_of(counter: u64) -> Seq<u8> {
    seq![
        (counter & 0xff) as u8,
        ((counter >> 8) & 0xff) as u8,
        ((counter >> 16) & 0xff) as u8,
        ((counter >> 24) & 0xff) as u8,
        ((counter >> 32) & 0xff) as u8,
        ((counter >> 40) & 0xff) as u8,
        ((counter >> 48) & 0xff) as u8,
        ((counter >> 56) & 0xff) as u8,
        0u8,
        0u8,
        0u8,
        0u8,
    ]
}

/// Distinct counter values give distinct nonces, so a sequential crypter
/// that advances its counter monotonically never repeats a nonce.
pub proof fn lemma_nonce_of_injective(c1: u64, c2: u64)
    requires
        nonce_of(c1) == nonce_of(c2),
    ensures
        c1 == c2,
{
    assert(nonce_of(c1)[0] == nonce_of(c2)[0]);
    assert(nonce_of(c1)[1] == nonce_of(c2)[1]);
    assert(nonce_of(c1)[2] == nonce_of(c2)[2]);
    assert(nonce_of(c1)[3] == nonce_of(c2)[3]);
    assert(nonce_of(c1)[4] == nonce_of(c2)[4]);
    assert(nonce_of(c1)[5] == nonce_of(c2)[5]);
    assert(nonce_of(c1)[6] == nonce_of(c2)[6]);
    assert(nonce_of(c1)[7] == nonce_of(c2)[7]);
    assert(c1 == c2) by (bit_vector)
        requires
            (c1 & 0xff) as u8 == (c2 & 0xff) as u8,
            ((c1 >> 8) & 0xff) as u8 == ((c2 >> 8) & 0xff) as u8,
            ((c1 >> 16) & 0xff) as u8 == ((c2 >> 16) & 0xff) as u8,
            ((c1 >> 24) & 0xff) as u8 == ((c2 >> 24) & 0xff) as u8,
            ((c1 >> 32) & 0xff) as u8 == ((c2 >> 32) & 0xff) as u8,
            ((c1 >> 40) & 0xff) as u8 == ((c2 >> 40) & 0xff) as u8,
            ((c1 >> 48) & 0xff) as u8 == ((c2 >> 48) & 0xff) as u8,
            ((c1 >> 56) & 0xff) as u8 == ((c2 >> 56) & 0xff) as u8,
    ;
}

/// Tamper safety, as far as the AEAD contract reaches: a chunk that opening
/// accepts is exactly a sealing of the plaintext it returns, so a chunk that
/// differs from the sealing of a message can never open to that message.
/// The receiver either gets the authentic bytes or a decryption error,
/// never a silently altered package.
pub proof fn lemma_accepted_chunk_is_authentic(
    key: Seq<u8>,
    nonce: Seq<u8>,
    chunk: Seq<u8>,
    original: Seq<u8>,
    opened: Seq<u8>,
)
    requires
        chunk != crate::aead::aes256_gcm_seal(key, nonce, original),
        chunk == crate::aead::aes256_gcm_seal(key, nonce, opened),
    ensures
        opened != original,
{
}

/// The nonce for `counter`, as executable bytes.
fn nonce_bytes(counter: u64) -> (r: Vec<u8>)
    ensures
        r@ == nonce_of(counter),
        r@.len() == 12,
{
    let mut nonce: Vec<u8> = Vec::new();
    nonce.push((counter & 0xff) as u8);
    nonce.push(((counter >> 8u64) & 0xff) as u8);
    nonce.push(((counter >> 16u64) & 0xff) as u8);
    nonce.push(((counter >> 24u64) & 0xff) as u8);
    nonce.push(((counter >> 32u64) & 0xff) as u8);
    nonce.push(((counter >> 40u64) & 0xff) as u8);
    nonce.push(((counter >> 48u64) & 0xff) as u8);
    nonce.push(((counter >> 56u64) & 0xff) as u8);
    nonce.push(0u8);
    nonce.push(0u8);
    nonce.push(0u8);
    nonce.push(0u8);
    proof {
        assert(nonce@ =~= nonce_of(counter));
    }
    nonce
}

/// Relies on rand::rngs::OsRng (RngCore::try_fill_bytes): fills the buffer
/// from the operating system's secure random source. Nothing is promised of
/// the drawn values, only that a successful draw fills exactly `n` bytes.
#[verifier::external_body]
fn os_random_bytes(n: usize) -> (r: Option<Vec<u8>>)
    ensures
        r matches Some(b) ==> b@.len() == n,
{
    let mut buf = vec![0u8; n];
    match rand::RngCore::try_fill_bytes(&mut rand::rngs::OsRng, &mut buf) {
        Ok(()) => Some(buf),
        Err(_) => None,
    }
}

/// The AEAD engine of one direction of one connection. It owns the symmetric
/// key and the nonce state, and advances that state on every operation.
pub struct Crypter {
    key: Vec<u8>,
    cipher_type: CipherType,
    nonce_mode: NonceType,
    counter: u64,
}

impl Crypter {
    /// The symmetric key this crypter seals and opens with.
    pub closed spec fn spec_key(self) -> Seq<u8> {
        self.key@
    }

    /// The cipher variant this crypter is bound to.
    pub closed spec fn spec_cipher(self) -> CipherType {
        self.cipher_type
    }

    /// The nonce policy this crypter follows.
    pub closed spec fn spec_mode(self) -> NonceType {
        self.nonce_mode
    }

    /// The value of the sequential nonce counter.
    pub closed spec fn spec_counter(self) -> u64 {
        self.counter
    }

    /// A crypter is well formed when its key has the length its cipher asks.
    pub open spec fn wf(self) -> bool {
        self.spec_key().len() == self.spec_cipher().spec_params().key_size
    }

    /// The nonce policy, readable by unverified callers.
    pub fn nonce_type(&self) -> (r: NonceType)
        ensures
            r == self.spec_mode(),
    {
        self.nonce_mode
    }

    /// The current nonce counter, readable by unverified callers.
    pub fn nonce_counter(&self) -> (r: u64)
        ensures
            r == self.spec_counter(),
    {
        self.counter
    }

    /// How many ciphertext bytes an operation on `plaintext_len` plaintext
    /// bytes produces, as a pure mathematical function: the AEAD tag is
    /// appended, and in random mode the transmitted nonce is prepended.
    pub open spec fn spec_expected_ciphertext_length(self, plaintext_len: nat) -> nat {
        match self.spec_mode() {
            NonceType::Sequential => (plaintext_len + self.spec_cipher().spec_params().tag_size) as nat,
            NonceType::Random => (plaintext_len + self.spec_cipher().spec_params().tag_size
                + self.spec_cipher().spec_params().nonce_size) as nat,
        }
    }

    /// How many ciphertext bytes an operation on `plaintext_len` plaintext
    /// bytes produces; callers use it to size reads before decryption.
    pub fn expected_ciphertext_length(&self, plaintext_len: usize) -> (r: usize)
        requires
            plaintext_len + 28 <= usize::MAX,
        ensures
            r == self.spec_expected_ciphertext_length(plaintext_len as nat),
    {
        let params = self.cipher_type.params();
        match self.nonce_mode {
            NonceType::Sequential => plaintext_len + params.tag_size,
            NonceType::Random => plaintext_len + params.tag_size + params.nonce_size,
        }
    }

    /// Seals `plaintext` with the current nonce, then advances the nonce
    /// state. In sequential mode the ciphertext is exactly the AEAD sealing
    /// under the counter's nonce and the counter grows by one; an exhausted
    /// counter is a fatal error, never a wrap-around. In random mode a fresh
    /// nonce is drawn, transmitted in front of the ciphertext, and the
    /// counter is untouched. On failure the crypter is unchanged and no
    /// ciphertext is produced; in sequential mode, a message within the
    /// cipher's length limit and a live counter are owed success.
    pub fn encrypt(&mut self, plaintext: &[u8]) -> (r: Result<Vec<u8>, Error>)
        requires
            old(self).wf(),
            plaintext@.len() + 28 <= usize::MAX,
        ensures
            final(self).wf(),
            final(self).spec_key() == old(self).spec_key(),
            final(self).spec_cipher() == old(self).spec_cipher(),
            final(self).spec_mode() == old(self).spec_mode(),
            r matches Ok(c) ==> match old(self).spec_mode() {
                NonceType::Sequential => old(self).spec_counter() < u64::MAX
                    && final(self).spec_counter() == old(self).spec_counter() + 1
                    && c@ == aes256_gcm_seal(
                        old(self).spec_key(),
                        nonce_of(old(self).spec_counter()),
                        plaintext@,
                    )
                    && c@.len() == plaintext@.len() + 16,
                NonceType::Random => final(self).spec_counter() == old(self).spec_counter()
                    && c@.len() == plaintext@.len() + 28
                    && c@.subrange(12, c@.len() as int) == aes256_gcm_seal(
                        old(self).spec_key(),
                        c@.subrange(0, 12),
                        plaintext@,
                    ),
            },
            r matches Err(e) ==> e is EncryptionError && *final(self) == *old(self),
            old(self).spec_mode() is Sequential && old(self).spec_counter() == u64::MAX
                ==> r is Err,
            old(self).spec_mode() is Sequential && old(self).spec_counter() < u64::MAX
                && plaintext@.len() <= 0x10_0000_0000 ==> r is Ok,
    {
        match self.nonce_mode {
            NonceType::Sequential => {
                if self.counter == u64::MAX {
                    return Err(Error::EncryptionError);
                }
                let nonce = nonce_bytes(self.counter);
                match aes256_seal(self.key.as_slice(), nonce.as_slice(), plaintext) {
                    Some(c) => {
                        self.counter = self.counter + 1;
                        Ok(c)
                    },
                    None => Err(Error::EncryptionError),
                }
            },
            NonceType::Random => {
                let nonce = match os_random_bytes(12) {
                    Some(n) => n,
                    None => {
                        return Err(Error::EncryptionError);
                    },
                };
                match aes256_seal(self.key.as_slice(), nonce.as_slice(), plaintext) {
                    Some(mut c) => {
                        let mut out = nonce;
                        let ghost nonce_view = out@;
                        let ghost sealed_view = c@;
                        out.append(&mut c);
                        proof {
                            assert(out@.subrange(0, 12) =~= nonce_view);
                            assert(out@.subrange(12, out@.len() as int) =~= sealed_view);
                        }
                        Ok(out)
                    },
                    None => Err(Error::EncryptionError),
                }
            },
        }
    }

    /// Verifies and opens `ciphertext` with the current nonce, then advances
    /// the nonce state; in sequential mode the counter grows by one whether
    /// or not the tag verified. Success returns exactly the plaintext whose
    /// sealing under the expected nonce is `ciphertext`; any other input,
    /// an exhausted counter included, fails with a decryption error and
    /// returns no plaintext bytes.
    pub fn decrypt(&mut self, ciphertext: &[u8]) -> (r: Result<Vec<u8>, Error>)
        requires
            old(self).wf(),
        ensures
            final(self).wf(),
            final(self).spec_key() == old(self).spec_key(),
            final(self).spec_cipher() == old(self).spec_cipher(),
            final(self).spec_mode() == old(self).spec_mode(),
            old(self).spec_mode() is Sequential && old(self).spec_counter() == u64::MAX
                ==> r is Err && *final(self) == *old(self),
            old(self).spec_mode() is Sequential && old(self).spec_counter() < u64::MAX
                ==> final(self).spec_counter() == old(self).spec_counter() + 1,
            old(self).spec_mode() is Random ==> final(self).spec_counter() == old(
                self,
            ).spec_counter(),
            old(self).spec_mode() is Sequential ==> (r matches Ok(p) ==> ciphertext@
                == aes256_gcm_seal(
                old(self).spec_key(),
                nonce_of(old(self).spec_counter()),
                p@,
            ) && p@.len() + 16 == ciphertext@.len()),
            old(self).spec_mode() is Sequential && old(self).spec_counter() < u64::MAX
                ==> forall|q: Seq<u8>|
                ciphertext@ == aes256_gcm_seal(
                    old(self).spec_key(),
                    nonce_of(old(self).spec_counter()),
                    q,
                ) ==> (r matches Ok(p) && p@ == q),
            old(self).spec_mode() is Random ==> (r matches Ok(p) ==> ciphertext@.len() >= 28
                && ciphertext@.subrange(12, ciphertext@.len() as int) == aes256_gcm_seal(
                old(self).spec_key(),
                ciphertext@.subrange(0, 12),
                p@,
            ) && p@.len() + 28 == ciphertext@.len()),
            old(self).spec_mode() is Random ==> forall|q: Seq<u8>|
                (ciphertext@.len() >= 28 && ciphertext@.subrange(12, ciphertext@.len() as int)
                    == aes256_gcm_seal(old(self).spec_key(), ciphertext@.subrange(0, 12), q))
                    ==> (r matches Ok(p) && p@ == q),
            r matches Err(e) ==> e is DecryptionError,
    {
        match self.nonce_mode {
            NonceType::Sequential => {
                if self.counter == u64::MAX {
                    return Err(Error::DecryptionError);
                }
                let nonce = nonce_bytes(self.counter);
                self.counter = self.counter + 1;
                match aes256_open(self.key.as_slice(), nonce.as_slice(), ciphertext) {
                    Some(p) => Ok(p),
                    None => Err(Error::DecryptionError),
                }
            },
            NonceType::Random => {
                if ciphertext.len() < 28 {
                    return Err(Error::DecryptionError);
                }
                let nonce = slice_take(ciphertext, 12);
                let body = slice_drop(ciphertext, 12);
                match aes256_open(self.key.as_slice(), nonce.as_slice(), body.as_slice()) {
                    Some(p) => Ok(p),
                    None => Err(Error::DecryptionError),
                }
            },
        }
    }
}

/// The first `n` bytes of a slice, as a fresh vector.
fn slice_take(s: &[u8], n: usize) -> (r: Vec<u8>)
    requires
        n <= s@.len(),
    ensures
        r@ == s@.subrange(0, n as int),
{
    let mut out: Vec<u8> = Vec::new();
    let mut i: usize = 0;
    while i < n
        invariant
            i <= n,
            n <= s@.len(),
            out@ =~= s@.subrange(0, i as int),
        decreases n - i,
    {
        out.push(s[i]);
        i = i + 1;
        proof {
            assert(out@ =~= s@.subrange(0, i as int));
        }
    }
    out
}

/// The bytes of a slice from position `n` on, as a fresh vector.
fn slice_drop(s: &[u8], n: usize) -> (r: Vec<u8>)
    requires
        n <= s@.len(),
    ensures
        r@ == s@.subrange(n as int, s@.len() as int),
{
    let mut out: Vec<u8> = Vec::new();
    let mut i: usize = n;
    while i < s.len()
        invariant
            n <= i <= s@.len(),
            out@ =~= s@.subrange(n as int, i as int),
        decreases s@.len() - i,
    {
        out.push(s[i]);
        i = i + 1;
        proof {
            assert(out@ =~= s@.subrange(n as int, i as int));
        }
    }
    out
}

/// The factory of the engine: binds a symmetric key to a cipher variant and
/// a nonce policy, with the counter at zero.
pub fn create_crypter(key: &[u8], nonce_type: NonceType, cipher_type: CipherType) -> (r: Crypter)
    requires
        key@.len() == cipher_type.spec_params().key_size,
    ensures
        r.wf(),
        r.spec_key() == key@,
        r.spec_mode() == nonce_type,
        r.spec_cipher() == cipher_type,
        r.spec_counter() == 0,
{
    Crypter {
        key: vstd::slice::slice_to_vec(key),
        cipher_type,
        nonce_mode: nonce_type,
        counter: 0,
    }
}

/// Derives the per-connection subkey from the master secret and a salt and
/// seeds a sequential-mode crypter with it. Both handshake roles call this
/// with the same derivation, which is what makes the two ends interoperable.
pub fn derive_crypter(master_key: &[u8], salt: &[u8], cipher_type: CipherType) -> (r: Crypter)
    ensures
        r.wf(),
        r.spec_key() == derived_subkey(
            master_key@,
            salt@,
            cipher_type.spec_params().key_size as int,
        ),
        r.spec_mode() == NonceType::Sequential,
        r.spec_cipher() == cipher_type,
        r.spec_counter() == 0,
{
    let params = cipher_type.params();
    let subkey = crate::kdf::derive_subkey_compatible(master_key, salt, params.key_size);
    create_crypter(subkey.as_slice(), NonceType::Sequential, cipher_type)
}

/// Draws a fresh salt of the size the cipher asks, from the secure random
/// source. A failing random source is a fatal error.
pub fn generate_salt(cipher_type: CipherType) -> (r: Result<Vec<u8>, Error>)
    ensures
        r matches Ok(s) ==> s@.len() == cipher_type.spec_params().salt_size,
        r matches Err(e) ==> e is EncryptionError,
{
    let params = cipher_type.params();
    match os_random_bytes(params.salt_size) {
        Some(s) => Ok(s),
        None => Err(Error::EncryptionError),
    }
}

} // verus!
