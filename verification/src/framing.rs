//! Length-then-body framing of one package.
//!
//! A package of up to 65535 plaintext bytes travels as two AEAD chunks
//! through one sequential crypter: first the sealed two-byte big-endian
//! length of the body, then the sealed body. The length chunk has a fixed
//! ciphertext size, so the receiver always knows how many bytes to read
//! next, and the length itself never crosses the wire unauthenticated.

use vstd::prelude::*;

use crate::aead::aes256_gcm_seal;
use crate::crypter::Crypter;
use crate::crypter::nonce_of;
use crate::error::Error;

verus! {

/// The largest plaintext package the framing can carry.
pub const MAX_PACKAGE_SIZE: usize = 65535;

/// How many plaintext bytes encode the body length on the wire.
pub const LENGTH_SIZE: usize = 2;

/// The two-byte big-endian encoding of a body length.
pub open spec fn be16(n: u16) -> Seq<u8> {
    seq![(n / 256) as u8, (n % 256) as u8]
}

/// The body length, as its two wire bytes.
fn length_bytes(n: u16) -> (r: Vec<u8>)
    ensures
        r@ == be16(n),
{
    let mut out: Vec<u8> = Vec::new();
    out.push((n / 256) as u8);
    out.push((n % 256) as u8);
    proof {
        assert(out@ =~= be16(n));
    }
    out
}

/// The value a big-endian pair of wire bytes encodes.
fn parse_be16(b0: u8, b1: u8) -> (r: u16)
    ensures
        r == b0 * 256 + b1,
        be16(r) == seq![b0, b1],
{
    let r: u16 = (b0 as u16) * 256 + (b1 as u16);
    proof {
        assert(r / 256 == b0 && r % 256 == b1) by (nonlinear_arith)
            requires
                r == b0 * 256 + b1,
                b1 < 256,
        ;
        assert(be16(r) =~= seq![b0, b1]);
    }
    r
}

/// Seals one package as its two wire chunks: the sealed big-endian length,
/// then the sealed body, under two consecutive nonces of the one crypter.
/// On success the counter has advanced by exactly two and the chunks are
/// pinned to the crypter's key and the two nonces. Success is owed whenever
/// two nonces are left before the counter exhausts; the only failure is the
/// exhausted counter, fatal to the stream.
pub fn seal_package(crypter: &mut Crypter, data: &[u8]) -> (r: Result<(Vec<u8>, Vec<u8>), Error>)
    requires
        old(crypter).wf(),
        old(crypter).spec_mode() is Sequential,
        data@.len() <= MAX_PACKAGE_SIZE,
    ensures
        final(crypter).wf(),
        final(crypter).spec_key() == old(crypter).spec_key(),
        final(crypter).spec_cipher() == old(crypter).spec_cipher(),
        final(crypter).spec_mode() == old(crypter).spec_mode(),
        r matches Ok(chunks) ==> old(crypter).spec_counter() <= u64::MAX - 2
            && final(crypter).spec_counter() == old(crypter).spec_counter() + 2
            && chunks.0@ == aes256_gcm_seal(
                old(crypter).spec_key(),
                nonce_of(old(crypter).spec_counter()),
                be16(data@.len() as u16),
            )
            && chunks.1@ == aes256_gcm_seal(
                old(crypter).spec_key(),
                nonce_of((old(crypter).spec_counter() + 1) as u64),
                data@,
            )
            && chunks.0@.len() == 18
            && chunks.1@.len() == data@.len() + 16,
        r matches Err(e) ==> e is EncryptionError && final(crypter).spec_counter() == u64::MAX,
        old(crypter).spec_counter() > u64::MAX - 2 ==> r is Err,
        old(crypter).spec_counter() <= u64::MAX - 2 ==> r is Ok,
{
    let len_bytes = length_bytes(data.len() as u16);
    let length_chunk = match crypter.encrypt(len_bytes.as_slice()) {
        Ok(c) => c,
        Err(e) => {
            return Err(e);
        },
    };
    let body_chunk = match crypter.encrypt(data) {
        Ok(c) => c,
        Err(e) => {
            return Err(e);
        },
    };
    Ok((length_chunk, body_chunk))
}

/// Opens the length chunk of a package and returns the body length it
/// carries, advancing the crypter by one nonce. Success returns exactly the
/// length whose sealed big-endian encoding the chunk is; a chunk that is not
/// such a sealing fails with a decryption error, and a chunk sealing a
/// message of any other shape is rejected the same way.
pub fn open_length_chunk(crypter: &mut Crypter, chunk: &[u8]) -> (r: Result<usize, Error>)
    requires
        old(crypter).wf(),
        old(crypter).spec_mode() is Sequential,
    ensures
        final(crypter).wf(),
        final(crypter).spec_key() == old(crypter).spec_key(),
        final(crypter).spec_cipher() == old(crypter).spec_cipher(),
        final(crypter).spec_mode() == old(crypter).spec_mode(),
        old(crypter).spec_counter() == u64::MAX ==> r is Err && *final(crypter) == *old(crypter),
        old(crypter).spec_counter() < u64::MAX ==> final(crypter).spec_counter() == old(
            crypter,
        ).spec_counter() + 1,
        r matches Ok(n) ==> n <= MAX_PACKAGE_SIZE && old(crypter).spec_counter() < u64::MAX
            && chunk@ == aes256_gcm_seal(
            old(crypter).spec_key(),
            nonce_of(old(crypter).spec_counter()),
            be16(n as u16),
        ),
        old(crypter).spec_counter() < u64::MAX ==> forall|n: u16|
            chunk@ == aes256_gcm_seal(
                old(crypter).spec_key(),
                nonce_of(old(crypter).spec_counter()),
                be16(n),
            ) ==> (r matches Ok(m) && m == n as usize),
        r matches Err(e) ==> e is DecryptionError,
{
    let plain = match crypter.decrypt(chunk) {
        Ok(p) => p,
        Err(e) => {
            return Err(e);
        },
    };
    if plain.len() != LENGTH_SIZE {
        return Err(Error::DecryptionError);
    }
    let n = parse_be16(plain[0], plain[1]);
    proof {
        assert(plain@ =~= seq![plain@[0], plain@[1]]);
        assert(chunk@ == aes256_gcm_seal(
            old(crypter).spec_key(),
            nonce_of(old(crypter).spec_counter()),
            be16(n),
        ));
    }
    Ok(n as usize)
}

/// The round-trip law of the framing, checked by Verus end to end: sealing a
/// package with one crypter and opening the two chunks with a crypter in the
/// same state (same key, same counter, both sequential) succeeds whenever
/// the counter is not nearly exhausted, and gives back exactly the original
/// bytes; neither sealing nor opening can fail along the way.
pub fn round_trip_package(
    enc: &mut Crypter,
    dec: &mut Crypter,
    data: &[u8],
) -> (r: Result<Vec<u8>, Error>)
    requires
        old(enc).wf(),
        old(dec).wf(),
        old(enc).spec_mode() is Sequential,
        old(dec).spec_mode() is Sequential,
        old(enc).spec_key() == old(dec).spec_key(),
        old(enc).spec_counter() == old(dec).spec_counter(),
        data@.len() <= MAX_PACKAGE_SIZE,
    ensures
        r matches Ok(p) ==> p@ == data@,
        old(enc).spec_counter() <= u64::MAX - 2 ==> r is Ok,
        r matches Err(e) ==> e is EncryptionError,
{
    let chunks = match seal_package(enc, data) {
        Ok(c) => c,
        Err(e) => {
            return Err(e);
        },
    };
    let (length_chunk, body_chunk) = chunks;
    let length = match open_length_chunk(dec, length_chunk.as_slice()) {
        Ok(n) => n,
        Err(e) => {
            return Err(e);
        },
    };
    assert(length == data@.len());
    let body = match dec.decrypt(body_chunk.as_slice()) {
        Ok(p) => p,
        Err(e) => {
            return Err(e);
        },
    };
    assert(body@ == data@);
    Ok(body)
}

} // verus!
