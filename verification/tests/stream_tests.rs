use encrypted_stream::CipherType;
use encrypted_stream::Error;
use encrypted_stream::NonceType;
use encrypted_stream::create_crypter;
use encrypted_stream::derive_crypter;
use encrypted_stream::generate_salt;
use encrypted_stream::kdf::derive_subkey_compatible;
use encrypted_stream::open_length_chunk;
use encrypted_stream::seal_package;

const VECTOR_53: [u8; 53] = [
    0xD7, 0x73, 0x7E, 0x7C, 0xE0, 0xED, 0x78, 0xB2, 0xB4, 0x03, 0x60, 0x52, 0x30, 0xF9, 0x96,
    0xBE, 0x97, 0xD9, 0x7B, 0xA4, 0xA1, 0xD4, 0x8F, 0xCD, 0x85, 0xA8, 0xDF, 0xB2, 0xEB, 0xC4,
    0xA6, 0xD6, 0x5C, 0xE3, 0x39, 0xE6, 0xD8, 0x4A, 0x8D, 0xEE, 0x75, 0xE2, 0x84, 0x66, 0x6A,
    0x95, 0xC6, 0xEA, 0xBC, 0x07, 0x99, 0x30, 0x20,
];

const VECTOR_71: [u8; 71] = [
    0xBF, 0x10, 0xCC, 0xF3, 0xC4, 0x53, 0xE9, 0xBB, 0x67, 0x94, 0xAB, 0x1F, 0x17, 0x79, 0xE2,
    0x0B, 0x64, 0xD2, 0x55, 0x95, 0x1E, 0x3A, 0x2A, 0x5C, 0xFD, 0x58, 0xD5, 0x27, 0xAF, 0xB0,
    0xA4, 0x11, 0xFE, 0x61, 0x33, 0x8E, 0xFA, 0xC4, 0xCA, 0x73, 0xD1, 0xEC, 0xF4, 0xBB, 0xE4,
    0x92, 0xC2, 0x78, 0x5B, 0x32, 0x4E, 0x26, 0x2A, 0x95, 0x74, 0xF3, 0xAC, 0x74, 0x9C, 0x5E,
    0x77, 0xF2, 0x5F, 0x7A, 0x18, 0x0D, 0x52, 0x69, 0xE3, 0xE0, 0x40,
];

#[test]
fn test_read_and_derive_crypter() {
    let salt = [0x1u8; 32];
    let mut crypter = derive_crypter(b"key", &salt, CipherType::Aes256GCM);

    let plaintext = [0x2u8; 37];
    let ciphertext = crypter.encrypt(&plaintext).unwrap();

    assert_eq!(ciphertext, VECTOR_53.to_vec());
}

#[test]
fn test_read_and_decrypt() {
    let key = [0x1u8; 32];
    let mut crypter = create_crypter(&key, NonceType::Sequential, CipherType::Aes256GCM);

    let length_chunk_size = crypter.expected_ciphertext_length(2);
    assert_eq!(length_chunk_size, 18);
    let length = open_length_chunk(&mut crypter, &VECTOR_71[..length_chunk_size]).unwrap();
    assert_eq!(length, 37);

    let body_chunk_size = crypter.expected_ciphertext_length(length);
    assert_eq!(body_chunk_size, VECTOR_71.len() - length_chunk_size);
    let decrypted_text = crypter.decrypt(&VECTOR_71[length_chunk_size..]).unwrap();

    let plaintext = [0x2u8; 37];
    assert_eq!(decrypted_text, plaintext.to_vec());
}

#[test]
fn test_build_and_write_crypter() {
    let salt = generate_salt(CipherType::Aes256GCM).unwrap();
    let ciphertext = {
        let mut encrypter = derive_crypter(b"key", &salt, CipherType::Aes256GCM);
        encrypter.encrypt(&[1u8; 32]).unwrap()
    };

    assert_ne!(salt, [0u8; 32].to_vec());

    let plaintext = {
        let mut decrypter = derive_crypter(b"key", &salt, CipherType::Aes256GCM);
        decrypter.decrypt(&ciphertext).unwrap()
    };

    assert_eq!(plaintext, [1u8; 32].to_vec());
}

#[test]
fn test_write_encrypt() {
    let key = [0x1u8; 32];
    let mut crypter = create_crypter(&key, NonceType::Sequential, CipherType::Aes256GCM);

    let (length_chunk, body_chunk) = seal_package(&mut crypter, &[0x02u8; 37]).unwrap();
    let mut wire = length_chunk;
    wire.extend_from_slice(&body_chunk);
    assert_eq!(wire, VECTOR_71.to_vec());
}

fn round_trip(data: &[u8]) {
    let salt = [0x7u8; 32];
    let mut enc = derive_crypter(b"master secret", &salt, CipherType::Aes256GCM);
    let mut dec = derive_crypter(b"master secret", &salt, CipherType::Aes256GCM);

    let (length_chunk, body_chunk) = seal_package(&mut enc, data).unwrap();
    assert_eq!(length_chunk.len(), 18);
    assert_eq!(body_chunk.len(), data.len() + 16);

    let length = open_length_chunk(&mut dec, &length_chunk).unwrap();
    assert_eq!(length, data.len());
    let body = dec.decrypt(&body_chunk).unwrap();
    assert_eq!(body, data.to_vec());
}

#[test]
fn round_trip_empty_package() {
    round_trip(&[]);
}

#[test]
fn round_trip_small_packages() {
    round_trip(&[0x42]);
    round_trip(b"hello across the tunnel");
    round_trip(&[0xABu8; 256]);
}

#[test]
fn round_trip_largest_package() {
    let data: Vec<u8> = (0..65535u32).map(|i| (i % 251) as u8).collect();
    round_trip(&data);
}

#[test]
fn round_trip_package_loopback() {
    let key = [0x6u8; 32];
    let mut enc = create_crypter(&key, NonceType::Sequential, CipherType::Aes256GCM);
    let mut dec = create_crypter(&key, NonceType::Sequential, CipherType::Aes256GCM);
    let body = encrypted_stream::framing::round_trip_package(&mut enc, &mut dec, b"loopback").unwrap();
    assert_eq!(body, b"loopback".to_vec());
    assert_eq!(enc.nonce_counter(), 2);
    assert_eq!(dec.nonce_counter(), 2);
}

#[test]
fn encryption_is_deterministic_per_key_and_counter() {
    let key = [0x5u8; 32];
    let mut a = create_crypter(&key, NonceType::Sequential, CipherType::Aes256GCM);
    let mut b = create_crypter(&key, NonceType::Sequential, CipherType::Aes256GCM);
    let pt = b"the same message";
    let first_a = a.encrypt(pt).unwrap();
    let first_b = b.encrypt(pt).unwrap();
    assert_eq!(first_a, first_b);
    // The counter has advanced, so the same plaintext now seals differently.
    let second_a = a.encrypt(pt).unwrap();
    assert_ne!(second_a, first_b);
}

#[test]
fn tampering_any_chunk_fails_decryption() {
    let key = [0x9u8; 32];
    let mut enc = create_crypter(&key, NonceType::Sequential, CipherType::Aes256GCM);
    let (length_chunk, body_chunk) = seal_package(&mut enc, b"untouchable payload").unwrap();

    for position in [0, length_chunk.len() / 2, length_chunk.len() - 1] {
        for bit in [0x01u8, 0x80u8] {
            let mut dec = create_crypter(&key, NonceType::Sequential, CipherType::Aes256GCM);
            let mut tampered = length_chunk.clone();
            tampered[position] ^= bit;
            let r = open_length_chunk(&mut dec, &tampered);
            assert!(matches!(r, Err(Error::DecryptionError)));
        }
    }

    for position in [0, body_chunk.len() / 2, body_chunk.len() - 1] {
        for bit in [0x01u8, 0x80u8] {
            let mut dec = create_crypter(&key, NonceType::Sequential, CipherType::Aes256GCM);
            let length = open_length_chunk(&mut dec, &length_chunk).unwrap();
            assert_eq!(length, b"untouchable payload".len());
            let mut tampered = body_chunk.clone();
            tampered[position] ^= bit;
            let r = dec.decrypt(&tampered);
            assert!(matches!(r, Err(Error::DecryptionError)));
        }
    }
}

#[test]
fn short_or_garbage_chunks_fail_decryption() {
    let key = [0x3u8; 32];
    let mut dec = create_crypter(&key, NonceType::Sequential, CipherType::Aes256GCM);
    assert!(matches!(dec.decrypt(&[]), Err(Error::DecryptionError)));
    let mut dec = create_crypter(&key, NonceType::Sequential, CipherType::Aes256GCM);
    assert!(matches!(dec.decrypt(&[0u8; 7]), Err(Error::DecryptionError)));
    let mut dec = create_crypter(&key, NonceType::Sequential, CipherType::Aes256GCM);
    assert!(matches!(dec.decrypt(&[0u8; 64]), Err(Error::DecryptionError)));
}

#[test]
fn nonce_counter_advances_by_two_per_package() {
    let key = [0x8u8; 32];
    let mut enc = create_crypter(&key, NonceType::Sequential, CipherType::Aes256GCM);
    assert_eq!(enc.nonce_counter(), 0);
    for n in 1..=5u64 {
        seal_package(&mut enc, b"one package").unwrap();
        assert_eq!(enc.nonce_counter(), 2 * n);
    }
}

#[test]
fn decryption_advances_the_counter_even_on_failure() {
    let key = [0x8u8; 32];
    let mut dec = create_crypter(&key, NonceType::Sequential, CipherType::Aes256GCM);
    let _ = dec.decrypt(&[0u8; 32]);
    assert_eq!(dec.nonce_counter(), 1);
}

#[test]
fn different_salts_derive_different_subkeys() {
    let salt_a = [0xAu8; 32];
    let salt_b = [0xBu8; 32];
    let key_a = derive_subkey_compatible(b"key", &salt_a, 32);
    let key_b = derive_subkey_compatible(b"key", &salt_b, 32);
    assert_eq!(key_a.len(), 32);
    assert_eq!(key_b.len(), 32);
    assert_ne!(key_a, key_b);

    // Ciphertexts of the two connections are not interchangeable.
    let mut enc = derive_crypter(b"key", &salt_a, CipherType::Aes256GCM);
    let ciphertext = enc.encrypt(b"bound to salt a").unwrap();
    let mut dec = derive_crypter(b"key", &salt_b, CipherType::Aes256GCM);
    assert!(matches!(dec.decrypt(&ciphertext), Err(Error::DecryptionError)));
}

#[test]
fn derivation_matches_reference_vector() {
    // The subkey behind the 53-byte reference ciphertext: deriving it and
    // sealing with it directly must agree with deriving through the crypter.
    let salt = [0x1u8; 32];
    let subkey = derive_subkey_compatible(b"key", &salt, 32);
    assert_ne!(subkey, b"key".to_vec());
    let mut crypter = create_crypter(&subkey, NonceType::Sequential, CipherType::Aes256GCM);
    let ciphertext = crypter.encrypt(&[0x2u8; 37]).unwrap();
    assert_eq!(ciphertext, VECTOR_53.to_vec());
}

#[test]
fn handshake_symmetry_both_directions() {
    // One side generates and sends the salt, the other receives it: both
    // derive from the same bytes and their crypters interoperate both ways.
    let salt = generate_salt(CipherType::Aes256GCM).unwrap();
    assert_eq!(salt.len(), 32);

    let mut sender = derive_crypter(b"shared master", &salt, CipherType::Aes256GCM);
    let mut receiver = derive_crypter(b"shared master", &salt, CipherType::Aes256GCM);

    let (lc, bc) = seal_package(&mut sender, b"ping").unwrap();
    let n = open_length_chunk(&mut receiver, &lc).unwrap();
    assert_eq!(n, 4);
    assert_eq!(receiver.decrypt(&bc).unwrap(), b"ping".to_vec());

    // And again in the opposite role assignment, with fresh state.
    let mut sender = derive_crypter(b"shared master", &salt, CipherType::Aes256GCM);
    let mut receiver = derive_crypter(b"shared master", &salt, CipherType::Aes256GCM);
    let (lc, bc) = seal_package(&mut receiver, b"pong").unwrap();
    let n = open_length_chunk(&mut sender, &lc).unwrap();
    assert_eq!(n, 4);
    assert_eq!(sender.decrypt(&bc).unwrap(), b"pong".to_vec());
}

#[test]
fn random_mode_round_trips_and_carries_its_nonce() {
    let key = [0x4u8; 32];
    let mut enc = create_crypter(&key, NonceType::Random, CipherType::Aes256GCM);
    let mut dec = create_crypter(&key, NonceType::Random, CipherType::Aes256GCM);

    assert_eq!(enc.nonce_type(), NonceType::Random);
    assert_eq!(enc.expected_ciphertext_length(5), 5 + 16 + 12);
    let ciphertext = enc.encrypt(b"salad").unwrap();
    assert_eq!(ciphertext.len(), 5 + 16 + 12);
    assert_eq!(enc.nonce_counter(), 0);
    assert_eq!(dec.decrypt(&ciphertext).unwrap(), b"salad".to_vec());

    // Tampering with the carried nonce is caught like any other tampering.
    let mut tampered = ciphertext.clone();
    tampered[0] ^= 0x10;
    assert!(matches!(dec.decrypt(&tampered), Err(Error::DecryptionError)));
}

#[test]
fn expected_ciphertext_length_sizes_the_wire() {
    let key = [0x2u8; 32];
    let crypter = create_crypter(&key, NonceType::Sequential, CipherType::Aes256GCM);
    assert_eq!(crypter.expected_ciphertext_length(0), 16);
    assert_eq!(crypter.expected_ciphertext_length(2), 18);
    assert_eq!(crypter.expected_ciphertext_length(65535), 65535 + 16);
}

#[test]
fn cipher_params_catalogue() {
    let params = CipherType::Aes256GCM.params();
    assert_eq!(params.salt_size, 32);
    assert_eq!(params.key_size, 32);
    assert_eq!(params.tag_size, 16);
    assert_eq!(params.nonce_size, 12);
}

#[test]
fn convert_to_io_error_keeps_transport_errors() {
    let inner = std::io::Error::new(std::io::ErrorKind::UnexpectedEof, "closed early");
    let converted = encrypted_stream::convert_to_io_error(Error::IOError(inner));
    assert_eq!(converted.kind(), std::io::ErrorKind::UnexpectedEof);

    let enc = encrypted_stream::convert_to_io_error(Error::EncryptionError);
    assert_eq!(enc.kind(), std::io::ErrorKind::Other);
    assert_eq!(format!("{}", enc), "Encryption error");
    let dec = encrypted_stream::convert_to_io_error(Error::DecryptionError);
    assert_eq!(dec.kind(), std::io::ErrorKind::Other);
    assert_eq!(format!("{}", dec), "Decryption error");
}
