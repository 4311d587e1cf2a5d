use aes_gcm::aead::{Aead, KeyInit};
use flexnet_gx::cipher::encrypt;
use flexnet_gx::digest::{blake3_hex, commit, sha256_hex};
use flexnet_gx::error::PipelineError;
use flexnet_gx::keys::{KeyMaterial, NonceSequence};
use flexnet_gx::pipeline::{process, process_data_for_blockchain};
use sha2::Digest;

const TEST_KEY: [u8; 32] = [7u8; 32];
const TEST_NONCE: [u8; 12] = [3u8; 12];

fn test_key() -> KeyMaterial {
    KeyMaterial::from_static(&TEST_KEY).unwrap()
}

#[test]
fn encrypt_matches_the_aes_256_gcm_vector_for_zero_inputs() {
    let key = [0u8; 32];
    let nonce = [0u8; 12];
    let sealed = encrypt(&key, &nonce, &[0u8; 16]).unwrap();
    assert_eq!(
        hex::encode(&sealed),
        "cea7403d4d606b6e074ec5d3baf39d18d0d1c8a799996bf0265b98b5d48ab919"
    );
}

#[test]
fn encrypt_of_empty_plaintext_is_the_tag_alone() {
    let sealed = encrypt(&[0u8; 32], &[0u8; 12], &[]).unwrap();
    assert_eq!(hex::encode(&sealed), "530f8afbc74536b9a963b4f1c4cb738b");
}

#[test]
fn encrypt_appends_a_sixteen_byte_tag() {
    let sealed = encrypt(&TEST_KEY, &TEST_NONCE, b"hello").unwrap();
    assert_eq!(sealed.len(), 5 + 16);
}

#[test]
fn encrypt_rejects_a_short_key() {
    assert_eq!(
        encrypt(&[1u8; 31], &TEST_NONCE, b"x").err(),
        Some(PipelineError::EncryptionFailure)
    );
}

#[test]
fn encrypt_rejects_a_nonce_of_the_wrong_length() {
    assert_eq!(
        encrypt(&TEST_KEY, &[0u8; 11], b"x").err(),
        Some(PipelineError::EncryptionFailure)
    );
    assert_eq!(
        encrypt(&TEST_KEY, &[0u8; 16], b"x").err(),
        Some(PipelineError::EncryptionFailure)
    );
}

#[test]
fn digests_match_known_values() {
    assert_eq!(
        sha256_hex(b"abc"),
        "ba7816bf8f01cfea414140de5dae2223b00361a396177a9cb410ff61f20015ad"
    );
    assert_eq!(
        blake3_hex(b"abc"),
        "6437b3ac38465133ffb63b75273a8db548c558465d79db03fd359c6cd5bd9d85"
    );
    assert_eq!(
        sha256_hex(b""),
        "e3b0c44298fc1c149afbf4c8996fb92427ae41e4649b934ca495991b7852b855"
    );
    assert_eq!(
        blake3_hex(b""),
        "af1349b9f5f9a1a6a0404dea36dcc9499bcb25c9adc112b7cc9a93cae41f3262"
    );
}

#[test]
fn commit_hashes_the_text_with_each_algorithm_apart() {
    let pair = commit("abc");
    assert_eq!(pair.sha256_hex, sha256_hex(b"abc"));
    assert_eq!(pair.blake3_hex, blake3_hex(b"abc"));
    assert_ne!(pair.sha256_hex, pair.blake3_hex);
}

#[test]
fn process_hashes_the_hex_text_not_the_raw_ciphertext() {
    let r = process(b"Hello, blockchain!", &test_key(), &TEST_NONCE).unwrap();
    let cipher = aes_gcm::Aes256Gcm::new_from_slice(&TEST_KEY).unwrap();
    let sealed = cipher
        .encrypt(aes_gcm::Nonce::from_slice(&TEST_NONCE), &b"Hello, blockchain!"[..])
        .unwrap();
    let expected_hex = hex::encode(&sealed);
    assert_eq!(r.ciphertext_hex, expected_hex);
    assert_eq!(r.ciphertext_hex.len(), 2 * (18 + 16));
    assert_eq!(
        r.sha256_hex,
        hex::encode(sha2::Sha256::digest(expected_hex.as_bytes()))
    );
    assert_eq!(
        r.blake3_hex,
        hex::encode(blake3::hash(expected_hex.as_bytes()).as_bytes())
    );
    assert_ne!(r.sha256_hex, hex::encode(sha2::Sha256::digest(&sealed)));
}

#[test]
fn process_output_is_lowercase_hex() {
    let r = process(b"payload", &test_key(), &TEST_NONCE).unwrap();
    for field in [&r.ciphertext_hex, &r.blake3_hex, &r.sha256_hex] {
        assert!(field.chars().all(|c| c.is_ascii_digit() || ('a'..='f').contains(&c)));
    }
    assert_eq!(r.blake3_hex.len(), 64);
    assert_eq!(r.sha256_hex.len(), 64);
}

#[test]
fn process_is_deterministic_for_fixed_key_and_nonce() {
    let a = process(b"same input", &test_key(), &TEST_NONCE).unwrap();
    let b = process(b"same input", &test_key(), &TEST_NONCE).unwrap();
    assert_eq!(a, b);
}

#[test]
fn distinct_inputs_give_distinct_ciphertexts_and_digests() {
    let a = process(b"input one", &test_key(), &TEST_NONCE).unwrap();
    let b = process(b"input two", &test_key(), &TEST_NONCE).unwrap();
    assert_ne!(a.ciphertext_hex, b.ciphertext_hex);
    assert_ne!(a.blake3_hex, b.blake3_hex);
    assert_ne!(a.sha256_hex, b.sha256_hex);
    let c = process(b"longer input three", &test_key(), &TEST_NONCE).unwrap();
    assert_ne!(a.ciphertext_hex.len(), c.ciphertext_hex.len());
}

#[test]
fn process_fails_on_a_bad_nonce() {
    assert_eq!(
        process(b"x", &test_key(), &[0u8; 8]).err(),
        Some(PipelineError::EncryptionFailure)
    );
}

#[test]
fn process_data_for_blockchain_uses_the_static_key() {
    let r = process_data_for_blockchain("Hello, blockchain!", &TEST_KEY, &TEST_NONCE).unwrap();
    let direct = process(b"Hello, blockchain!", &test_key(), &TEST_NONCE).unwrap();
    assert_eq!(r, direct);
}

#[test]
fn process_data_for_blockchain_rejects_a_malformed_key() {
    assert_eq!(
        process_data_for_blockchain("x", &[1u8; 16], &TEST_NONCE).err(),
        Some(PipelineError::KeyUnavailable)
    );
}

#[test]
fn static_key_of_thirty_two_bytes_is_accepted() {
    let key = KeyMaterial::from_static(&TEST_KEY).unwrap();
    assert_eq!(key.as_bytes(), &TEST_KEY[..]);
}

#[test]
fn static_key_of_another_length_is_unavailable() {
    for len in [0usize, 1, 16, 31, 33, 64] {
        let secret = vec![9u8; len];
        assert_eq!(
            KeyMaterial::from_static(&secret).err(),
            Some(PipelineError::KeyUnavailable)
        );
    }
}

#[test]
fn generated_keys_have_the_right_length() {
    let a = KeyMaterial::generate().unwrap();
    let b = KeyMaterial::generate().unwrap();
    assert_eq!(a.as_bytes().len(), 32);
    assert_ne!(a.as_bytes(), b.as_bytes());
}

#[test]
fn nonce_sequence_counts_after_its_prefix() {
    let mut seq = NonceSequence::from_prefix(&[0xaa, 0xbb, 0xcc, 0xdd]).unwrap();
    assert_eq!(
        seq.next().unwrap(),
        vec![0xaa, 0xbb, 0xcc, 0xdd, 0, 0, 0, 0, 0, 0, 0, 0]
    );
    assert_eq!(
        seq.next().unwrap(),
        vec![0xaa, 0xbb, 0xcc, 0xdd, 0, 0, 0, 0, 0, 0, 0, 1]
    );
    for _ in 0..254 {
        seq.next().unwrap();
    }
    assert_eq!(
        seq.next().unwrap(),
        vec![0xaa, 0xbb, 0xcc, 0xdd, 0, 0, 0, 0, 0, 0, 1, 0]
    );
}

#[test]
fn nonce_sequence_needs_a_four_byte_prefix() {
    assert!(NonceSequence::from_prefix(&[1, 2, 3]).is_none());
    assert!(NonceSequence::from_prefix(&[1, 2, 3, 4, 5]).is_none());
}

#[test]
fn nonce_sequence_never_repeats() {
    let mut seq = NonceSequence::new().unwrap();
    let mut seen = std::collections::HashSet::new();
    for _ in 0..1000 {
        let n = seq.next().unwrap();
        assert_eq!(n.len(), 12);
        assert!(seen.insert(n));
    }
}

#[test]
fn fresh_nonces_separate_equal_messages() {
    let key = test_key();
    let mut seq = NonceSequence::new().unwrap();
    let a = process(b"same", &key, &seq.next().unwrap()).unwrap();
    let b = process(b"same", &key, &seq.next().unwrap()).unwrap();
    assert_ne!(a.ciphertext_hex, b.ciphertext_hex);
}
