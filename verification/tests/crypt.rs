use srpk::crypt::aes256_encrypt_with;
use srpk::{aes256_decrypt, aes256_encrypt, CryptValue, SrpkError};

const PLAINTEXT: &str = "plaintext";
const COST: u8 = 8u8;
const PASS: &str = "password";
const BAD_PASS: &str = "bad_password";

#[test]
fn test_encrypt_decrypt() {
    let plaintext_bytes: Vec<u8> = PLAINTEXT.try_into().unwrap();
    let encrypted_bytes: Vec<u8> = aes256_encrypt(&plaintext_bytes, PASS, COST).unwrap();
    let decrypted_bytes: CryptValue = aes256_decrypt(&encrypted_bytes, PASS).unwrap();
    assert_eq!(decrypted_bytes.value, plaintext_bytes);
}

#[test]
fn test_decrypt_bad_pass() {
    let plaintext_bytes: Vec<u8> = PLAINTEXT.try_into().unwrap();
    let encrypted_bytes: Vec<u8> = aes256_encrypt(&plaintext_bytes, PASS, COST).unwrap();
    assert!(aes256_decrypt(&encrypted_bytes, BAD_PASS).is_err());
}

#[test]
fn test_decrypt_bad_pass_is_auth_failure() {
    let plaintext_bytes: Vec<u8> = PLAINTEXT.try_into().unwrap();
    let encrypted_bytes: Vec<u8> = aes256_encrypt(&plaintext_bytes, PASS, COST).unwrap();
    assert!(matches!(
        aes256_decrypt(&encrypted_bytes, BAD_PASS),
        Err(SrpkError::AES256Decrypt)
    ));
}

#[test]
fn test_envelope_layout() {
    let plaintext_bytes: Vec<u8> = PLAINTEXT.try_into().unwrap();
    let env: Vec<u8> = aes256_encrypt(&plaintext_bytes, PASS, COST).unwrap();
    // cost byte, 16-byte salt, 12-byte nonce, ciphertext with a 16-byte tag
    assert_eq!(env[0], COST);
    assert_eq!(env.len(), 1 + 16 + 12 + plaintext_bytes.len() + 16);
    // the payload is actually enciphered, not stored
    assert_ne!(&env[29..29 + plaintext_bytes.len()], plaintext_bytes.as_slice());
    let decrypted: CryptValue = aes256_decrypt(&env, PASS).unwrap();
    assert_eq!(decrypted.cost, COST);
}

#[test]
fn test_envelope_uniqueness() {
    let plaintext_bytes: Vec<u8> = PLAINTEXT.try_into().unwrap();
    let env1: Vec<u8> = aes256_encrypt(&plaintext_bytes, PASS, COST).unwrap();
    let env2: Vec<u8> = aes256_encrypt(&plaintext_bytes, PASS, COST).unwrap();
    assert_ne!(env1, env2);
    assert_eq!(aes256_decrypt(&env1, PASS).unwrap().value, plaintext_bytes);
    assert_eq!(aes256_decrypt(&env2, PASS).unwrap().value, plaintext_bytes);
}

#[test]
fn test_encrypt_with_embeds_salt_and_nonce() {
    let plaintext_bytes: Vec<u8> = PLAINTEXT.try_into().unwrap();
    let salt: Vec<u8> = (0u8..16u8).collect();
    let nonce: Vec<u8> = (100u8..112u8).collect();
    let env: Vec<u8> =
        aes256_encrypt_with(&plaintext_bytes, PASS, COST, salt.clone(), nonce.clone()).unwrap();
    assert_eq!(&env[1..17], salt.as_slice());
    assert_eq!(&env[17..29], nonce.as_slice());
    assert_eq!(aes256_decrypt(&env, PASS).unwrap().value, plaintext_bytes);
}

#[test]
fn test_salt_changes_ciphertext() {
    let plaintext_bytes: Vec<u8> = PLAINTEXT.try_into().unwrap();
    let salt1: Vec<u8> = vec![0u8; 16];
    let salt2: Vec<u8> = vec![1u8; 16];
    let nonce: Vec<u8> = vec![7u8; 12];
    let env1 = aes256_encrypt_with(&plaintext_bytes, PASS, COST, salt1, nonce.clone()).unwrap();
    let env2 = aes256_encrypt_with(&plaintext_bytes, PASS, COST, salt2, nonce).unwrap();
    // a different salt derives a different key, so the ciphertexts differ
    assert_ne!(&env1[29..], &env2[29..]);
}

#[test]
fn test_decrypt_malformed() {
    assert!(matches!(
        aes256_decrypt(&[], PASS),
        Err(SrpkError::MalformedEnvelope)
    ));
    assert!(matches!(
        aes256_decrypt(&[0u8; 28], PASS),
        Err(SrpkError::MalformedEnvelope)
    ));
}

#[test]
fn test_decrypt_bad_cost_byte() {
    let plaintext_bytes: Vec<u8> = PLAINTEXT.try_into().unwrap();
    let mut env: Vec<u8> = aes256_encrypt(&plaintext_bytes, PASS, COST).unwrap();
    env[0] = 4;
    assert!(matches!(
        aes256_decrypt(&env, PASS),
        Err(SrpkError::BCryptHash)
    ));
    env[0] = 32;
    assert!(matches!(
        aes256_decrypt(&env, PASS),
        Err(SrpkError::BCryptHash)
    ));
}

#[test]
fn test_decrypt_tampered_ciphertext() {
    let plaintext_bytes: Vec<u8> = PLAINTEXT.try_into().unwrap();
    let mut env: Vec<u8> = aes256_encrypt(&plaintext_bytes, PASS, COST).unwrap();
    let last = env.len() - 1;
    env[last] ^= 0x01;
    assert!(matches!(
        aes256_decrypt(&env, PASS),
        Err(SrpkError::AES256Decrypt)
    ));
}
