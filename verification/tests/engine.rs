use rust_crypto::{CryptoEngine, CryptoError, EncryptedData};

fn is_lower_hex_str(s: &str) -> bool {
    s.len() % 2 == 0 && s.chars().all(|c| c.is_ascii_hexdigit() && !c.is_ascii_uppercase())
}

#[test]
fn new_engine_exports_64_hex_chars() {
    let engine = CryptoEngine::new();
    let key = engine.get_master_key();
    assert_eq!(key.len(), 64);
    assert!(is_lower_hex_str(&key));
}

#[test]
fn two_new_engines_have_distinct_keys() {
    let a = CryptoEngine::new().get_master_key();
    let b = CryptoEngine::new().get_master_key();
    assert_ne!(a, b);
}

#[test]
fn key_fidelity_round_trip() {
    let key = "00112233445566778899aabbccddeeff00112233445566778899aabbccddeeff";
    let engine = CryptoEngine::with_key(key.to_string()).unwrap();
    assert_eq!(engine.get_master_key(), key);
}

#[test]
fn with_key_accepts_uppercase_and_exports_lowercase() {
    let upper = "00112233445566778899AABBCCDDEEFF00112233445566778899AABBCCDDEEFF";
    let engine = CryptoEngine::with_key(upper.to_string()).unwrap();
    assert_eq!(engine.get_master_key(), upper.to_lowercase());
}

#[test]
fn with_key_rejects_wrong_length() {
    let short = "00112233445566778899aabbccddeeff";
    assert_eq!(CryptoEngine::with_key(short.to_string()).err(), Some(CryptoError::Validation));
    assert_eq!(CryptoEngine::with_key(String::new()).err(), Some(CryptoError::Validation));
    let long = "00112233445566778899aabbccddeeff00112233445566778899aabbccddeeff00";
    assert_eq!(CryptoEngine::with_key(long.to_string()).err(), Some(CryptoError::Validation));
}

#[test]
fn with_key_rejects_bad_hex() {
    let bad = "zz112233445566778899aabbccddeeff00112233445566778899aabbccddeeff";
    assert_eq!(CryptoEngine::with_key(bad.to_string()).err(), Some(CryptoError::Validation));
    let odd = "0011223344556677899aabbccddeeff00112233445566778899aabbccddeeff";
    assert_eq!(CryptoEngine::with_key(odd.to_string()).err(), Some(CryptoError::Validation));
}

#[test]
fn encrypt_decrypt_round_trip_hello() {
    let engine = CryptoEngine::new();
    let env = engine.encrypt("hello".to_string()).unwrap();
    assert_eq!(env.nonce.len(), 24);
    assert_eq!(env.encrypted.len(), 2 * (5 + 16));
    assert!(is_lower_hex_str(&env.encrypted));
    assert!(is_lower_hex_str(&env.nonce));
    assert_eq!(engine.decrypt(env).unwrap(), "hello");
}

#[test]
fn round_trip_multibyte_text() {
    let engine = CryptoEngine::new();
    let text = "h\u{e9}llo \u{1F30D} \u{591A}\u{5B57}\u{7BC0}";
    let env = engine.encrypt(text.to_string()).unwrap();
    assert_eq!(engine.decrypt(env).unwrap(), text);
}

#[test]
fn round_trip_empty_string() {
    let engine = CryptoEngine::new();
    let env = engine.encrypt(String::new()).unwrap();
    assert_eq!(env.encrypted.len(), 32);
    assert_eq!(engine.decrypt(env).unwrap(), "");
}

#[test]
fn decrypt_works_across_engines_sharing_the_key() {
    let first = CryptoEngine::new();
    let env = first.encrypt("shared secret".to_string()).unwrap();
    let second = CryptoEngine::with_key(first.get_master_key()).unwrap();
    assert_eq!(second.decrypt(env).unwrap(), "shared secret");
}

#[test]
fn fresh_salt_and_nonce_on_every_encrypt() {
    let engine = CryptoEngine::new();
    let env1 = engine.encrypt("same text".to_string()).unwrap();
    let env2 = engine.encrypt("same text".to_string()).unwrap();
    assert_ne!(env1.salt, env2.salt);
    assert_ne!(env1.nonce, env2.nonce);
    assert_ne!(env1.encrypted, env2.encrypted);
}

fn flip_hex_digit(s: &str, index: usize) -> String {
    let mut chars: Vec<char> = s.chars().collect();
    chars[index] = if chars[index] == '0' { '1' } else { '0' };
    chars.into_iter().collect()
}

#[test]
fn tampered_ciphertext_fails_to_decrypt() {
    let engine = CryptoEngine::new();
    let env = engine.encrypt("attack at dawn".to_string()).unwrap();
    let tampered = EncryptedData {
        encrypted: flip_hex_digit(&env.encrypted, 3),
        nonce: env.nonce.clone(),
        salt: env.salt.clone(),
    };
    assert_eq!(engine.decrypt(tampered).err(), Some(CryptoError::Authentication));
}

#[test]
fn tampered_nonce_fails_to_decrypt() {
    let engine = CryptoEngine::new();
    let env = engine.encrypt("attack at dawn".to_string()).unwrap();
    let tampered = EncryptedData {
        encrypted: env.encrypted.clone(),
        nonce: flip_hex_digit(&env.nonce, 0),
        salt: env.salt.clone(),
    };
    assert_eq!(engine.decrypt(tampered).err(), Some(CryptoError::Authentication));
}

#[test]
fn tampered_salt_fails_to_decrypt() {
    let engine = CryptoEngine::new();
    let env = engine.encrypt("attack at dawn".to_string()).unwrap();
    let mut salt_chars: Vec<char> = env.salt.chars().collect();
    salt_chars[0] = if salt_chars[0] == 'A' { 'B' } else { 'A' };
    let tampered = EncryptedData {
        encrypted: env.encrypted.clone(),
        nonce: env.nonce.clone(),
        salt: salt_chars.into_iter().collect(),
    };
    assert_eq!(engine.decrypt(tampered).err(), Some(CryptoError::Authentication));
}

#[test]
fn decrypt_with_wrong_key_fails() {
    let engine = CryptoEngine::new();
    let env = engine.encrypt("for your eyes only".to_string()).unwrap();
    let other = CryptoEngine::new();
    assert_eq!(other.decrypt(env).err(), Some(CryptoError::Authentication));
}

#[test]
fn decrypt_reports_every_failure_uniformly() {
    let engine = CryptoEngine::new();
    let env = engine.encrypt("x".to_string()).unwrap();
    let bad_nonce = EncryptedData {
        encrypted: env.encrypted.clone(),
        nonce: "not hex at all".to_string(),
        salt: env.salt.clone(),
    };
    assert_eq!(engine.decrypt(bad_nonce).err(), Some(CryptoError::Authentication));
    let bad_ct = EncryptedData {
        encrypted: "0g".to_string(),
        nonce: env.nonce.clone(),
        salt: env.salt.clone(),
    };
    assert_eq!(engine.decrypt(bad_ct).err(), Some(CryptoError::Authentication));
    let bad_salt = EncryptedData {
        encrypted: env.encrypted.clone(),
        nonce: env.nonce.clone(),
        salt: "!!".to_string(),
    };
    assert_eq!(engine.decrypt(bad_salt).err(), Some(CryptoError::Authentication));
}

#[test]
fn random_bytes_has_exact_length_and_varies() {
    let engine = CryptoEngine::new();
    let a = engine.random_bytes(32);
    let b = engine.random_bytes(32);
    assert_eq!(a.len(), 32);
    assert_eq!(b.len(), 32);
    assert_ne!(a, b);
    assert_eq!(engine.random_bytes(0).len(), 0);
    assert_eq!(engine.random_bytes(1).len(), 1);
}

#[test]
fn random_hex_is_lowercase_hex_of_requested_length() {
    let engine = CryptoEngine::new();
    let a = engine.random_hex(16);
    let b = engine.random_hex(16);
    assert_eq!(a.len(), 32);
    assert!(is_lower_hex_str(&a));
    assert_ne!(a, b);
    assert_eq!(engine.random_hex(0), "");
}
