use shredlink::crypto::{
    check_password, decrypt_text, encrypt_text, hash_password, verify_password, CryptoError,
};

const DEV_KEY: &str = "AAAAAAAAAAAAAAAAAAAAAAAAAAAAAAAAAAAAAAAAAAA=";
const OTHER_KEY: &str = "AQEBAQEBAQEBAQEBAQEBAQEBAQEBAQEBAQEBAQEBAQE=";

#[test]
fn encrypt_decrypt_round_trip() {
    let blob = encrypt_text("secret", DEV_KEY).unwrap();
    assert_eq!(decrypt_text(&blob, DEV_KEY).unwrap(), "secret");
}

#[test]
fn encrypt_decrypt_round_trip_multibyte() {
    let text = "h\u{e9}llo \u{2014} \u{633}\u{644}\u{627}\u{645} \u{1f512}";
    let blob = encrypt_text(text, DEV_KEY).unwrap();
    assert_eq!(decrypt_text(&blob, DEV_KEY).unwrap(), text);
}

#[test]
fn encrypt_produces_fresh_nonce() {
    let a = encrypt_text("same text", DEV_KEY).unwrap();
    let b = encrypt_text("same text", DEV_KEY).unwrap();
    assert_ne!(a, b);
}

#[test]
fn encrypt_rejects_bad_key() {
    assert_eq!(encrypt_text("x", "not base64!!").unwrap_err(), CryptoError::InvalidKey);
    assert_eq!(encrypt_text("x", "c2hvcnQ=").unwrap_err(), CryptoError::InvalidKey);
}

#[test]
fn decrypt_rejects_wrong_key() {
    let blob = encrypt_text("secret", DEV_KEY).unwrap();
    assert_eq!(decrypt_text(&blob, OTHER_KEY).unwrap_err(), CryptoError::DecryptFailed);
}

#[test]
fn decrypt_rejects_tampered_blob() {
    let blob = encrypt_text("secret", DEV_KEY).unwrap();
    let mut bytes = base64_decode(&blob);
    let last = bytes.len() - 1;
    bytes[last] ^= 0x01;
    let tampered = base64_encode(&bytes);
    assert_eq!(decrypt_text(&tampered, DEV_KEY).unwrap_err(), CryptoError::DecryptFailed);
}

#[test]
fn decrypt_rejects_truncated_blob() {
    assert_eq!(decrypt_text("AAAA", DEV_KEY).unwrap_err(), CryptoError::InvalidPayload);
    assert_eq!(decrypt_text("@@@@", DEV_KEY).unwrap_err(), CryptoError::InvalidPayload);
}

#[test]
fn decrypt_tolerates_surrounding_whitespace() {
    let blob = encrypt_text("secret", DEV_KEY).unwrap();
    let padded = format!("  {}\n", blob);
    let key_padded = format!(" {}\n", DEV_KEY);
    assert_eq!(decrypt_text(&padded, &key_padded).unwrap(), "secret");
}

#[test]
fn password_hash_verifies() {
    let hash = hash_password("hunter2").unwrap();
    assert!(verify_password("hunter2", &hash).unwrap());
    assert!(!verify_password("hunter3", &hash).unwrap());
}

#[test]
fn password_hashes_are_salted() {
    let a = hash_password("pw").unwrap();
    let b = hash_password("pw").unwrap();
    assert_ne!(a, b);
    assert!(check_password("pw", &a));
    assert!(check_password("pw", &b));
}

#[test]
fn malformed_hash_is_a_mismatch_not_a_panic() {
    assert!(verify_password("pw", "not a phc string").is_err());
    assert!(!check_password("pw", "not a phc string"));
    assert!(!check_password("pw", ""));
}

fn base64_decode(s: &str) -> Vec<u8> {
    base64::Engine::decode(&base64::engine::general_purpose::STANDARD, s).unwrap()
}

fn base64_encode(bytes: &[u8]) -> String {
    base64::Engine::encode(&base64::engine::general_purpose::STANDARD, bytes)
}

#[test]
fn decrypt_reports_invalid_utf8() {
    // a well-authenticated blob whose plaintext is not UTF-8
    let key = base64_decode(DEV_KEY);
    let cipher =
        <aes_gcm::Aes256Gcm as aes_gcm::KeyInit>::new_from_slice(&key).unwrap();
    let nonce = [7u8; 12];
    let ct = aes_gcm::aead::Aead::encrypt(
        &cipher,
        aes_gcm::Nonce::from_slice(&nonce),
        &[0xffu8, 0xfe, 0x80][..],
    )
    .unwrap();
    let mut blob = nonce.to_vec();
    blob.extend_from_slice(&ct);
    let encoded = base64_encode(&blob);
    assert_eq!(decrypt_text(&encoded, DEV_KEY).unwrap_err(), CryptoError::InvalidUtf8);
}
