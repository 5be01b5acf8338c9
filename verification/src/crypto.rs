//! Crypto module: authenticated encryption of stored payloads (AES-256-GCM
//! over a base64-encoded 32-byte key, with a fresh random nonce per call)
//! and salted password hashing (Argon2).
//!
//! The outside primitives are reached through small trusted wrappers; the
//! composition around them — key decoding and checking, nonce framing,
//! payload splitting, UTF-8 handling — is verified.

use vstd::prelude::*;
use vstd::utf8::*;

verus! {

/// Number of nonce bytes prepended to the ciphertext in a stored blob.
pub const NONCE_LEN: usize = 12;

/// Why a crypto operation failed.
#[derive(Clone, Copy, Debug, PartialEq, Eq, Structural)]
pub enum CryptoError {
    /// The key is not the base64 encoding of exactly 32 bytes.
    InvalidKey,
    /// The stored blob is not base64, or is too short to hold a nonce.
    InvalidPayload,
    /// Authentication failed: the ciphertext was tampered with or the key
    /// does not match.
    DecryptFailed,
    /// The decrypted bytes are not valid UTF-8.
    InvalidUtf8,
    /// Encryption refused the plaintext.
    EncryptFailed,
    /// Password hashing failed.
    HashFailed,
}

/// What `str::trim` returns for the given characters.
pub uninterp spec fn trim_of(s: Seq<char>) -> Seq<char>;

/// What base64 (standard alphabet, padded) decoding returns: `None` on
/// malformed input.
pub uninterp spec fn b64_decode_of(s: Seq<char>) -> Option<Seq<u8>>;

/// What AES-256-GCM decryption returns for a key, nonce and ciphertext
/// (tag included): `None` when authentication fails.
pub uninterp spec fn aes_open_of(key: Seq<u8>, nonce: Seq<u8>, ciphertext: Seq<u8>) -> Option<
    Seq<u8>,
>;

/// Whether a stored password hash parses as a PHC string.
pub uninterp spec fn phc_hash_wf(hash: Seq<char>) -> bool;

/// Whether Argon2 verification of `password` against `hash` succeeds.
pub uninterp spec fn password_matches(password: Seq<char>, hash: Seq<char>) -> bool;

/// The 32 key bytes encoded by a key string, if it is a valid key.
pub open spec fn key_bytes_of(key_b64: Seq<char>) -> Option<Seq<u8>> {
    match b64_decode_of(trim_of(key_b64)) {
        Some(kb) => if kb.len() == 32 {
            Some(kb)
        } else {
            None
        },
        None => None,
    }
}

/// A valid key: base64 of exactly 32 bytes (ignoring surrounding whitespace).
pub open spec fn valid_key(key_b64: Seq<char>) -> bool {
    key_bytes_of(key_b64) is Some
}

/// What decrypting a stored blob under a key yields: the blob is trimmed,
/// base64-decoded, split into nonce and ciphertext, authenticated and
/// decrypted, and the result read as UTF-8.  `None` when any step fails.
pub open spec fn decrypt_blob_of(blob_b64: Seq<char>, key_b64: Seq<char>) -> Option<Seq<char>> {
    match key_bytes_of(key_b64) {
        None => None,
        Some(kb) => match b64_decode_of(trim_of(blob_b64)) {
            None => None,
            Some(raw) => if raw.len() < NONCE_LEN {
                None
            } else {
                match aes_open_of(kb, raw.take(NONCE_LEN as int), raw.skip(NONCE_LEN as int)) {
                    None => None,
                    Some(pt) => if valid_utf8(pt) {
                        Some(decode_utf8(pt))
                    } else {
                        None
                    },
                }
            },
        },
    }
}

/// The error `decrypt_text` reports when `decrypt_blob_of` is `None`.
pub open spec fn decrypt_error_of(blob_b64: Seq<char>, key_b64: Seq<char>) -> CryptoError {
    match key_bytes_of(key_b64) {
        None => CryptoError::InvalidKey,
        Some(kb) => match b64_decode_of(trim_of(blob_b64)) {
            None => CryptoError::InvalidPayload,
            Some(raw) => if raw.len() < NONCE_LEN {
                CryptoError::InvalidPayload
            } else {
                match aes_open_of(kb, raw.take(NONCE_LEN as int), raw.skip(NONCE_LEN as int)) {
                    None => CryptoError::DecryptFailed,
                    Some(pt) => CryptoError::InvalidUtf8,
                }
            },
        },
    }
}

/// A password that unlocks a stored hash: the hash parses and Argon2
/// verification succeeds.
pub open spec fn password_accepts(password: Seq<char>, hash: Seq<char>) -> bool {
    phc_hash_wf(hash) && password_matches(password, hash)
}

/// Relies on `str::trim`: the result depends on the characters alone.
#[verifier::external_body]
fn trim_str(s: &str) -> (r: &str)
    ensures
        r@ == trim_of(s@),
{
    s.trim()
}

/// Relies on base64's `STANDARD` engine: decoding depends on the input
/// characters alone and fails exactly on malformed input.
#[verifier::external_body]
fn b64_decode(s: &str) -> (r: Option<Vec<u8>>)
    ensures
        r is Some <==> b64_decode_of(s@) is Some,
        r matches Some(v) ==> Some(v@) == b64_decode_of(s@),
{
    base64::Engine::decode(&base64::engine::general_purpose::STANDARD, s).ok()
}

/// Relies on base64's `STANDARD` engine: the encoding of any byte string
/// decodes back to exactly those bytes, and consists of the characters
/// `A`-`Z`, `a`-`z`, `0`-`9`, `+`, `/` and `=` only, so trimming leaves it
/// unchanged.
#[verifier::external_body]
fn b64_encode(bytes: &[u8]) -> (r: String)
    ensures
        b64_decode_of(r@) == Some(bytes@),
        trim_of(r@) == r@,
{
    base64::Engine::encode(&base64::engine::general_purpose::STANDARD, bytes)
}

/// Relies on AES-256-GCM encryption (`aes_gcm` crate): the returned
/// ciphertext decrypts back to the plaintext under the same key and nonce,
/// and encryption only refuses plaintexts beyond 2^36 bytes.
#[verifier::external_body]
fn aes_gcm_encrypt(key: &[u8], nonce: &[u8], plaintext: &[u8]) -> (r: Option<Vec<u8>>)
    requires
        key@.len() == 32,
        nonce@.len() == 12,
    ensures
        r matches Some(ct) ==> aes_open_of(key@, nonce@, ct@) == Some(plaintext@),
        plaintext@.len() < 0x1000_0000 ==> r is Some,
{
    let cipher = match <aes_gcm::Aes256Gcm as aes_gcm::KeyInit>::new_from_slice(key) {
        Ok(c) => c,
        Err(_) => {
            return None;
        },
    };
    aes_gcm::aead::Aead::encrypt(&cipher, aes_gcm::Nonce::from_slice(nonce), plaintext).ok()
}

/// Relies on AES-256-GCM decryption (`aes_gcm` crate): deterministic in key,
/// nonce and ciphertext; authentication failure yields `None` and never a
/// partial plaintext.
#[verifier::external_body]
fn aes_gcm_decrypt(key: &[u8], nonce: &[u8], ciphertext: &[u8]) -> (r: Option<Vec<u8>>)
    requires
        key@.len() == 32,
        nonce@.len() == 12,
    ensures
        r is Some <==> aes_open_of(key@, nonce@, ciphertext@) is Some,
        r matches Some(pt) ==> Some(pt@) == aes_open_of(key@, nonce@, ciphertext@),
{
    let cipher = match <aes_gcm::Aes256Gcm as aes_gcm::KeyInit>::new_from_slice(key) {
        Ok(c) => c,
        Err(_) => {
            return None;
        },
    };
    aes_gcm::aead::Aead::decrypt(&cipher, aes_gcm::Nonce::from_slice(nonce), ciphertext).ok()
}

/// Relies on `rand_core`'s `OsRng` for 12 random bytes; nothing is assumed
/// of them beyond the length.
#[verifier::external_body]
fn random_nonce() -> (r: Vec<u8>)
    ensures
        r@.len() == 12,
{
    let mut nonce = [0u8; 12];
    rand_core::RngCore::fill_bytes(&mut rand_core::OsRng, &mut nonce);
    nonce.to_vec()
}

/// Relies on `String::from_utf8`: succeeds exactly on valid UTF-8 and
/// returns the decoded characters.
#[verifier::external_body]
fn bytes_to_string(bytes: Vec<u8>) -> (r: Option<String>)
    ensures
        r is Some <==> valid_utf8(bytes@),
        r matches Some(s) ==> s@ == decode_utf8(bytes@),
{
    String::from_utf8(bytes).ok()
}

/// Relies on Argon2 password hashing with a freshly generated salt: a
/// produced hash is a non-empty PHC string that verifies against the
/// hashed password.  The hash itself depends on the random salt, so
/// nothing more is assumed of it.
#[verifier::external_body]
fn argon2_hash(password: &str) -> (r: Option<String>)
    ensures
        r matches Some(h) ==> phc_hash_wf(h@) && password_matches(password@, h@) && h@.len() > 0,
{
    let salt = argon2::password_hash::SaltString::generate(&mut rand_core::OsRng);
    match argon2::password_hash::PasswordHasher::hash_password(
        &argon2::Argon2::default(),
        password.as_bytes(),
        &salt,
    ) {
        Ok(h) => Some(h.to_string()),
        Err(_) => None,
    }
}

/// Relies on Argon2 password verification: deterministic in password and
/// hash; `None` exactly when the hash does not parse as a PHC string.
#[verifier::external_body]
fn argon2_verify(password: &str, hash: &str) -> (r: Option<bool>)
    ensures
        r is Some <==> phc_hash_wf(hash@),
        r matches Some(ok) ==> ok == password_matches(password@, hash@),
{
    match argon2::password_hash::PasswordHash::new(hash) {
        Ok(parsed) => Some(
            argon2::password_hash::PasswordVerifier::verify_password(
                &argon2::Argon2::default(),
                password.as_bytes(),
                &parsed,
            ).is_ok(),
        ),
        Err(_) => None,
    }
}

/// Hashes a password with a fresh random salt; two calls on the same
/// password yield different hashes, but every produced hash verifies
/// against the password it was made from.
pub fn hash_password(password: &str) -> (r: Result<String, CryptoError>)
    ensures
        r matches Ok(h) ==> password_accepts(password@, h@) && h@.len() > 0,
{
    match argon2_hash(password) {
        Some(h) => Ok(h),
        None => Err(CryptoError::HashFailed),
    }
}

/// Verifies a password against a stored hash.  Fails (rather than answering
/// `false`) exactly when the hash itself is malformed.
pub fn verify_password(password: &str, hash: &str) -> (r: Result<bool, CryptoError>)
    ensures
        r is Ok <==> phc_hash_wf(hash@),
        r matches Ok(ok) ==> ok == password_matches(password@, hash@),
{
    match argon2_verify(password, hash) {
        Some(ok) => Ok(ok),
        None => Err(CryptoError::HashFailed),
    }
}

/// Verifies a password against a stored hash, treating a malformed hash as
/// a mismatch.
pub fn check_password(password: &str, hash: &str) -> (r: bool)
    ensures
        r == password_accepts(password@, hash@),
{
    match verify_password(password, hash) {
        Ok(ok) => ok,
        Err(_) => false,
    }
}

/// Encrypts a plaintext under a base64-encoded 32-byte key with a fresh
/// random nonce, returning base64 of nonce, ciphertext and tag.  The blob
/// decrypts back to exactly the plaintext under the same key.
pub fn encrypt_text(plaintext: &str, key_b64: &str) -> (r: Result<String, CryptoError>)
    ensures
        !valid_key(key_b64@) ==> r == Err::<String, CryptoError>(CryptoError::InvalidKey),
        r is Ok ==> valid_key(key_b64@),
        valid_key(key_b64@) && encode_utf8(plaintext@).len() < 0x1000_0000 ==> r is Ok,
        r matches Ok(blob) ==> decrypt_blob_of(blob@, key_b64@) == Some(plaintext@),
{
    let trimmed_key = trim_str(key_b64);
    let key_bytes = match b64_decode(trimmed_key) {
        Some(kb) => kb,
        None => {
            return Err(CryptoError::InvalidKey);
        },
    };
    if key_bytes.len() != 32 {
        return Err(CryptoError::InvalidKey);
    }
    let mut blob_bytes = random_nonce();
    let ghost nonce = blob_bytes@;
    let mut ciphertext = match aes_gcm_encrypt(
        key_bytes.as_slice(),
        blob_bytes.as_slice(),
        plaintext.as_bytes(),
    ) {
        Some(ct) => ct,
        None => {
            return Err(CryptoError::EncryptFailed);
        },
    };
    let ghost ct = ciphertext@;
    blob_bytes.append(&mut ciphertext);
    let blob = b64_encode(blob_bytes.as_slice());
    proof {
        assert(blob_bytes@.take(NONCE_LEN as int) =~= nonce);
        assert(blob_bytes@.skip(NONCE_LEN as int) =~= ct);
        broadcast use encode_utf8_valid_utf8, encode_utf8_decode_utf8;

        assert(decrypt_blob_of(blob@, key_b64@) == Some(plaintext@));
    }
    Ok(blob)
}

/// Decrypts a stored blob under a base64-encoded 32-byte key.  Succeeds
/// exactly when `decrypt_blob_of` does, and reports which step refused the
/// input otherwise; never returns partially decrypted data.
pub fn decrypt_text(encrypted_b64: &str, key_b64: &str) -> (r: Result<String, CryptoError>)
    ensures
        r is Ok <==> decrypt_blob_of(encrypted_b64@, key_b64@) is Some,
        r matches Ok(t) ==> Some(t@) == decrypt_blob_of(encrypted_b64@, key_b64@),
        r matches Err(e) ==> e == decrypt_error_of(encrypted_b64@, key_b64@),
{
    let trimmed_key = trim_str(key_b64);
    let key_bytes = match b64_decode(trimmed_key) {
        Some(kb) => kb,
        None => {
            return Err(CryptoError::InvalidKey);
        },
    };
    if key_bytes.len() != 32 {
        return Err(CryptoError::InvalidKey);
    }
    let trimmed_blob = trim_str(encrypted_b64);
    let raw = match b64_decode(trimmed_blob) {
        Some(v) => v,
        None => {
            return Err(CryptoError::InvalidPayload);
        },
    };
    if raw.len() < NONCE_LEN {
        return Err(CryptoError::InvalidPayload);
    }
    let (nonce, ciphertext) = raw.as_slice().split_at(NONCE_LEN);
    proof {
        assert(nonce@ =~= raw@.take(NONCE_LEN as int));
        assert(ciphertext@ =~= raw@.skip(NONCE_LEN as int));
    }
    let plaintext_bytes = match aes_gcm_decrypt(key_bytes.as_slice(), nonce, ciphertext) {
        Some(pt) => pt,
        None => {
            return Err(CryptoError::DecryptFailed);
        },
    };
    match bytes_to_string(plaintext_bytes) {
        Some(s) => Ok(s),
        None => Err(CryptoError::InvalidUtf8),
    }
}

} // verus!
