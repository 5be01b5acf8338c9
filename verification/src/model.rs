//! Data model: the persistent link record and the request/response shapes
//! of the sharing service, together with the service configuration.

use vstd::prelude::*;

verus! {

/// Number of characters in a share token.
pub const TOKEN_LEN: usize = 16;

/// Latest instant (in seconds) the services accept as "now".  Keeping `now`
/// below this bound leaves room to add any expiry duration a request can
/// express without overflowing an `i64`.
pub const MAX_TIME: i64 = 0x7fff_0000_0000_0000;

/// A stored share link.  Timestamps are in seconds; `one_time_view`,
/// `one_time_password` and `password_used` are stored as integers, zero
/// meaning false, as the storage layer keeps them.
#[derive(Debug)]
pub struct LinkRow {
    pub id: i64,
    pub token: String,
    /// Base64 of nonce followed by ciphertext and authentication tag; the
    /// plaintext is never stored.
    pub encrypted_text: String,
    /// Present iff the link is password-protected; an empty string is the
    /// legacy "protected in the UI but no real password" sentinel and gates
    /// nothing.
    pub password_hash: Option<String>,
    /// Absolute expiry; `None` means the link never expires by time.
    pub expires_at: Option<i64>,
    pub one_time_view: i32,
    pub one_time_password: i32,
    pub view_count: i64,
    pub password_used: i32,
    pub created_at: i64,
}

impl LinkRow {
    /// An exact copy of the record.
    pub fn duplicate(&self) -> (r: LinkRow)
        ensures
            r == *self,
    {
        LinkRow {
            id: self.id,
            token: self.token.clone(),
            encrypted_text: self.encrypted_text.clone(),
            password_hash: match &self.password_hash {
                Some(h) => Some(h.clone()),
                None => None,
            },
            expires_at: self.expires_at,
            one_time_view: self.one_time_view,
            one_time_password: self.one_time_password,
            view_count: self.view_count,
            password_used: self.password_used,
            created_at: self.created_at,
        }
    }
}

/// An inbound request to create a share link.
#[derive(Debug)]
pub struct CreateRequest {
    pub text: String,
    pub password: Option<String>,
    pub expire_minutes: Option<u32>,
    pub expire_hours: Option<u32>,
    pub one_time_view: bool,
    pub one_time_password: bool,
}

/// The answer to a successful creation: the token and the full share URL.
#[derive(Debug)]
pub struct CreateResponse {
    pub token: String,
    pub url: String,
}

/// An inbound request to unlock a password-protected link.
#[derive(Debug)]
pub struct UnlockRequest {
    pub password: String,
}

/// The disclosed plaintext of an unlocked link.
#[derive(Debug)]
pub struct UnlockResponse {
    pub text: String,
}

/// A client-visible error message.
#[derive(Debug)]
pub struct ErrorResponse {
    pub error: String,
}

/// Service configuration, supplied by the boundary layer.
#[derive(Debug)]
pub struct Config {
    pub host: String,
    pub port: u16,
    pub database_url: String,
    pub encryption_key_base64: String,
    pub create_rate_limit_per_minute: u32,
    pub max_text_size_bytes: usize,
    pub cleanup_interval_secs: u64,
    pub base_url: String,
}

} // verus!
