//! Creation, retrieval and unlock services, as pure steps over a link
//! record: validation and preparation of a new link, the retrieval state
//! machine (not found / gone / requires unlock / disclose), and the
//! password-gated unlock flow.  The boundary layer looks the record up,
//! runs a step, and applies the returned effect to the store.

use vstd::prelude::*;
use vstd::utf8::encode_utf8;

use crate::crypto::{
    decrypt_blob_of, decrypt_text, encrypt_text, hash_password, check_password, password_accepts,
    valid_key,
};
use crate::lifecycle::{is_dead, is_link_expired_or_consumed};
use crate::model::{CreateRequest, LinkRow, MAX_TIME, TOKEN_LEN};

verus! {

/// Characters a share token may consist of: the URL-safe alphabet.
pub open spec fn url_safe_char(c: char) -> bool {
    c == '_' || c == '-' || ('0' <= c && c <= '9') || ('a' <= c && c <= 'z') || ('A' <= c && c
        <= 'Z')
}

/// Relies on `nanoid::format` with the URL-safe alphabet and its default
/// secure RNG: returns exactly `len` characters drawn from that alphabet.
#[verifier::external_body]
fn nanoid_token(len: usize) -> (r: String)
    requires
        1 <= len,
    ensures
        r@.len() == len as nat,
        forall|i: int| 0 <= i < r@.len() ==> url_safe_char(#[trigger] r@[i]),
{
    nanoid::format(nanoid::rngs::default, &nanoid::alphabet::SAFE, len)
}

/// Generates a fresh random share token: [`TOKEN_LEN`] characters from the
/// URL-safe alphabet.
pub fn generate_token() -> (r: String)
    ensures
        r@.len() == TOKEN_LEN as nat,
        forall|i: int| 0 <= i < r@.len() ==> url_safe_char(#[trigger] r@[i]),
{
    nanoid_token(TOKEN_LEN)
}

/// Why a creation request was refused.
#[derive(Clone, Copy, Debug, PartialEq, Eq, Structural)]
pub enum CreateError {
    /// The text is empty.
    TextRequired,
    /// The text exceeds the configured maximum byte size.
    TextTooLarge,
    /// Hashing, encryption or storage failed.
    Internal,
}

/// The absolute expiry a request asks for: `now` plus the requested minutes
/// and hours, in seconds; a non-positive total duration means the link
/// never expires by time.
pub open spec fn expiry_of(
    expire_minutes: Option<u32>,
    expire_hours: Option<u32>,
    now: int,
) -> Option<int> {
    let m = match expire_minutes {
        Some(v) => v as int,
        None => 0,
    };
    let h = match expire_hours {
        Some(v) => v as int,
        None => 0,
    };
    let total_mins = m + h * 60;
    if total_mins > 0 {
        Some(now + total_mins * 60)
    } else {
        None
    }
}

/// Computes the absolute expiry for a creation request.
pub fn compute_expires_at(expire_minutes: Option<u32>, expire_hours: Option<u32>, now: i64) -> (r:
    Option<i64>)
    requires
        0 <= now <= MAX_TIME,
    ensures
        match r {
            Some(e) => expiry_of(expire_minutes, expire_hours, now as int) == Some(e as int),
            None => expiry_of(expire_minutes, expire_hours, now as int) is None,
        },
{
    let m: i64 = match expire_minutes {
        Some(v) => v as i64,
        None => 0,
    };
    let h: i64 = match expire_hours {
        Some(v) => v as i64,
        None => 0,
    };
    let total_mins: i64 = m + h * 60;
    if total_mins > 0 {
        Some(now + total_mins * 60)
    } else {
        None
    }
}

/// A fully prepared link, ready to be persisted: the payload is encrypted,
/// the password (if any) hashed, the token generated.
#[derive(Debug)]
pub struct NewLink {
    pub token: String,
    pub encrypted_text: String,
    pub password_hash: Option<String>,
    pub expires_at: Option<i64>,
    pub one_time_view: i32,
    pub one_time_password: i32,
}

/// Whether a request carries a real (non-empty) password.
pub open spec fn wants_password(req: CreateRequest) -> bool {
    req.password matches Some(p) && p@.len() > 0
}

/// What a correctly prepared link looks like for a request: token shape,
/// payload that decrypts back to the request's text, a hash that accepts
/// the request's password iff one was given, the requested expiry and
/// one-time flags.
pub open spec fn prepared_ok(nl: NewLink, req: CreateRequest, key: Seq<char>, now: int) -> bool {
    &&& nl.token@.len() == TOKEN_LEN as nat
    &&& forall|i: int| 0 <= i < nl.token@.len() ==> url_safe_char(#[trigger] nl.token@[i])
    &&& decrypt_blob_of(nl.encrypted_text@, key) == Some(req.text@)
    &&& match nl.password_hash {
        Some(h) => wants_password(req) && password_accepts(req.password->0@, h@) && h@.len() > 0,
        None => !wants_password(req),
    }
    &&& match nl.expires_at {
        Some(e) => expiry_of(req.expire_minutes, req.expire_hours, now) == Some(e as int),
        None => expiry_of(req.expire_minutes, req.expire_hours, now) is None,
    }
    &&& nl.one_time_view == (if req.one_time_view {
        1int
    } else {
        0int
    })
    &&& nl.one_time_password == (if req.one_time_password {
        1int
    } else {
        0int
    })
}

/// Validates a creation request and prepares the link: rejects empty or
/// oversized text, hashes a non-empty password, encrypts the text, and
/// generates a fresh token.  Succeeds whenever the inputs are valid, the
/// key is valid and no password has to be hashed; a refused hash or
/// encryption surfaces as `Internal`.
pub fn prepare_link(req: &CreateRequest, now: i64, max_text_size_bytes: usize, key_b64: &str) -> (r:
    Result<NewLink, CreateError>)
    requires
        0 <= now <= MAX_TIME,
    ensures
        r == Err::<NewLink, CreateError>(CreateError::TextRequired) <==> req.text@.len() == 0,
        r == Err::<NewLink, CreateError>(CreateError::TextTooLarge) <==> req.text@.len() > 0
            && (encode_utf8(req.text@).len() as usize) > max_text_size_bytes,
        r matches Ok(nl) ==> prepared_ok(nl, *req, key_b64@, now as int),
        r is Ok ==> valid_key(key_b64@),
        req.text@.len() > 0 && encode_utf8(req.text@).len() <= max_text_size_bytes as nat
            && encode_utf8(req.text@).len() < 0x1000_0000 && valid_key(key_b64@) && !wants_password(
            *req,
        ) ==> r is Ok,
{
    if req.text.as_str().is_empty() {
        return Err(CreateError::TextRequired);
    }
    if req.text.as_str().len() > max_text_size_bytes {
        return Err(CreateError::TextTooLarge);
    }
    let password_hash = match &req.password {
        Some(p) => {
            if p.as_str().is_empty() {
                None
            } else {
                match hash_password(p.as_str()) {
                    Ok(h) => Some(h),
                    Err(_) => {
                        return Err(CreateError::Internal);
                    },
                }
            }
        },
        None => None,
    };
    let encrypted_text = match encrypt_text(req.text.as_str(), key_b64) {
        Ok(blob) => blob,
        Err(_) => {
            return Err(CreateError::Internal);
        },
    };
    let expires_at = compute_expires_at(req.expire_minutes, req.expire_hours, now);
    let token = generate_token();
    Ok(
        NewLink {
            token,
            encrypted_text,
            password_hash,
            expires_at,
            one_time_view: if req.one_time_view {
                1
            } else {
                0
            },
            one_time_password: if req.one_time_password {
                1
            } else {
                0
            },
        },
    )
}

/// The share URL for a token: the base URL, stripped of trailing slashes,
/// joined with the share path.
pub open spec fn strip_trailing_slashes(s: Seq<char>) -> Seq<char>
    decreases s.len(),
{
    if s.len() > 0 && s.last() == '/' {
        strip_trailing_slashes(s.drop_last())
    } else {
        s
    }
}

/// The full share URL of a token under a base URL.
pub open spec fn url_of(base: Seq<char>, token: Seq<char>) -> Seq<char> {
    strip_trailing_slashes(base) + "/s/"@ + token
}

/// Builds the share URL for a token.
pub fn share_url(base_url: &str, token: &str) -> (r: String)
    ensures
        r@ == url_of(base_url@, token@),
{
    let n = base_url.unicode_len();
    let mut end = n;
    proof {
        assert(base_url@.take(n as int) =~= base_url@);
    }
    while end > 0 && base_url.get_char(end - 1) == '/'
        invariant
            end <= n,
            n == base_url@.len(),
            strip_trailing_slashes(base_url@) == strip_trailing_slashes(
                base_url@.take(end as int),
            ),
        decreases end,
    {
        proof {
            assert(base_url@.take(end as int).last() == base_url@[end - 1]);
            assert(base_url@.take(end as int).drop_last() =~= base_url@.take(end - 1));
        }
        end = end - 1;
    }
    proof {
        if end > 0 {
            assert(base_url@.take(end as int).last() != '/');
        }
        assert(strip_trailing_slashes(base_url@.take(end as int)) == base_url@.take(end as int));
    }
    let stripped = base_url.substring_char(0, end);
    let mut url = String::from_str(stripped);
    url.append("/s/");
    url.append(token);
    proof {
        assert(base_url@.take(end as int) =~= base_url@.subrange(0, end as int));
    }
    url
}

/// Whether a record is password-gated: a present, non-empty hash.  An empty
/// hash is the legacy pass-through sentinel and gates nothing.
pub open spec fn gated(row: LinkRow) -> bool {
    row.password_hash matches Some(h) && h@.len() > 0
}

/// The retrieval decision for a looked-up record.
#[derive(Clone, Copy, Debug, PartialEq, Eq, Structural)]
pub enum ShareDecision {
    /// No record carries the token.
    NotFound,
    /// The record is dead: expired or consumed.
    Gone,
    /// The record is password-gated; the caller must unlock it.
    RequiresUnlock,
    /// The payload may be disclosed.
    Disclose,
}

/// The record behind an optional reference.
pub open spec fn row_of(row: Option<&LinkRow>) -> Option<LinkRow> {
    match row {
        Some(r) => Some(*r),
        None => None,
    }
}

/// The retrieval state machine: not found, dead, password-gated, or
/// disclosable, in that order.
pub open spec fn share_decision_of(row: Option<LinkRow>, now: int) -> ShareDecision {
    match row {
        None => ShareDecision::NotFound,
        Some(r) => if is_dead(r, now) {
            ShareDecision::Gone
        } else if gated(r) {
            ShareDecision::RequiresUnlock
        } else {
            ShareDecision::Disclose
        },
    }
}

/// Decides how a retrieval of the looked-up record must be answered.
pub fn evaluate_share(row: Option<&LinkRow>, now: i64) -> (d: ShareDecision)
    ensures
        d == share_decision_of(row_of(row), now as int),
{
    let r = match row {
        Some(r) => r,
        None => {
            return ShareDecision::NotFound;
        },
    };
    if is_link_expired_or_consumed(r, now) {
        return ShareDecision::Gone;
    }
    match &r.password_hash {
        Some(h) => {
            if h.as_str().is_empty() {
                ShareDecision::Disclose
            } else {
                ShareDecision::RequiresUnlock
            }
        },
        None => ShareDecision::Disclose,
    }
}

/// The outcome of one retrieval step.  On `Disclosed` the caller must
/// atomically increment the record's view count; no other outcome mutates
/// anything.
pub enum ShareOutcome {
    NotFound,
    Gone,
    RequiresUnlock,
    /// The decrypted payload.
    Disclosed(String),
    /// The stored blob could not be decrypted: corrupted record or key
    /// mismatch.  Nothing is disclosed.
    CryptoFailure,
}

/// One retrieval step: applies the retrieval state machine to the looked-up
/// record and, when disclosure is due, decrypts the payload.
pub fn share_step(row: Option<&LinkRow>, now: i64, key_b64: &str) -> (r: ShareOutcome)
    ensures
        ({
            let rv = row_of(row);
            let now = now as int;
            match r {
                ShareOutcome::NotFound => share_decision_of(rv, now) == ShareDecision::NotFound,
                ShareOutcome::Gone => share_decision_of(rv, now) == ShareDecision::Gone,
                ShareOutcome::RequiresUnlock => share_decision_of(rv, now)
                    == ShareDecision::RequiresUnlock,
                ShareOutcome::Disclosed(text) => share_decision_of(rv, now)
                    == ShareDecision::Disclose && Some(text@) == decrypt_blob_of(
                    rv->0.encrypted_text@,
                    key_b64@,
                ),
                ShareOutcome::CryptoFailure => share_decision_of(rv, now) == ShareDecision::Disclose
                    && decrypt_blob_of(rv->0.encrypted_text@, key_b64@) is None,
            }
        }),
{
    match evaluate_share(row, now) {
        ShareDecision::NotFound => ShareOutcome::NotFound,
        ShareDecision::Gone => ShareOutcome::Gone,
        ShareDecision::RequiresUnlock => ShareOutcome::RequiresUnlock,
        ShareDecision::Disclose => {
            let r = match row {
                Some(r) => r,
                None => {
                    return ShareOutcome::NotFound;
                },
            };
            match decrypt_text(r.encrypted_text.as_str(), key_b64) {
                Ok(text) => ShareOutcome::Disclosed(text),
                Err(_) => ShareOutcome::CryptoFailure,
            }
        },
    }
}

/// The unlock decision for a looked-up record and submitted password.
#[derive(Clone, Copy, Debug, PartialEq, Eq, Structural)]
pub enum UnlockDecision {
    NotFound,
    Gone,
    /// The link carries no real password; the unlock request is malformed
    /// for it.
    NotProtected,
    /// The submitted password does not verify; nothing changes.
    WrongPassword,
    /// The password verifies; the payload is owed.
    Accept,
}

/// The unlock state machine: not found, dead, not protected, wrong
/// password, or accepted, in that order.
pub open spec fn unlock_decision_of(row: Option<LinkRow>, password: Seq<char>, now: int) -> UnlockDecision {
    match row {
        None => UnlockDecision::NotFound,
        Some(r) => if is_dead(r, now) {
            UnlockDecision::Gone
        } else if !gated(r) {
            UnlockDecision::NotProtected
        } else if !password_accepts(password, r.password_hash->0@) {
            UnlockDecision::WrongPassword
        } else {
            UnlockDecision::Accept
        },
    }
}

/// The outcome of one unlock step.  On `Unlocked` the caller must
/// atomically set `password_used` (when `consume_password` is set) and
/// increment the view count; no other outcome mutates anything.
pub enum UnlockOutcome {
    NotFound,
    Gone,
    NotProtected,
    WrongPassword,
    Unlocked { text: String, consume_password: bool },
    /// The password verified but the stored blob could not be decrypted.
    /// Nothing is disclosed and nothing is consumed.
    CryptoFailure,
}

/// One unlock step: applies the unlock state machine to the looked-up
/// record and, when the password verifies, decrypts the payload.  A wrong
/// password never mutates state and never erodes the one-time budget.
pub fn unlock_step(row: Option<&LinkRow>, password: &str, now: i64, key_b64: &str) -> (r:
    UnlockOutcome)
    ensures
        ({
            let rv = row_of(row);
            let now = now as int;
            match r {
                UnlockOutcome::NotFound => unlock_decision_of(rv, password@, now)
                    == UnlockDecision::NotFound,
                UnlockOutcome::Gone => unlock_decision_of(rv, password@, now)
                    == UnlockDecision::Gone,
                UnlockOutcome::NotProtected => unlock_decision_of(rv, password@, now)
                    == UnlockDecision::NotProtected,
                UnlockOutcome::WrongPassword => unlock_decision_of(rv, password@, now)
                    == UnlockDecision::WrongPassword,
                UnlockOutcome::Unlocked { text, consume_password } => unlock_decision_of(
                    rv,
                    password@,
                    now,
                ) == UnlockDecision::Accept && Some(text@) == decrypt_blob_of(
                    rv->0.encrypted_text@,
                    key_b64@,
                ) && consume_password == (rv->0.one_time_password != 0),
                UnlockOutcome::CryptoFailure => unlock_decision_of(rv, password@, now)
                    == UnlockDecision::Accept && decrypt_blob_of(
                    rv->0.encrypted_text@,
                    key_b64@,
                ) is None,
            }
        }),
{
    let r = match row {
        Some(r) => r,
        None => {
            return UnlockOutcome::NotFound;
        },
    };
    if is_link_expired_or_consumed(r, now) {
        return UnlockOutcome::Gone;
    }
    let hash = match &r.password_hash {
        Some(h) => {
            if h.as_str().is_empty() {
                return UnlockOutcome::NotProtected;
            }
            h
        },
        None => {
            return UnlockOutcome::NotProtected;
        },
    };
    if !check_password(password, hash.as_str()) {
        return UnlockOutcome::WrongPassword;
    }
    match decrypt_text(r.encrypted_text.as_str(), key_b64) {
        Ok(text) => UnlockOutcome::Unlocked {
            text,
            consume_password: r.one_time_password != 0,
        },
        Err(_) => UnlockOutcome::CryptoFailure,
    }
}

} // verus!
