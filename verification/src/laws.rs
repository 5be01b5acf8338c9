//! The guarantees the lifecycle and the services give, stated and proved
//! over the same spec functions the service contracts use.

use vstd::prelude::*;

use crate::crypto::{decrypt_blob_of, password_accepts};
use crate::lifecycle::{is_dead, password_consumed, time_expired, view_consumed};
use crate::model::{CreateRequest, LinkRow};
use crate::service::{
    expiry_of, gated, share_decision_of, unlock_decision_of, wants_password, ShareDecision,
    UnlockDecision,
};
use crate::store::{bump_view, created_row_ok, mark_used_bump};

verus! {

/// A link created without a password is disclosable the instant it was
/// created, and what is disclosed is exactly the text that was submitted:
/// the stored blob decrypts back to it under the creation key.
pub proof fn lemma_created_link_disclosed(row: LinkRow, req: CreateRequest, key: Seq<char>, now: int)
    requires
        created_row_ok(row, req, key, now),
        !wants_password(req),
    ensures
        share_decision_of(Some(row), now) == ShareDecision::Disclose,
        decrypt_blob_of(row.encrypted_text@, key) == Some(req.text@),
{
}

/// A link created with a password is password-gated the instant it was
/// created, the submitted password unlocks it, and the unlocked payload is
/// exactly the text that was submitted.
pub proof fn lemma_created_link_unlockable(
    row: LinkRow,
    req: CreateRequest,
    key: Seq<char>,
    now: int,
)
    requires
        created_row_ok(row, req, key, now),
        wants_password(req),
    ensures
        share_decision_of(Some(row), now) == ShareDecision::RequiresUnlock,
        unlock_decision_of(Some(row), req.password->0@, now) == UnlockDecision::Accept,
        decrypt_blob_of(row.encrypted_text@, key) == Some(req.text@),
{
}

/// A one-time-view link is disclosed at most once: while it is live its
/// retrieval decision is not `Gone`, and after the disclosure increment it
/// is dead, so any further retrieval answers `Gone`.
pub proof fn lemma_one_time_view_consumed(row: LinkRow, now: int, later: int)
    requires
        row.one_time_view != 0,
        row.view_count >= 0,
        !is_dead(row, now),
    ensures
        share_decision_of(Some(row), now) != ShareDecision::Gone,
        is_dead(bump_view(row), later),
        share_decision_of(Some(bump_view(row)), later) == ShareDecision::Gone,
{
}

/// A wrong password leaves a live password-gated link exactly where it
/// was: the unlock decision is `WrongPassword`, which mutates nothing (the
/// services' contracts state the store is unchanged), so the link is still
/// retrievable and still gated.
pub proof fn lemma_wrong_password_harmless(row: LinkRow, bad: Seq<char>, now: int)
    requires
        !is_dead(row, now),
        gated(row),
        !password_accepts(bad, row.password_hash->0@),
    ensures
        unlock_decision_of(Some(row), bad, now) == UnlockDecision::WrongPassword,
        share_decision_of(Some(row), now) == ShareDecision::RequiresUnlock,
{
}

/// A one-time-password link accepts the correct password exactly once:
/// the first unlock is accepted, and after the consumption update any
/// further unlock — even with the correct password — answers `Gone`.
pub proof fn lemma_one_time_password_consumed(row: LinkRow, good: Seq<char>, now: int, later: int)
    requires
        !is_dead(row, now),
        gated(row),
        row.one_time_password != 0,
        password_accepts(good, row.password_hash->0@),
    ensures
        unlock_decision_of(Some(row), good, now) == UnlockDecision::Accept,
        unlock_decision_of(Some(mark_used_bump(row)), good, later) == UnlockDecision::Gone,
        share_decision_of(Some(mark_used_bump(row)), later) == ShareDecision::Gone,
{
}

/// A link created with a zero (or absent) duration never expires by time:
/// its record carries no expiry, and at no instant is it time-expired; it
/// can die only by consumption.
pub proof fn lemma_zero_duration_never_expires(
    row: LinkRow,
    req: CreateRequest,
    key: Seq<char>,
    now: int,
)
    requires
        created_row_ok(row, req, key, now),
        req.expire_minutes is None || req.expire_minutes == Some(0u32),
        req.expire_hours is None || req.expire_hours == Some(0u32),
    ensures
        row.expires_at is None,
        forall|at: int| !time_expired(row, at),
        forall|at: int|
            is_dead(row, at) <==> view_consumed(row) || password_consumed(row),
{
    assert(expiry_of(req.expire_minutes, req.expire_hours, now) is None);
}

/// A link whose expiry lies in the past is never disclosed and never
/// unlocked, whether or not the sweeper has reclaimed it yet: the
/// read-time lifecycle check alone answers `Gone`.
pub proof fn lemma_expired_never_disclosed(row: LinkRow, password: Seq<char>, now: int)
    requires
        row.expires_at matches Some(e) && e < now,
    ensures
        share_decision_of(Some(row), now) == ShareDecision::Gone,
        unlock_decision_of(Some(row), password, now) == UnlockDecision::Gone,
{
}

} // verus!
