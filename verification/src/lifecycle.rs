//! Lifecycle evaluator: the pure predicate deciding whether a link record is
//! dead.  The retrieval and unlock services use it to refuse dead links, and
//! the cleanup sweeper uses the very same predicate to select rows for
//! deletion; the two must never diverge.

use vstd::prelude::*;

use crate::model::LinkRow;

verus! {

/// The link's absolute expiry lies strictly before `now`.
pub open spec fn time_expired(row: LinkRow, now: int) -> bool {
    row.expires_at matches Some(e) && e < now
}

/// A one-time-view link whose payload has already been disclosed.
pub open spec fn view_consumed(row: LinkRow) -> bool {
    row.one_time_view != 0 && row.view_count > 0
}

/// A one-time-password link whose password has already been used.
pub open spec fn password_consumed(row: LinkRow) -> bool {
    row.one_time_password != 0 && row.password_used != 0
}

/// A dead link: expired by time, view-consumed, or password-consumed.  Dead
/// links are never served and are eligible for deletion by the sweeper.
pub open spec fn is_dead(row: LinkRow, now: int) -> bool {
    time_expired(row, now) || view_consumed(row) || password_consumed(row)
}

/// Decides whether `row` is dead at time `now` (seconds).
pub fn is_link_expired_or_consumed(row: &LinkRow, now: i64) -> (dead: bool)
    ensures
        dead == is_dead(*row, now as int),
{
    if let Some(exp) = row.expires_at {
        if exp < now {
            return true;
        }
    }
    if row.one_time_view != 0 && row.view_count > 0 {
        return true;
    }
    if row.one_time_password != 0 && row.password_used != 0 {
        return true;
    }
    false
}

} // verus!
