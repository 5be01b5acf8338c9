//! Link repository: the store of link records, with single-row atomic
//! updates, predicate deletion for the cleanup sweeper, and the end-to-end
//! creation, retrieval and unlock services over it.

use vstd::prelude::*;
use vstd::pervasive::VecAdditionalExecFns;

use crate::crypto::decrypt_blob_of;
use crate::lifecycle::is_dead;
use crate::model::{Config, CreateRequest, CreateResponse, LinkRow, MAX_TIME};
use crate::service::{
    prepare_link, share_step, share_url, unlock_step, url_of, CreateError, NewLink, ShareOutcome,
    UnlockOutcome,
};

verus! {

/// Whether some record in `rows` carries `token`.
pub open spec fn has_token(rows: Seq<LinkRow>, token: Seq<char>) -> bool {
    exists|i: int| 0 <= i < rows.len() && rows[i].token@ == token
}

/// Row-level well-formedness of a stored sequence: tokens and ids are
/// unique, ids lie below `next_id`, and view counts are non-negative.
pub open spec fn rows_wf(rows: Seq<LinkRow>, next_id: int) -> bool {
    &&& forall|i: int, j: int|
        0 <= i < j < rows.len() ==> rows[i].token@ != rows[j].token@ && rows[i].id != rows[j].id
    &&& forall|i: int| 0 <= i < rows.len() ==> 0 <= #[trigger] rows[i].id < next_id
    &&& forall|i: int| 0 <= i < rows.len() ==> #[trigger] rows[i].view_count >= 0
}

/// A record as it is first persisted for a prepared link: fresh counters,
/// the assigned id and creation time.
pub open spec fn inserted_row(nl: NewLink, id: int, now: int) -> LinkRow {
    LinkRow {
        id: id as i64,
        token: nl.token,
        encrypted_text: nl.encrypted_text,
        password_hash: nl.password_hash,
        expires_at: nl.expires_at,
        one_time_view: nl.one_time_view,
        one_time_password: nl.one_time_password,
        view_count: 0,
        password_used: 0,
        created_at: now as i64,
    }
}

/// A record after one more disclosure: the view count grows by one
/// (saturating at the machine limit) and nothing else changes.
pub open spec fn bump_view(row: LinkRow) -> LinkRow {
    LinkRow {
        view_count: if row.view_count < i64::MAX {
            (row.view_count + 1) as i64
        } else {
            i64::MAX
        },
        ..row
    }
}

/// A record after its first successful one-time-password unlock: the
/// password is marked used and the view count grows by one.
pub open spec fn mark_used_bump(row: LinkRow) -> LinkRow {
    LinkRow { password_used: 1, ..bump_view(row) }
}

/// The records that survive a sweep at time `now`: the live ones, in order.
pub open spec fn live_rows(rows: Seq<LinkRow>, now: int) -> Seq<LinkRow>
    decreases rows.len(),
{
    if rows.len() == 0 {
        Seq::empty()
    } else {
        let rest = live_rows(rows.drop_last(), now);
        if is_dead(rows.last(), now) {
            rest
        } else {
            rest.push(rows.last())
        }
    }
}

/// How many records a sweep at time `now` deletes.
pub open spec fn dead_count(rows: Seq<LinkRow>, now: int) -> nat
    decreases rows.len(),
{
    if rows.len() == 0 {
        0
    } else {
        dead_count(rows.drop_last(), now) + if is_dead(rows.last(), now) {
            1nat
        } else {
            0nat
        }
    }
}

/// Every surviving record of a sweep was stored before it.
proof fn lemma_live_rows_contains(rows: Seq<LinkRow>, now: int)
    ensures
        forall|k: int|
            0 <= k < live_rows(rows, now).len() ==> exists|j: int|
                0 <= j < rows.len() && rows[j] == #[trigger] live_rows(rows, now)[k],
    decreases rows.len(),
{
    if rows.len() > 0 {
        lemma_live_rows_contains(rows.drop_last(), now);
        assert forall|k: int| 0 <= k < live_rows(rows, now).len() implies exists|j: int|
            0 <= j < rows.len() && rows[j] == #[trigger] live_rows(rows, now)[k] by {
            let live = live_rows(rows, now);
            let rest = live_rows(rows.drop_last(), now);
            if k < rest.len() {
                let j = choose|j: int|
                    0 <= j < rows.drop_last().len() && rows.drop_last()[j] == rest[k];
                assert(rows[j] == live[k]);
            } else {
                assert(rows[rows.len() - 1] == live[k]);
            }
        }
    }
}

/// A sweep keeps exactly the live records and deletes exactly the dead
/// ones: the survivor count and the deletion count partition the store.
pub proof fn lemma_sweep_partition(rows: Seq<LinkRow>, now: int)
    ensures
        live_rows(rows, now).len() + dead_count(rows, now) == rows.len(),
    decreases rows.len(),
{
    if rows.len() > 0 {
        lemma_sweep_partition(rows.drop_last(), now);
    }
}

/// Sweeping preserves well-formedness of the stored sequence.
proof fn lemma_live_rows_wf(rows: Seq<LinkRow>, now: int, next_id: int)
    requires
        rows_wf(rows, next_id),
    ensures
        rows_wf(live_rows(rows, now), next_id),
    decreases rows.len(),
{
    if rows.len() > 0 {
        assert(rows_wf(rows.drop_last(), next_id));
        lemma_live_rows_wf(rows.drop_last(), now, next_id);
        lemma_live_rows_contains(rows.drop_last(), now);
        let live = live_rows(rows, now);
        let rest = live_rows(rows.drop_last(), now);
        if !is_dead(rows.last(), now) {
            assert forall|i: int, j: int| 0 <= i < j < live.len() implies live[i].token@
                != live[j].token@ && live[i].id != live[j].id by {
                if j == live.len() - 1 {
                    let m = choose|m: int|
                        0 <= m < rows.drop_last().len() && rows.drop_last()[m] == rest[i];
                    assert(rows[m] == live[i]);
                    assert(rows[rows.len() - 1] == live[j]);
                }
            }
            assert forall|i: int| 0 <= i < live.len() implies 0 <= #[trigger] live[i].id < next_id
                && live[i].view_count >= 0 by {
                if i < rest.len() {
                    let m = choose|m: int|
                        0 <= m < rows.drop_last().len() && rows.drop_last()[m] == rest[i];
                }
            }
        } else {
            assert forall|i: int| 0 <= i < live.len() implies 0 <= #[trigger] live[i].id < next_id
                && live[i].view_count >= 0 by {
                let m = choose|m: int|
                    0 <= m < rows.drop_last().len() && rows.drop_last()[m] == live[i];
            }
        }
    }
}

/// Why an insertion was refused.
#[derive(Clone, Copy, Debug, PartialEq, Eq, Structural)]
pub enum StoreError {
    /// Another record already carries the token: the unique constraint
    /// fired.
    DuplicateToken,
}

/// The store of link records.  Mutations are single-row updates; deletion
/// happens only through the sweeper's predicate delete.
pub struct LinkStore {
    rows: Vec<LinkRow>,
    next_id: i64,
}

impl LinkStore {
    /// The stored records, in insertion order.
    pub closed spec fn records(self) -> Seq<LinkRow> {
        self.rows@
    }

    /// The next id the store will assign.
    pub closed spec fn next_id_spec(self) -> int {
        self.next_id as int
    }

    /// Store invariant: unique tokens and ids, ids below `next_id`,
    /// non-negative view counts.
    pub closed spec fn wf(self) -> bool {
        &&& rows_wf(self.rows@, self.next_id as int)
        &&& self.next_id >= 0
    }

    /// An empty store.
    pub fn new() -> (s: LinkStore)
        ensures
            s.wf(),
            s.records() == Seq::<LinkRow>::empty(),
            s.next_id_spec() == 0,
    {
        LinkStore { rows: Vec::new(), next_id: 0 }
    }

    /// How many records are stored.
    pub fn len(&self) -> (n: usize)
        ensures
            n == self.records().len(),
    {
        self.rows.len()
    }

    /// The index of the record carrying `token`, if any.
    fn find_index(&self, token: &str) -> (r: Option<usize>)
        ensures
            match r {
                Some(i) => i < self.records().len() && self.records()[i as int].token@ == token@,
                None => !has_token(self.records(), token@),
            },
    {
        let token_owned = String::from_str(token);
        let n = self.rows.len();
        let mut i: usize = 0;
        while i < n
            invariant
                token_owned@ == token@,
                i <= n,
                n == self.records().len(),
                forall|j: int| 0 <= j < i ==> self.records()[j].token@ != token@,
            decreases n - i,
        {
            if self.rows[i].token == token_owned {
                return Some(i);
            }
            i = i + 1;
        }
        None
    }

    /// Looks a record up by its token.
    pub fn find_by_token(&self, token: &str) -> (r: Option<&LinkRow>)
        ensures
            match r {
                Some(row) => row.token@ == token@ && self.records().contains(*row),
                None => !has_token(self.records(), token@),
            },
    {
        match self.find_index(token) {
            Some(i) => {
                let row = &self.rows[i];
                proof {
                    assert(self.records()[i as int] == *row);
                }
                Some(row)
            },
            None => None,
        }
    }

    /// Persists a prepared link with fresh counters.  Refuses a token that
    /// is already stored, leaving the store unchanged.
    pub fn insert(&mut self, nl: NewLink, now: i64) -> (r: Result<i64, StoreError>)
        requires
            old(self).wf(),
            old(self).next_id_spec() < i64::MAX,
            0 <= now,
        ensures
            final(self).wf(),
            match r {
                Ok(id) => {
                    &&& !has_token(old(self).records(), nl.token@)
                    &&& id == old(self).next_id_spec()
                    &&& final(self).records() == old(self).records().push(
                        inserted_row(nl, id as int, now as int),
                    )
                    &&& final(self).next_id_spec() == old(self).next_id_spec() + 1
                },
                Err(_) => *final(self) == *old(self) && has_token(old(self).records(), nl.token@),
            },
    {
        if self.find_index(nl.token.as_str()).is_some() {
            return Err(StoreError::DuplicateToken);
        }
        let id = self.next_id;
        let row = LinkRow {
            id,
            token: nl.token,
            encrypted_text: nl.encrypted_text,
            password_hash: nl.password_hash,
            expires_at: nl.expires_at,
            one_time_view: nl.one_time_view,
            one_time_password: nl.one_time_password,
            view_count: 0,
            password_used: 0,
            created_at: now,
        };
        self.rows.push(row);
        self.next_id = id + 1;
        Ok(id)
    }

    /// Atomically increments the view count of the record with `id`; any
    /// other record is untouched.
    pub fn increment_view_count(&mut self, id: i64)
        requires
            old(self).wf(),
        ensures
            final(self).wf(),
            final(self).next_id_spec() == old(self).next_id_spec(),
            final(self).records().len() == old(self).records().len(),
            forall|i: int|
                0 <= i < old(self).records().len() ==> #[trigger] final(self).records()[i] == (
                if old(self).records()[i].id == id {
                    bump_view(old(self).records()[i])
                } else {
                    old(self).records()[i]
                }),
    {
        let n = self.rows.len();
        let mut i: usize = 0;
        while i < n
            invariant
                i <= n,
                n == self.records().len(),
                old(self).wf(),
                self.next_id == old(self).next_id,
                self.records().len() == old(self).records().len(),
                forall|j: int|
                    0 <= j < self.records().len() ==> #[trigger] self.records()[j] == (
                    if old(self).records()[j].id == id && j < i {
                        bump_view(old(self).records()[j])
                    } else {
                        old(self).records()[j]
                    }),
            decreases n - i,
        {
            if self.rows[i].id == id {
                let row = self.rows[i].duplicate();
                let new_count: i64 = if row.view_count < i64::MAX {
                    row.view_count + 1
                } else {
                    i64::MAX
                };
                let updated = LinkRow { view_count: new_count, ..row };
                self.rows.set(i, updated);
            }
            i = i + 1;
        }
        proof {
            assert(rows_wf(self.rows@, self.next_id as int));
        }
    }

    /// Atomically marks the password used and increments the view count of
    /// the record with `id`; any other record is untouched.
    pub fn mark_password_used_and_increment(&mut self, id: i64)
        requires
            old(self).wf(),
        ensures
            final(self).wf(),
            final(self).next_id_spec() == old(self).next_id_spec(),
            final(self).records().len() == old(self).records().len(),
            forall|i: int|
                0 <= i < old(self).records().len() ==> #[trigger] final(self).records()[i] == (
                if old(self).records()[i].id == id {
                    mark_used_bump(old(self).records()[i])
                } else {
                    old(self).records()[i]
                }),
    {
        let n = self.rows.len();
        let mut i: usize = 0;
        while i < n
            invariant
                i <= n,
                n == self.records().len(),
                old(self).wf(),
                self.next_id == old(self).next_id,
                self.records().len() == old(self).records().len(),
                forall|j: int|
                    0 <= j < self.records().len() ==> #[trigger] self.records()[j] == (
                    if old(self).records()[j].id == id && j < i {
                        mark_used_bump(old(self).records()[j])
                    } else {
                        old(self).records()[j]
                    }),
            decreases n - i,
        {
            if self.rows[i].id == id {
                let row = self.rows[i].duplicate();
                let new_count: i64 = if row.view_count < i64::MAX {
                    row.view_count + 1
                } else {
                    i64::MAX
                };
                let updated = LinkRow { view_count: new_count, password_used: 1, ..row };
                self.rows.set(i, updated);
            }
            i = i + 1;
        }
        proof {
            assert(rows_wf(self.rows@, self.next_id as int));
        }
    }

    /// The cleanup sweep: deletes every dead record and no other, and
    /// reports how many were deleted.
    pub fn delete_dead(&mut self, now: i64) -> (deleted: u64)
        requires
            old(self).wf(),
        ensures
            final(self).wf(),
            final(self).next_id_spec() == old(self).next_id_spec(),
            final(self).records() == live_rows(old(self).records(), now as int),
            deleted as nat == dead_count(old(self).records(), now as int),
    {
        let n = self.rows.len();
        let mut kept: Vec<LinkRow> = Vec::new();
        let mut i: usize = 0;
        while i < n
            invariant
                i <= n,
                n == self.records().len(),
                *self == *old(self),
                kept@ == live_rows(self.records().take(i as int), now as int),
            decreases n - i,
        {
            proof {
                assert(self.records().take(i + 1).drop_last() =~= self.records().take(i as int));
                assert(self.records().take(i + 1).last() == self.records()[i as int]);
            }
            let row = &self.rows[i];
            if !crate::lifecycle::is_link_expired_or_consumed(row, now) {
                kept.push(row.duplicate());
            }
            i = i + 1;
        }
        proof {
            assert(self.records().take(n as int) =~= self.records());
            lemma_sweep_partition(self.records(), now as int);
            lemma_live_rows_wf(self.records(), now as int, self.next_id as int);
        }
        let deleted = (self.rows.len() - kept.len()) as u64;
        self.rows = kept;
        deleted
    }
}

/// What a freshly created record looks like for a request: the prepared
/// link's shape plus fresh counters and the creation time.
pub open spec fn created_row_ok(row: LinkRow, req: CreateRequest, key: Seq<char>, now: int) -> bool {
    &&& row.token@.len() == crate::model::TOKEN_LEN as nat
    &&& forall|i: int|
        0 <= i < row.token@.len() ==> crate::service::url_safe_char(#[trigger] row.token@[i])
    &&& decrypt_blob_of(row.encrypted_text@, key) == Some(req.text@)
    &&& match row.password_hash {
        Some(h) => crate::service::wants_password(req) && crate::crypto::password_accepts(
            req.password->0@,
            h@,
        ) && h@.len() > 0,
        None => !crate::service::wants_password(req),
    }
    &&& match row.expires_at {
        Some(e) => crate::service::expiry_of(req.expire_minutes, req.expire_hours, now) == Some(
            e as int,
        ),
        None => crate::service::expiry_of(req.expire_minutes, req.expire_hours, now) is None,
    }
    &&& row.one_time_view == (if req.one_time_view {
        1int
    } else {
        0int
    })
    &&& row.one_time_password == (if req.one_time_password {
        1int
    } else {
        0int
    })
    &&& row.view_count == 0
    &&& row.password_used == 0
    &&& row.created_at == now
}

/// Creation service over the store: validates the request, encrypts the
/// payload, hashes the password, generates a token, persists the record,
/// and returns the token with its share URL.  Nothing is stored on error.
pub fn create_link(store: &mut LinkStore, req: &CreateRequest, config: &Config, now: i64) -> (r:
    Result<CreateResponse, CreateError>)
    requires
        old(store).wf(),
        0 <= now <= MAX_TIME,
        old(store).next_id_spec() < i64::MAX,
    ensures
        final(store).wf(),
        r is Err ==> *final(store) == *old(store),
        r == Err::<CreateResponse, CreateError>(CreateError::TextRequired) <==> req.text@.len()
            == 0,
        r == Err::<CreateResponse, CreateError>(CreateError::TextTooLarge) <==> req.text@.len() > 0
            && (vstd::utf8::encode_utf8(req.text@).len() as usize) > config.max_text_size_bytes,
        r matches Ok(resp) ==> ({
            let row = final(store).records().last();
            &&& final(store).records() == old(store).records().push(row)
            &&& final(store).next_id_spec() == old(store).next_id_spec() + 1
            &&& !has_token(old(store).records(), resp.token@)
            &&& row.token@ == resp.token@
            &&& created_row_ok(row, *req, config.encryption_key_base64@, now as int)
            &&& resp.url@ == url_of(config.base_url@, resp.token@)
        }),
{
    let nl = match prepare_link(
        req,
        now,
        config.max_text_size_bytes,
        config.encryption_key_base64.as_str(),
    ) {
        Ok(nl) => nl,
        Err(e) => {
            return Err(e);
        },
    };
    let token = nl.token.clone();
    match store.insert(nl, now) {
        Ok(_id) => {
            let url = share_url(config.base_url.as_str(), token.as_str());
            Ok(CreateResponse { token, url })
        },
        Err(_) => Err(CreateError::Internal),
    }
}

/// Retrieval service over the store: looks the token up, applies the
/// lifecycle check and the password gate, and on disclosure decrypts the
/// payload and atomically increments the view count.  No other outcome
/// mutates the store.
pub fn get_share_page(store: &mut LinkStore, token: &str, config: &Config, now: i64) -> (r:
    ShareOutcome)
    requires
        old(store).wf(),
    ensures
        final(store).wf(),
        ({
            let rows = old(store).records();
            let key = config.encryption_key_base64@;
            let at = now as int;
            match r {
                ShareOutcome::NotFound => !has_token(rows, token@) && *final(store) == *old(store),
                ShareOutcome::Gone => *final(store) == *old(store) && exists|i: int|
                    #![auto]
                    0 <= i < rows.len() && rows[i].token@ == token@ && is_dead(rows[i], at),
                ShareOutcome::RequiresUnlock => *final(store) == *old(store) && exists|i: int|
                    #![auto]
                    0 <= i < rows.len() && rows[i].token@ == token@ && !is_dead(rows[i], at)
                        && crate::service::gated(rows[i]),
                ShareOutcome::CryptoFailure => *final(store) == *old(store) && exists|i: int|
                    #![auto]
                    0 <= i < rows.len() && rows[i].token@ == token@ && !is_dead(rows[i], at)
                        && !crate::service::gated(rows[i]) && decrypt_blob_of(
                        rows[i].encrypted_text@,
                        key,
                    ) is None,
                ShareOutcome::Disclosed(text) => exists|i: int|
                    #![auto]
                    0 <= i < rows.len() && rows[i].token@ == token@ && !is_dead(rows[i], at)
                        && !crate::service::gated(rows[i]) && Some(text@) == decrypt_blob_of(
                        rows[i].encrypted_text@,
                        key,
                    ) && final(store).records() == rows.update(i, bump_view(rows[i])),
            }
        }),
{
    let i = match store.find_index(token) {
        Some(i) => i,
        None => {
            return ShareOutcome::NotFound;
        },
    };
    let ghost row0 = store.records()[i as int];
    let outcome = share_step(Some(&store.rows[i]), now, config.encryption_key_base64.as_str());
    match outcome {
        ShareOutcome::Disclosed(text) => {
            let id = store.rows[i].id;
            store.increment_view_count(id);
            proof {
                assert(final(store).records() =~= old(store).records().update(
                    i as int,
                    bump_view(row0),
                ));
            }
            ShareOutcome::Disclosed(text)
        },
        other => other,
    }
}

/// Unlock service over the store: looks the token up, applies the
/// lifecycle check, verifies the submitted password, and on success
/// decrypts the payload and atomically performs the one-time-password
/// consumption update.  A wrong password mutates nothing.
pub fn unlock_link(store: &mut LinkStore, token: &str, password: &str, config: &Config, now: i64) -> (r: UnlockOutcome)
    requires
        old(store).wf(),
    ensures
        final(store).wf(),
        ({
            let rows = old(store).records();
            let key = config.encryption_key_base64@;
            let at = now as int;
            match r {
                UnlockOutcome::NotFound => !has_token(rows, token@) && *final(store) == *old(store),
                UnlockOutcome::Gone => *final(store) == *old(store) && exists|i: int|
                    #![auto]
                    0 <= i < rows.len() && rows[i].token@ == token@ && is_dead(rows[i], at),
                UnlockOutcome::NotProtected => *final(store) == *old(store) && exists|i: int|
                    #![auto]
                    0 <= i < rows.len() && rows[i].token@ == token@ && !is_dead(rows[i], at)
                        && !crate::service::gated(rows[i]),
                UnlockOutcome::WrongPassword => *final(store) == *old(store) && exists|i: int|
                    #![auto]
                    0 <= i < rows.len() && rows[i].token@ == token@ && !is_dead(rows[i], at)
                        && crate::service::gated(rows[i]) && !crate::crypto::password_accepts(
                        password@,
                        rows[i].password_hash->0@,
                    ),
                UnlockOutcome::CryptoFailure => *final(store) == *old(store) && exists|i: int|
                    #![auto]
                    0 <= i < rows.len() && rows[i].token@ == token@ && !is_dead(rows[i], at)
                        && crate::service::gated(rows[i]) && crate::crypto::password_accepts(
                        password@,
                        rows[i].password_hash->0@,
                    ) && decrypt_blob_of(rows[i].encrypted_text@, key) is None,
                UnlockOutcome::Unlocked { text, consume_password } => exists|i: int|
                    #![auto]
                    0 <= i < rows.len() && rows[i].token@ == token@ && !is_dead(rows[i], at)
                        && crate::service::gated(rows[i]) && crate::crypto::password_accepts(
                        password@,
                        rows[i].password_hash->0@,
                    ) && Some(text@) == decrypt_blob_of(rows[i].encrypted_text@, key)
                        && consume_password == (rows[i].one_time_password != 0)
                        && final(store).records() == rows.update(
                        i,
                        if rows[i].one_time_password != 0 {
                            mark_used_bump(rows[i])
                        } else {
                            bump_view(rows[i])
                        },
                    ),
            }
        }),
{
    let i = match store.find_index(token) {
        Some(i) => i,
        None => {
            return UnlockOutcome::NotFound;
        },
    };
    let ghost row0 = store.records()[i as int];
    let outcome = unlock_step(
        Some(&store.rows[i]),
        password,
        now,
        config.encryption_key_base64.as_str(),
    );
    match outcome {
        UnlockOutcome::Unlocked { text, consume_password } => {
            let id = store.rows[i].id;
            if consume_password {
                store.mark_password_used_and_increment(id);
                proof {
                    assert(final(store).records() =~= old(store).records().update(
                        i as int,
                        mark_used_bump(row0),
                    ));
                }
            } else {
                store.increment_view_count(id);
                proof {
                    assert(final(store).records() =~= old(store).records().update(
                        i as int,
                        bump_view(row0),
                    ));
                }
            }
            UnlockOutcome::Unlocked { text, consume_password }
        },
        other => other,
    }
}

} // verus!
