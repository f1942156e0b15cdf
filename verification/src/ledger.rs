//! The logical store behind the ingestion path: a tenant registry (surrogate
//! identifier, unique API key) and the persisted play-event rows in insertion
//! order. It gives the exact, engine-agnostic semantics of the core:
//! authentication gates storage, the tenant is re-resolved from the key at
//! persist time, and a batch is persisted all-or-nothing. Tests construct
//! isolated instances of it; the pooled SQLite-backed `Database` runs the
//! same control flow against a real storage engine.

use vstd::prelude::*;

use crate::real_time_pop_request::{
    request_storable, PopEntryModel, PopRequestModel, RealTimePopRequest, SubmissionOutcome,
};

verus! {

/// Mathematical image of a tenant row.
pub struct TenantModel {
    pub user_id: u64,
    pub api_key: Seq<char>,
}

/// A tenant of the registry: a surrogate identifier and its unique API key.
/// Tenants are provisioned out-of-band and never deleted by this core.
pub struct Tenant {
    pub user_id: u64,
    pub api_key: String,
}

impl View for Tenant {
    type V = TenantModel;

    open spec fn view(&self) -> TenantModel {
        TenantModel { user_id: self.user_id, api_key: self.api_key@ }
    }
}

/// Mathematical image of one persisted play-event row.
pub struct StoredPopModel {
    pub user_id: u64,
    pub player_id: u64,
    pub display_unit_id: u64,
    pub frame_id: u64,
    pub active_screens_count: u32,
    pub ad_copy_id: u64,
    pub schedule_id: u64,
    pub impressions: u32,
    pub interactions: u32,
    pub end_time: i64,
    pub duration_ms: u32,
    pub service_name: Seq<char>,
    pub service_value: Seq<char>,
    pub extra_data: Seq<char>,
}

/// One persisted play-event row: the entry's stored attributes under the
/// owning tenant and the submitting device. Its position in the store is its
/// only identity; storage assigns the durable surrogate key on insert.
pub struct StoredPop {
    pub user_id: u64,
    pub player_id: u64,
    pub display_unit_id: u64,
    pub frame_id: u64,
    pub active_screens_count: u32,
    pub ad_copy_id: u64,
    pub schedule_id: u64,
    pub impressions: u32,
    pub interactions: u32,
    pub end_time: i64,
    pub duration_ms: u32,
    pub service_name: String,
    pub service_value: String,
    pub extra_data: String,
}

impl View for StoredPop {
    type V = StoredPopModel;

    open spec fn view(&self) -> StoredPopModel {
        StoredPopModel {
            user_id: self.user_id,
            player_id: self.player_id,
            display_unit_id: self.display_unit_id,
            frame_id: self.frame_id,
            active_screens_count: self.active_screens_count,
            ad_copy_id: self.ad_copy_id,
            schedule_id: self.schedule_id,
            impressions: self.impressions,
            interactions: self.interactions,
            end_time: self.end_time,
            duration_ms: self.duration_ms,
            service_name: self.service_name@,
            service_value: self.service_value@,
            extra_data: self.extra_data@,
        }
    }
}

/// The row that persisting entry `e`, submitted by device `player_id`, under
/// tenant `user_id` produces. The wire-only `campaign_id` is not persisted.
pub open spec fn stored_row_of(user_id: u64, player_id: u64, e: PopEntryModel) -> StoredPopModel {
    StoredPopModel {
        user_id,
        player_id,
        display_unit_id: e.display_unit_id,
        frame_id: e.frame_id,
        active_screens_count: e.active_screens_count,
        ad_copy_id: e.ad_copy_id,
        schedule_id: e.schedule_id,
        impressions: e.impressions,
        interactions: e.interactions,
        end_time: e.end_time,
        duration_ms: e.duration_ms,
        service_name: e.service_name,
        service_value: e.service_value,
        extra_data: e.extra_data,
    }
}

/// The rows one whole submission produces, in submission order, under the
/// tenant that its key resolved to.
pub open spec fn batch_rows(r: PopRequestModel, user_id: u64) -> Seq<StoredPopModel> {
    r.pops.map_values(|e: PopEntryModel| stored_row_of(user_id, r.player_id, e))
}

/// The tenant identifier the registry resolves `k` to: the first tenant whose
/// key is exactly `k`, if any. With distinct keys the first match is the only
/// one.
pub open spec fn resolve_in(tenants: Seq<TenantModel>, k: Seq<char>) -> Option<u64>
    decreases tenants.len(),
{
    if tenants.len() == 0 {
        None
    } else if tenants[0].api_key == k {
        Some(tenants[0].user_id)
    } else {
        resolve_in(tenants.drop_first(), k)
    }
}

/// Resolution succeeds exactly when some tenant carries the key, and the
/// resolved identifier is that tenant's.
pub proof fn lemma_resolve_characterises(tenants: Seq<TenantModel>, k: Seq<char>)
    ensures
        (resolve_in(tenants, k) is Some) <==> (exists|i: int|
            0 <= i < tenants.len() && tenants[i].api_key == k),
        (resolve_in(tenants, k) is Some) ==> (exists|i: int|
            0 <= i < tenants.len() && tenants[i].api_key == k && tenants[i].user_id == resolve_in(
                tenants,
                k,
            )->0),
    decreases tenants.len(),
{
    if tenants.len() == 0 {
    } else if tenants[0].api_key == k {
        assert(tenants[0].api_key == k);
    } else {
        lemma_resolve_characterises(tenants.drop_first(), k);
        if exists|i: int| 0 <= i < tenants.len() && tenants[i].api_key == k {
            let i = choose|i: int| 0 <= i < tenants.len() && tenants[i].api_key == k;
            assert(tenants.drop_first()[i - 1] == tenants[i]);
        }
        if resolve_in(tenants, k) is Some {
            let j = choose|j: int|
                0 <= j < tenants.drop_first().len() && tenants.drop_first()[j].api_key == k
                    && tenants.drop_first()[j].user_id == resolve_in(tenants.drop_first(), k)->0;
            assert(tenants[j + 1] == tenants.drop_first()[j]);
        }
    }
}

/// Pushing a tenant does not disturb the resolution of keys already
/// registered, and resolves its own key when that key was free.
pub proof fn lemma_resolve_push(tenants: Seq<TenantModel>, t: TenantModel, k: Seq<char>)
    ensures
        resolve_in(tenants.push(t), k) == (if resolve_in(tenants, k) is Some {
            resolve_in(tenants, k)
        } else if t.api_key == k {
            Some(t.user_id)
        } else {
            None::<u64>
        }),
    decreases tenants.len(),
{
    if tenants.len() == 0 {
        assert(tenants.push(t)[0] == t);
        assert(tenants.push(t).drop_first() =~= Seq::<TenantModel>::empty());
        if t.api_key == k {
            assert(resolve_in(tenants.push(t), k) == Some(t.user_id));
        } else {
            assert(resolve_in(tenants.push(t), k) == resolve_in(
                Seq::<TenantModel>::empty(),
                k,
            ));
        }
    } else {
        assert(tenants.push(t)[0] == tenants[0]);
        assert(tenants.push(t).drop_first() =~= tenants.drop_first().push(t));
        lemma_resolve_push(tenants.drop_first(), t, k);
        if tenants[0].api_key == k {
            assert(resolve_in(tenants.push(t), k) == Some(tenants[0].user_id));
            assert(resolve_in(tenants, k) == Some(tenants[0].user_id));
        } else {
            assert(resolve_in(tenants.push(t), k) == resolve_in(
                tenants.drop_first().push(t),
                k,
            ));
            assert(resolve_in(tenants, k) == resolve_in(tenants.drop_first(), k));
        }
    }
}

/// Mathematical image of the whole store.
pub struct LedgerModel {
    pub tenants: Seq<TenantModel>,
    pub pops: Seq<StoredPopModel>,
    pub next_user_id: u64,
}

impl LedgerModel {
    /// Is some tenant registered under key `k`?
    pub open spec fn key_registered(self, k: Seq<char>) -> bool {
        resolve_in(self.tenants, k) is Some
    }

    /// The tenant identifier that key `k` resolves to.
    pub open spec fn resolve(self, k: Seq<char>) -> Option<u64> {
        resolve_in(self.tenants, k)
    }

    /// Is `uid` the identifier of a registered tenant?
    pub open spec fn registered_user_id(self, uid: u64) -> bool {
        exists|j: int| 0 <= j < self.tenants.len() && self.tenants[j].user_id == uid
    }

    /// Well-formedness of the store: keys are unique, tenant identifiers are
    /// below the next free one, and every persisted row is attributed to a
    /// registered tenant.
    pub open spec fn wf(self) -> bool {
        &&& forall|i: int, j: int|
            0 <= i < j < self.tenants.len() ==> self.tenants[i].api_key != self.tenants[j].api_key
        &&& forall|i: int|
            0 <= i < self.tenants.len() ==> (#[trigger] self.tenants[i].user_id)
                < self.next_user_id
        &&& forall|i: int|
            0 <= i < self.pops.len() ==> self.registered_user_id(
                #[trigger] self.pops[i].user_id,
            )
    }
}

/// The views of a sequence of tenants, element by element.
pub open spec fn tenant_views_of(tenants: Seq<Tenant>) -> Seq<TenantModel> {
    tenants.map_values(|t: Tenant| t@)
}

/// The views of a sequence of stored rows, element by element.
pub open spec fn row_views_of(rows: Seq<StoredPop>) -> Seq<StoredPopModel> {
    rows.map_values(|p: StoredPop| p@)
}

/// The logical store. The registry is read-mostly (tenants are provisioned
/// out-of-band); rows are appended one committed batch at a time and are
/// immutable and permanent thereafter.
pub struct Ledger {
    pub tenants: Vec<Tenant>,
    pub pops: Vec<StoredPop>,
    pub next_user_id: u64,
}

impl View for Ledger {
    type V = LedgerModel;

    open spec fn view(&self) -> LedgerModel {
        LedgerModel {
            tenants: tenant_views_of(self.tenants@),
            pops: row_views_of(self.pops@),
            next_user_id: self.next_user_id,
        }
    }
}

impl Ledger {
    /// Well-formedness of the store.
    pub open spec fn wf(&self) -> bool {
        self@.wf()
    }

    /// An empty store: no tenants, no rows.
    pub fn new() -> (l: Ledger)
        ensures
            l.wf(),
            l@.tenants =~= Seq::<TenantModel>::empty(),
            l@.pops =~= Seq::<StoredPopModel>::empty(),
            l@.next_user_id == 1,
    {
        Ledger { tenants: Vec::new(), pops: Vec::new(), next_user_id: 1 }
    }

    /// Is this key known? True iff a tenant with exactly this key is
    /// registered (a pure read).
    pub fn user_exists(&self, api_key: &String) -> (r: bool)
        ensures
            r == self@.key_registered(api_key@),
    {
        let n = self.tenants.len();
        let mut i: usize = 0;
        while i < n
            invariant
                n == self.tenants.len(),
                i <= n,
                forall|j: int| 0 <= j < i ==> (#[trigger] self@.tenants[j].api_key) != api_key@,
            decreases n - i,
        {
            proof {
                assert(self@.tenants[i as int] == self.tenants@[i as int]@);
            }
            if self.tenants[i].api_key == *api_key {
                proof {
                    assert(self@.tenants[i as int].api_key == api_key@);
                    lemma_resolve_characterises(self@.tenants, api_key@);
                }
                return true;
            }
            i += 1;
        }
        proof {
            lemma_resolve_characterises(self@.tenants, api_key@);
        }
        false
    }

    /// The tenant identifier this key resolves to, if the key is registered.
    pub fn resolve(&self, api_key: &String) -> (r: Option<u64>)
        ensures
            r == self@.resolve(api_key@),
    {
        let n = self.tenants.len();
        let mut i: usize = 0;
        proof {
            assert(self@.tenants.skip(0) =~= self@.tenants);
        }
        while i < n
            invariant
                n == self.tenants.len(),
                i <= n,
                resolve_in(self@.tenants, api_key@) == resolve_in(
                    self@.tenants.skip(i as int),
                    api_key@,
                ),
            decreases n - i,
        {
            let ghost rest = self@.tenants.skip(i as int);
            proof {
                assert(self@.tenants[i as int] == self.tenants@[i as int]@);
                assert(rest[0] == self@.tenants[i as int]);
                assert(rest.drop_first() =~= self@.tenants.skip(i as int + 1));
            }
            if self.tenants[i].api_key == *api_key {
                proof {
                    assert(rest[0].api_key == api_key@);
                }
                return Some(self.tenants[i].user_id);
            }
            i += 1;
        }
        proof {
            assert(self@.tenants.skip(n as int) =~= Seq::<TenantModel>::empty());
        }
        None
    }

    /// Register a tenant under `api_key`, assigning the next free identifier.
    /// Idempotent: a key that is already registered leaves the store exactly
    /// as it was. Rows are never touched.
    pub fn register(&mut self, api_key: String)
        requires
            old(self).wf(),
            old(self)@.next_user_id < u64::MAX,
        ensures
            final(self).wf(),
            final(self)@.pops == old(self)@.pops,
            final(self)@.key_registered(api_key@),
            old(self)@.key_registered(api_key@) ==> final(self)@ == old(self)@,
            !old(self)@.key_registered(api_key@) ==> final(self)@.tenants == old(self)@.tenants.push(
                TenantModel { user_id: old(self)@.next_user_id, api_key: api_key@ },
            ) && final(self)@.next_user_id == old(self)@.next_user_id + 1,
            forall|k2: Seq<char>|
                (#[trigger] final(self)@.resolve(k2)) == (if k2 == api_key@ && !old(
                    self,
                )@.key_registered(api_key@) {
                    Some(old(self)@.next_user_id)
                } else {
                    old(self)@.resolve(k2)
                }),
    {
        if self.user_exists(&api_key) {
            return;
        }
        proof {
            lemma_resolve_characterises(self@.tenants, api_key@);
        }
        let ghost prev = self@;
        let ghost prev_tenants = self.tenants@;
        let user_id = self.next_user_id;
        let tenant = Tenant { user_id, api_key };
        let ghost tenant_snap = tenant;
        self.tenants.push(tenant);
        self.next_user_id = user_id + 1;
        proof {
            assert(tenant_views_of(prev_tenants.push(tenant_snap)) =~= tenant_views_of(
                prev_tenants,
            ).push(tenant_snap@));
            assert(self@.tenants == prev.tenants.push(tenant_snap@));
            lemma_resolve_push(prev.tenants, tenant_snap@, tenant_snap@.api_key);
            assert forall|k2: Seq<char>| (#[trigger] self@.resolve(k2)) == (if k2
                == tenant_snap@.api_key && !prev.key_registered(tenant_snap@.api_key) {
                Some(prev.next_user_id)
            } else {
                prev.resolve(k2)
            }) by {
                lemma_resolve_push(prev.tenants, tenant_snap@, k2);
            }
            // The key was free, so no registered tenant carries it.
            assert forall|i: int| 0 <= i < prev.tenants.len() implies (#[trigger] prev.tenants[i]).api_key
                != tenant_snap@.api_key by {
                if prev.tenants[i].api_key == tenant_snap@.api_key {
                    assert(exists|j: int|
                        0 <= j < prev.tenants.len() && prev.tenants[j].api_key
                            == tenant_snap@.api_key);
                }
            }
            // Rows are untouched and stay attributed to registered tenants.
            assert(self@.pops == prev.pops);
            assert forall|k: int| 0 <= k < self@.pops.len() implies self@.registered_user_id(
                #[trigger] self@.pops[k].user_id,
            ) by {
                assert(prev.registered_user_id(prev.pops[k].user_id));
                let j = choose|j: int|
                    0 <= j < prev.tenants.len() && prev.tenants[j].user_id == prev.pops[k].user_id;
                assert(self@.tenants[j] == prev.tenants[j]);
                assert(self@.tenants[j].user_id == self@.pops[k].user_id);
            }
        }
    }

    /// Persist one submission atomically. The tenant is resolved from the
    /// submission's key here, at persist time; no caller-supplied tenant
    /// identifier is accepted. Exactly when the key is registered and every
    /// value of the batch is storable, every entry is appended, in submission
    /// order, under the resolved tenant; otherwise the store is left exactly
    /// as it was.
    pub fn persist(&mut self, req: &RealTimePopRequest) -> (r: bool)
        requires
            old(self).wf(),
        ensures
            final(self).wf(),
            final(self)@.tenants == old(self)@.tenants,
            final(self)@.next_user_id == old(self)@.next_user_id,
            r == (old(self)@.key_registered(req@.api_key) && request_storable(req@)),
            r ==> final(self)@.pops == old(self)@.pops + batch_rows(
                req@,
                old(self)@.resolve(req@.api_key)->0,
            ),
            !r ==> final(self)@.pops == old(self)@.pops,
    {
        let user_id = match self.resolve(&req.api_key) {
            None => {
                return false;
            },
            Some(u) => u,
        };
        if !req.is_storable() {
            return false;
        }
        proof {
            lemma_resolve_characterises(self@.tenants, req@.api_key);
        }
        let ghost prev = self@;
        let ghost old_rows = self@.pops;
        let ghost batch = batch_rows(req@, user_id);
        let n = req.pops.len();
        let mut i: usize = 0;
        while i < n
            invariant
                n == req.pops.len(),
                i <= n,
                batch == batch_rows(req@, user_id),
                batch.len() == n,
                self.tenants@ == old(self).tenants@,
                self.next_user_id == old(self).next_user_id,
                prev == old(self)@,
                old_rows == prev.pops,
                prev.wf(),
                prev.registered_user_id(user_id),
                row_views_of(self.pops@) == old_rows + batch.take(i as int),
            decreases n - i,
        {
            let e = &req.pops[i];
            let row = StoredPop {
                user_id,
                player_id: req.player_id,
                display_unit_id: e.display_unit_id,
                frame_id: e.frame_id,
                active_screens_count: e.active_screens_count,
                ad_copy_id: e.ad_copy_id,
                schedule_id: e.schedule_id,
                impressions: e.impressions,
                interactions: e.interactions,
                end_time: e.end_time,
                duration_ms: e.duration_ms,
                service_name: e.service_name.clone(),
                service_value: e.service_value.clone(),
                extra_data: e.extra_data.clone(),
            };
            let ghost prev_rows = self.pops@;
            let ghost row_snap = row;
            self.pops.push(row);
            proof {
                assert(req@.pops[i as int] == req.pops@[i as int]@);
                assert(row_snap@ == stored_row_of(user_id, req@.player_id, req@.pops[i as int]));
                assert(batch[i as int] == stored_row_of(
                    user_id,
                    req@.player_id,
                    req@.pops[i as int],
                ));
                assert(row_views_of(prev_rows.push(row_snap)) =~= row_views_of(prev_rows).push(
                    row_snap@,
                ));
                assert(old_rows + batch.take(i as int + 1) =~= (old_rows + batch.take(
                    i as int,
                )).push(batch[i as int]));
            }
            i += 1;
        }
        proof {
            assert(batch.take(n as int) =~= batch);
            assert(self@.pops == old_rows + batch);
            assert(self@.tenants == prev.tenants);
            assert forall|k: int| 0 <= k < self@.pops.len() implies self@.registered_user_id(
                #[trigger] self@.pops[k].user_id,
            ) by {
                if k >= old_rows.len() {
                    assert(self@.pops[k] == batch[k - old_rows.len()]);
                    assert(batch[k - old_rows.len()] == stored_row_of(
                        user_id,
                        req@.player_id,
                        req@.pops[k - old_rows.len()],
                    ));
                    assert(self@.pops[k].user_id == user_id);
                    assert(prev.registered_user_id(user_id));
                    let j = choose|j: int|
                        0 <= j < prev.tenants.len() && prev.tenants[j].user_id == user_id;
                    assert(self@.tenants[j].user_id == self@.pops[k].user_id);
                } else {
                    assert(self@.pops[k] == prev.pops[k]);
                    assert(prev.registered_user_id(prev.pops[k].user_id));
                    let j = choose|j: int|
                        0 <= j < prev.tenants.len() && prev.tenants[j].user_id
                            == prev.pops[k].user_id;
                    assert(self@.tenants[j].user_id == self@.pops[k].user_id);
                }
            }
        }
        true
    }

    /// Authenticate a submission and persist its whole batch. The decision is
    /// fail-closed: an unregistered key denies access and storage is left
    /// untouched; a batch that cannot be committed leaves no row behind.
    pub fn authenticate_and_store(&mut self, req: &RealTimePopRequest) -> (r: SubmissionOutcome)
        requires
            old(self).wf(),
        ensures
            final(self).wf(),
            final(self)@.tenants == old(self)@.tenants,
            final(self)@.next_user_id == old(self)@.next_user_id,
            (r is Unauthorized) == !old(self)@.key_registered(req@.api_key),
            (r is Stored) == (old(self)@.key_registered(req@.api_key) && request_storable(req@)),
            (r is Failed) == (old(self)@.key_registered(req@.api_key) && !request_storable(req@)),
            r is Stored ==> final(self)@.pops == old(self)@.pops + batch_rows(
                req@,
                old(self)@.resolve(req@.api_key)->0,
            ),
            !(r is Stored) ==> final(self)@.pops == old(self)@.pops,
    {
        if !self.user_exists(&req.api_key) {
            SubmissionOutcome::Unauthorized
        } else if self.persist(req) {
            SubmissionOutcome::Stored
        } else {
            SubmissionOutcome::Failed
        }
    }

    /// How many rows are stored in all.
    pub fn pop_count(&self) -> (r: usize)
        ensures
            r == self@.pops.len(),
    {
        self.pops.len()
    }

    /// How many tenants are registered.
    pub fn tenant_count(&self) -> (r: usize)
        ensures
            r == self@.tenants.len(),
    {
        self.tenants.len()
    }

    /// The stored row at position `i`, oldest first.
    pub fn pop_at(&self, i: usize) -> (r: &StoredPop)
        requires
            i < self@.pops.len(),
        ensures
            r@ == self@.pops[i as int],
    {
        &self.pops[i]
    }
}

/// Law: a committed batch is fully readable under the tenant it resolved to.
/// When a store grows by exactly the rows of one batch, every entry of that
/// batch stands at its submission-order position, attributed to that tenant,
/// and the rows that were there before are untouched.
pub proof fn lemma_batch_visible(
    pre: Seq<StoredPopModel>,
    post: Seq<StoredPopModel>,
    req: PopRequestModel,
    user_id: u64,
)
    requires
        post == pre + batch_rows(req, user_id),
    ensures
        post.len() == (pre.len() + req.pops.len()) as int,
        forall|i: int|
            0 <= i < req.pops.len() ==> post[pre.len() + i] == stored_row_of(
                user_id,
                req.player_id,
                #[trigger] req.pops[i],
            ),
        forall|i: int|
            0 <= i < req.pops.len() ==> (#[trigger] post[pre.len() + i]).user_id == user_id,
        post.take(pre.len() as int) == pre,
{
    assert(post.take(pre.len() as int) =~= pre);
}

/// Law: submissions are independent. Two batches persisted one after the
/// other occupy disjoint row ranges, each holding exactly its own rows in
/// order, and neither touches what was stored before. Counts are additive:
/// the store grows by exactly the sum of the two batch sizes.
pub proof fn lemma_batches_independent(
    pre: Seq<StoredPopModel>,
    mid: Seq<StoredPopModel>,
    post: Seq<StoredPopModel>,
    req1: PopRequestModel,
    user_id1: u64,
    req2: PopRequestModel,
    user_id2: u64,
)
    requires
        mid == pre + batch_rows(req1, user_id1),
        post == mid + batch_rows(req2, user_id2),
    ensures
        post.len() == (pre.len() + req1.pops.len()) as int + req2.pops.len(),
        post.take(pre.len() as int) == pre,
        post.subrange(pre.len() as int, (pre.len() + req1.pops.len()) as int) == batch_rows(req1, user_id1),
        post.subrange((pre.len() + req1.pops.len()) as int, post.len() as int) == batch_rows(req2, user_id2),
{
    assert(post.take(pre.len() as int) =~= pre);
    assert(post.subrange(pre.len() as int, (pre.len() + req1.pops.len()) as int) =~= batch_rows(
        req1,
        user_id1,
    ));
    assert(post.subrange((pre.len() + req1.pops.len()) as int, post.len() as int) =~= batch_rows(
        req2,
        user_id2,
    ));
}

/// Law: persistence does not deduplicate. The same logical batch committed
/// twice leaves two complete copies of its rows: the store grows by twice the
/// batch size, and the two row ranges are equal, row for row.
pub proof fn lemma_no_dedup(
    pre: Seq<StoredPopModel>,
    mid: Seq<StoredPopModel>,
    post: Seq<StoredPopModel>,
    req: PopRequestModel,
    user_id: u64,
)
    requires
        mid == pre + batch_rows(req, user_id),
        post == mid + batch_rows(req, user_id),
    ensures
        post.len() == pre.len() + 2 * req.pops.len(),
        post.subrange(pre.len() as int, (pre.len() + req.pops.len()) as int) == post.subrange(
            (pre.len() + req.pops.len()) as int,
            post.len() as int,
        ),
        post.subrange(pre.len() as int, (pre.len() + req.pops.len()) as int) == batch_rows(req, user_id),
{
    lemma_batches_independent(pre, mid, post, req, user_id, req, user_id);
}

} // verus!

