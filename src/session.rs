use std::collections::HashMap;
use password_hash::rand_core::{OsRng, RngCore};
use vstd::prelude::*;

verus! {

broadcast use vstd::std_specs::hash::group_hash_axioms;

/// How long a session stays valid after its creation, in milliseconds.
pub const SESSION_TTL_MILLIS: i64 = 60000;

/// An in-flight authorization attempt, as the time-ordered sequence holds it.
#[derive(Clone, Copy, Debug, PartialEq, Eq, Structural)]
pub struct Session {
    pub session_id: u128,
    /// Milliseconds since the Unix epoch.
    pub created_at: i64,
}

/// What the lookup index holds for a session.
#[derive(Clone, Copy, Debug, PartialEq, Eq, Structural)]
pub struct SessionRecord {
    pub session_id: u128,
    pub auth_code: u128,
    pub created_at: i64,
}

/// A session created at `created_at` is past its time at `now`.
pub open spec fn expired_at(created_at: i64, now: i64) -> bool {
    now - created_at > SESSION_TTL_MILLIS
}

pub open spec fn holds_id(s: Seq<SessionRecord>, id: u128) -> bool {
    exists|i: int| 0 <= i < s.len() && s[i].session_id == id
}

/// Ids are unique and creation times never decrease along the sequence.
pub open spec fn well_ordered(s: Seq<SessionRecord>) -> bool {
    &&& forall|i: int, j: int|
        0 <= i < s.len() && 0 <= j < s.len() && i != j ==> s[i].session_id != s[j].session_id
    &&& forall|i: int, j: int|
        0 <= i <= j < s.len() ==> s[i].created_at <= s[j].created_at
}

/// What verifying `id` at `now` answers on the cache contents `s`.
pub open spec fn verify_result(s: Seq<SessionRecord>, id: u128, now: i64) -> bool {
    exists|i: int| 0 <= i < s.len() && s[i].session_id == id && !expired_at(s[i].created_at, now)
}

/// The cache contents after verifying `id`: its entry, if any, is taken out.
pub open spec fn after_verify(s: Seq<SessionRecord>, id: u128) -> Seq<SessionRecord> {
    if holds_id(s, id) {
        let k = choose|k: int| 0 <= k < s.len() && s[k].session_id == id;
        s.remove(k)
    } else {
        s
    }
}

/// A session verified more than the time-to-live after its creation is
/// rejected.
pub proof fn lemma_expired_session_rejected(s: Seq<SessionRecord>, i: int, now: i64)
    requires
        well_ordered(s),
        0 <= i < s.len(),
        expired_at(s[i].created_at, now),
    ensures
        !verify_result(s, s[i].session_id, now),
{
    if verify_result(s, s[i].session_id, now) {
        let j = choose|j: int| 0 <= j < s.len() && s[j].session_id == s[i].session_id
            && !expired_at(s[j].created_at, now);
        assert(i == j);
    }
}

/// Verification is single use: once `id` has been verified, at whatever
/// time and with whatever answer, verifying it again fails.
pub proof fn lemma_verify_single_use(s: Seq<SessionRecord>, id: u128, now: i64)
    requires
        well_ordered(s),
    ensures
        !holds_id(after_verify(s, id), id),
        !verify_result(after_verify(s, id), id, now),
{
    if holds_id(s, id) {
        let k = choose|k: int| 0 <= k < s.len() && s[k].session_id == id;
        let t = s.remove(k);
        assert(t == after_verify(s, id));
        if holds_id(t, id) {
            let j = choose|j: int| 0 <= j < t.len() && t[j].session_id == id;
            if j < k {
                assert(t[j] == s[j]);
            } else {
                assert(t[j] == s[j + 1]);
            }
        }
    }
}

/// Two sessions opened one after the other, each with what opening a
/// session promises, have distinct ids and are both held afterwards.
pub proof fn lemma_successive_sessions_distinct(
    s0: Seq<SessionRecord>,
    s1: Seq<SessionRecord>,
    s2: Seq<SessionRecord>,
    a: Session,
    b: Session,
)
    requires
        s1.len() == s0.len() + 1,
        s1.drop_last() == s0,
        s1.last().session_id == a.session_id,
        !holds_id(s1, b.session_id),
        s2.len() == s1.len() + 1,
        s2.drop_last() == s1,
        s2.last().session_id == b.session_id,
    ensures
        a.session_id != b.session_id,
        holds_id(s2, a.session_id),
        holds_id(s2, b.session_id),
{
    let i = s1.len() - 1;
    assert(s1[i].session_id == a.session_id);
    assert(s2[i] == s2.drop_last()[i]);
    assert(s2[i].session_id == a.session_id);
    assert(s2[s2.len() - 1].session_id == b.session_id);
}

/// The creation time given to a session created at `now` after the contents
/// `s`: never earlier than the newest session, so the sequence stays ordered.
pub open spec fn stamp_after(s: Seq<SessionRecord>, now: i64) -> i64 {
    if s.len() > 0 && s.last().created_at > now {
        s.last().created_at
    } else {
        now
    }
}

/// Short-lived, single-use sessions: a time-ordered sequence for the expiry
/// sweep, and an index by id for lookup, mutated together.
pub struct SessionCache {
    order: Vec<Session>,
    index: HashMap<u128, SessionRecord>,
}

impl View for SessionCache {
    type V = Seq<SessionRecord>;

    closed spec fn view(&self) -> Seq<SessionRecord> {
        self.order@.map_values(|s: Session| self.index@[s.session_id])
    }
}

/// Relies on rand_core's OsRng::try_fill_bytes for 16 random bytes, made a
/// version-4 identifier by uuid::Builder::from_random_bytes and read by
/// Uuid::as_u128; `None` when the operating system's random source fails.
#[verifier::external_body]
pub(crate) fn random_uuid() -> (r: Option<u128>) {
    let mut bytes = [0u8; 16];
    OsRng.try_fill_bytes(&mut bytes).ok()?;
    Some(uuid::Builder::from_random_bytes(bytes).into_uuid().as_u128())
}

fn is_expired(created_at: i64, now: i64) -> (r: bool)
    ensures
        r == expired_at(created_at, now),
{
    (now as i128) - (created_at as i128) > SESSION_TTL_MILLIS as i128
}

/// What one tick of the cleanup scheduler did to the cache, and the cutoff
/// for the persisted grants: every grant created at or before it goes.
#[derive(Clone, Copy, Debug, PartialEq, Eq, Structural)]
pub struct CleanupTick {
    pub grant_cutoff: i64,
    pub sessions_evicted: usize,
}

impl SessionCache {
    pub closed spec fn wf(&self) -> bool {
        let order = self.order@;
        let index = self.index@;
        &&& forall|i: int|
            #![trigger order[i]]
            0 <= i < order.len() ==> {
                &&& index.contains_key(order[i].session_id)
                &&& index[order[i].session_id].session_id == order[i].session_id
                &&& index[order[i].session_id].created_at == order[i].created_at
            }
        &&& forall|id: u128|
            #[trigger] index.contains_key(id) ==> exists|i: int|
                0 <= i < order.len() && order[i].session_id == id
        &&& forall|i: int, j: int|
            0 <= i < order.len() && 0 <= j < order.len() && i != j
                ==> order[i].session_id != order[j].session_id
        &&& forall|i: int, j: int|
            0 <= i <= j < order.len() ==> order[i].created_at <= order[j].created_at
    }

    proof fn lemma_view(&self)
        requires
            self.wf(),
        ensures
            self@.len() == self.order@.len(),
            forall|i: int|
                0 <= i < self@.len() ==> #[trigger] self@[i].session_id == self.order@[i].session_id
                    && self@[i].created_at == self.order@[i].created_at,
            well_ordered(self@),
            forall|id: u128| holds_id(self@, id) <==> #[trigger] self.index@.contains_key(id),
    {
        assert forall|i: int| 0 <= i < self@.len() implies #[trigger] self@[i] == self.index@[self.order@[i].session_id]
            && self@[i].session_id == self.order@[i].session_id
            && self@[i].created_at == self.order@[i].created_at by {
            let s = self.order@[i];
        }
        assert forall|id: u128| holds_id(self@, id) <==> #[trigger] self.index@.contains_key(id) by {
            if holds_id(self@, id) {
                let i = choose|i: int| 0 <= i < self@.len() && self@[i].session_id == id;
                assert(self@[i] == self.index@[self.order@[i].session_id]);
            }
            if self.index@.contains_key(id) {
                let i = choose|i: int| 0 <= i < self.order@.len() && self.order@[i].session_id == id;
                assert(self@[i].session_id == id);
            }
        }
    }

    /// A well-formed cache holds unique ids in creation order.
    pub proof fn lemma_well_ordered(&self)
        requires
            self.wf(),
        ensures
            well_ordered(self@),
    {
        self.lemma_view();
    }

    /// An empty cache.
    pub fn new() -> (r: SessionCache)
        ensures
            r.wf(),
            r@ == Seq::<SessionRecord>::empty(),
    {
        let r = SessionCache { order: Vec::new(), index: HashMap::new() };
        assert(r@ =~= Seq::<SessionRecord>::empty());
        r
    }

    /// Stores a new session `session_id` with `auth_code`, stamped at `now`
    /// (or at the newest session's time, should the clock have gone back).
    /// An id that is already held is refused and nothing changes.
    pub fn create_session_at(&mut self, session_id: u128, auth_code: u128, now: i64) -> (r: Option<Session>)
        requires
            old(self).wf(),
        ensures
            final(self).wf(),
            well_ordered(final(self)@),
            holds_id(old(self)@, session_id) ==> r is None && final(self)@ == old(self)@,
            !holds_id(old(self)@, session_id) ==> {
                let stamp = stamp_after(old(self)@, now);
                &&& r == Some(Session { session_id, created_at: stamp })
                &&& final(self)@ == old(self)@.push(
                    SessionRecord { session_id, auth_code, created_at: stamp },
                )
            },
    {
        proof { self.lemma_view(); }
        if self.index.contains_key(&session_id) {
            return None;
        }
        let ghost old_view = self@;
        let n = self.order.len();
        let stamp = if n > 0 && self.order[n - 1].created_at > now {
            self.order[n - 1].created_at
        } else {
            now
        };
        let session = Session { session_id, created_at: stamp };
        let record = SessionRecord { session_id, auth_code, created_at: stamp };
        self.order.push(session);
        self.index.insert(session_id, record);
        proof {
            assert forall|id: u128| #[trigger] self.index@.contains_key(id) implies exists|i: int|
                0 <= i < self.order@.len() && self.order@[i].session_id == id by {
                if id != session_id {
                    let i = choose|i: int| 0 <= i < n && old(self).order@[i].session_id == id;
                    assert(self.order@[i].session_id == id);
                } else {
                    assert(self.order@[n as int].session_id == id);
                }
            }
            assert forall|i: int| 0 <= i < n implies self.order@[i].session_id != session_id by {
                assert(old(self).index@.contains_key(old(self).order@[i].session_id));
            }
            assert(self.wf());
            assert(self@ =~= old_view.push(record)) by {
                assert forall|i: int| 0 <= i < n implies self@[i] == old_view[i] by {
                    assert(old(self).index@.contains_key(old(self).order@[i].session_id));
                }
            }
            self.lemma_view();
        }
        Some(session)
    }

    /// Opens a session at `now` with a fresh random id and authorization
    /// code. `None` when the random source fails or the drawn id is already
    /// held; the cache is then unchanged.
    pub fn create_session(&mut self, now: i64) -> (r: Option<Session>)
        requires
            old(self).wf(),
        ensures
            final(self).wf(),
            well_ordered(final(self)@),
            match r {
                Some(s) => {
                    &&& !holds_id(old(self)@, s.session_id)
                    &&& s.created_at == stamp_after(old(self)@, now)
                    &&& final(self)@.len() == old(self)@.len() + 1
                    &&& final(self)@.drop_last() == old(self)@
                    &&& final(self)@.last().session_id == s.session_id
                    &&& final(self)@.last().created_at == s.created_at
                },
                None => final(self)@ == old(self)@,
            },
    {
        let session_id = match random_uuid() {
            Some(id) => id,
            None => return None,
        };
        let auth_code = match random_uuid() {
            Some(code) => code,
            None => return None,
        };
        let r = self.create_session_at(session_id, auth_code, now);
        proof {
            if r is Some {
                assert(self@.drop_last() =~= old(self)@);
            }
        }
        r
    }

    /// Removes the session `session_id`, if held, from both structures, and
    /// answers whether it was held and not yet expired at `now`.
    pub fn verify_session(&mut self, session_id: u128, now: i64) -> (r: bool)
        requires
            old(self).wf(),
        ensures
            final(self).wf(),
            well_ordered(final(self)@),
            r == verify_result(old(self)@, session_id, now),
            !holds_id(final(self)@, session_id),
            final(self)@ == after_verify(old(self)@, session_id),
    {
        proof { self.lemma_view(); }
        let ghost old_view = self@;
        let ghost old_order = self.order@;
        let ghost old_index = self.index@;
        let removed = self.index.remove(&session_id);
        match removed {
            None => {
                proof {
                    assert(self@ =~= old_view);
                    self.lemma_view();
                }
                false
            },
            Some(record) => {
                let ghost w = choose|i: int| 0 <= i < old_order.len() && old_order[i].session_id == session_id;
                let len = self.order.len();
                let mut k: usize = 0;
                while self.order[k].session_id != session_id
                    invariant
                        self.order@ == old_order,
                        len == old_order.len(),
                        0 <= w < old_order.len(),
                        old_order[w].session_id == session_id,
                        k <= w,
                    decreases w - k,
                {
                    k = k + 1;
                }
                proof {
                    if k != w {
                        assert(old_order[k as int].session_id != old_order[w].session_id);
                    }
                }
                self.order.remove(k);
                let fresh = (now as i128) - (record.created_at as i128) <= SESSION_TTL_MILLIS as i128;
                proof {
                    assert(k == w);
                    assert(old_view[w] == record);
                    assert forall|id: u128| #[trigger] self.index@.contains_key(id) implies exists|i: int|
                        0 <= i < self.order@.len() && self.order@[i].session_id == id by {
                        let i = choose|i: int| 0 <= i < old_order.len() && old_order[i].session_id == id;
                        if i < w {
                            assert(self.order@[i].session_id == id);
                        } else {
                            assert(self.order@[i - 1].session_id == id);
                        }
                    }
                    assert(self.wf());
                    assert forall|i: int| 0 <= i < self@.len() implies self@[i] == old_view.remove(w)[i] by {
                        if i < w {
                            assert(old_index.contains_key(old_order[i].session_id));
                        } else {
                            assert(old_index.contains_key(old_order[i + 1].session_id));
                        }
                    }
                    assert(self@ =~= old_view.remove(w));
                    let c = choose|c: int| 0 <= c < old_view.len() && old_view[c].session_id == session_id;
                    assert(c == w);
                    self.lemma_view();
                    if verify_result(old_view, session_id, now) {
                        let j = choose|j: int| 0 <= j < old_view.len() && old_view[j].session_id == session_id
                            && !expired_at(old_view[j].created_at, now);
                        assert(j == w);
                    }
                }
                fresh
            },
        }
    }

    /// First position whose session has not expired at `now`, by binary
    /// search over the creation-ordered sequence.
    fn partition_point(&self, now: i64) -> (k: usize)
        requires
            self.wf(),
        ensures
            k <= self.order@.len(),
            forall|i: int| 0 <= i < k ==> expired_at(#[trigger] self.order@[i].created_at, now),
            forall|i: int| k <= i < self.order@.len() ==> !expired_at(#[trigger] self.order@[i].created_at, now),
    {
        let mut lo: usize = 0;
        let mut hi: usize = self.order.len();
        while lo < hi
            invariant
                self.wf(),
                lo <= hi <= self.order@.len(),
                forall|i: int| 0 <= i < lo ==> expired_at(#[trigger] self.order@[i].created_at, now),
                forall|i: int| hi <= i < self.order@.len() ==> !expired_at(#[trigger] self.order@[i].created_at, now),
            decreases hi - lo,
        {
            let mid = lo + (hi - lo) / 2;
            if is_expired(self.order[mid].created_at, now) {
                proof {
                    assert forall|i: int| 0 <= i <= mid implies expired_at(#[trigger] self.order@[i].created_at, now) by {
                        assert(self.order@[i].created_at <= self.order@[mid as int].created_at);
                    }
                }
                lo = mid + 1;
            } else {
                proof {
                    assert forall|i: int| mid <= i < self.order@.len() implies !expired_at(#[trigger] self.order@[i].created_at, now) by {
                        assert(self.order@[mid as int].created_at <= self.order@[i].created_at);
                    }
                }
                hi = mid;
            }
        }
        lo
    }

    /// Evicts every session expired at `now`: the expired ones form a prefix
    /// of the creation-ordered sequence, found by binary search, and each is
    /// also taken out of the index. Returns how many were evicted; the others
    /// keep their order.
    pub fn sweep(&mut self, now: i64) -> (removed: usize)
        requires
            old(self).wf(),
        ensures
            final(self).wf(),
            well_ordered(final(self)@),
            removed <= old(self)@.len(),
            final(self)@ == old(self)@.subrange(removed as int, old(self)@.len() as int),
            forall|i: int| 0 <= i < removed ==> expired_at(#[trigger] old(self)@[i].created_at, now),
            forall|i: int|
                removed <= i < old(self)@.len() ==> !expired_at(#[trigger] old(self)@[i].created_at, now),
    {
        proof { self.lemma_view(); }
        let ghost old_view = self@;
        let ghost old_order = self.order@;
        let ghost old_index = self.index@;
        let k = self.partition_point(now);
        let mut i: usize = 0;
        while i < k
            invariant
                i <= k <= old_order.len(),
                self.order@ == old_order,
                forall|id: u128| #[trigger] self.index@.contains_key(id) <==> (old_index.contains_key(id)
                    && forall|j: int| 0 <= j < i ==> old_order[j].session_id != id),
                forall|id: u128| #[trigger] self.index@.contains_key(id) ==> self.index@[id] == old_index[id],
            decreases k - i,
        {
            let id = self.order[i].session_id;
            self.index.remove(&id);
            i = i + 1;
        }
        let kept = self.order.split_off(k);
        self.order = kept;
        proof {
            let n = old_order.len();
            assert(self.order@ =~= old_order.subrange(k as int, n as int));
            assert forall|j: int| 0 <= j < self.order@.len() implies #[trigger] self.index@.contains_key(self.order@[j].session_id)
                && self.index@[self.order@[j].session_id].session_id == self.order@[j].session_id
                && self.index@[self.order@[j].session_id].created_at == self.order@[j].created_at by {
                let id = old_order[j + k].session_id;
                assert(self.order@[j] == old_order[j + k]);
                let s = old(self).order@[j + k];
                assert(old_index.contains_key(id));
                assert(self.index@.contains_key(id));
                assert forall|m: int| 0 <= m < k implies old_order[m].session_id != id by {
                    assert(m != j + k);
                }
            }
            assert forall|id: u128| #[trigger] self.index@.contains_key(id) implies exists|j: int|
                0 <= j < self.order@.len() && self.order@[j].session_id == id by {
                let m = choose|m: int| 0 <= m < n && old_order[m].session_id == id;
                if m < k {
                    assert(old_order[m].session_id != id);
                }
                assert(self.order@[m - k].session_id == id);
            }
            assert(self.wf());
            assert forall|j: int| 0 <= j < self@.len() implies self@[j] == old_view.subrange(k as int, n as int)[j] by {
                assert(self.index@.contains_key(self.order@[j].session_id));
                assert(old_index.contains_key(old_order[j + k].session_id));
            }
            assert(self@ =~= old_view.subrange(k as int, n as int));
            self.lemma_view();
        }
        k
    }

    /// One tick of the cleanup scheduler at `tick_time`: sweeps the cache, and
    /// fixes the grant cutoff once, at the tick's time, so that the grants
    /// deleted this tick do not depend on how long the delete takes.
    pub fn cleanup_tick(&mut self, tick_time: i64) -> (r: CleanupTick)
        requires
            old(self).wf(),
        ensures
            final(self).wf(),
            r.grant_cutoff == tick_time,
            r.sessions_evicted <= old(self)@.len(),
            final(self)@ == old(self)@.subrange(r.sessions_evicted as int, old(self)@.len() as int),
            forall|i: int|
                0 <= i < r.sessions_evicted ==> expired_at(#[trigger] old(self)@[i].created_at, tick_time),
            forall|i: int|
                r.sessions_evicted <= i < old(self)@.len() ==> !expired_at(
                    #[trigger] old(self)@[i].created_at,
                    tick_time,
                ),
    {
        let evicted = self.sweep(tick_time);
        CleanupTick { grant_cutoff: tick_time, sessions_evicted: evicted }
    }

    /// The record held for `session_id`, if any.
    pub fn lookup(&self, session_id: u128) -> (r: Option<SessionRecord>)
        requires
            self.wf(),
        ensures
            match r {
                Some(rec) => exists|i: int| 0 <= i < self@.len() && self@[i] == rec && rec.session_id == session_id,
                None => !holds_id(self@, session_id),
            },
    {
        proof { self.lemma_view(); }
        match self.index.get(&session_id) {
            Some(rec) => {
                proof {
                    let i = choose|i: int| 0 <= i < self.order@.len() && self.order@[i].session_id == session_id;
                    assert(self@[i] == self.index@[self.order@[i].session_id]);
                }
                Some(*rec)
            },
            None => None,
        }
    }

    /// Number of sessions held.
    pub fn len(&self) -> (r: usize)
        requires
            self.wf(),
        ensures
            r == self@.len(),
    {
        self.order.len()
    }

    /// Whether a session with this id is held.
    pub fn contains(&self, session_id: u128) -> (r: bool)
        requires
            self.wf(),
        ensures
            r == holds_id(self@, session_id),
    {
        proof { self.lemma_view(); }
        self.index.contains_key(&session_id)
    }
}

} // verus!
