use vstd::prelude::*;

use crate::errors::ErrorKind;
use crate::post::Post;

verus! {

/// The dedup record invariant: a recorded id counts as delivered unless the
/// resend-on-update policy is on and the post has moved past the recorded
/// update time. An id with no record is never delivered.
pub open spec fn delivered_spec(recorded: Option<i64>, updated_at: i64, updated_resend: bool) -> bool {
    match recorded {
        Some(v) => !(updated_resend && v < updated_at),
        None => false,
    }
}

/// One member's delivery state from one cache read outcome. A failed read
/// counts as not delivered (fail-open: prefer re-delivery over silent loss).
pub open spec fn member_delivered_spec(
    read: Result<Option<i64>, ErrorKind>,
    updated_at: i64,
    updated_resend: bool,
) -> bool {
    match read {
        Ok(recorded) => delivered_spec(recorded, updated_at, updated_resend),
        Err(_) => false,
    }
}

/// Decide one member's delivery state from the outcome of its cache read.
pub fn already_sent_post(post: &Post, read: Result<Option<i64>, ErrorKind>, updated_resend: bool) -> (r:
    bool)
    ensures
        r == member_delivered_spec(read, post.updated_at, updated_resend),
{
    match read {
        Ok(recorded) => match recorded {
            Some(v) => !(updated_resend && v < post.updated_at),
            None => false,
        },
        Err(_) => false,
    }
}

/// One persisted dedup record: the last delivered update time of one id,
/// valid until `expires_at` on the cache's clock.
pub struct CacheRecord {
    pub id: i32,
    pub value: i64,
    pub expires_at: i64,
}

/// The dedup store as the core sees it: one record per id, each with a
/// time-to-live measured on a clock the caller supplies. It mirrors what the
/// external key-value store holds for this process.
pub struct CacheModel {
    pub records: Vec<CacheRecord>,
}

/// The first record with the given id, scanning front to back.
pub open spec fn lookup_rec(s: Seq<CacheRecord>, id: i32) -> Option<CacheRecord>
    decreases s.len(),
{
    if s.len() == 0 {
        None
    } else if s[0].id == id {
        Some(s[0])
    } else {
        lookup_rec(s.drop_first(), id)
    }
}

/// When a record written at `now` with time-to-live `ttl` lapses.
pub open spec fn expiry_of(now: i64, ttl: usize) -> i64 {
    (now as int + ttl as int) as i64
}

impl CacheModel {
    /// Each id holds at most one record.
    pub open spec fn wf(self) -> bool {
        forall|i: int, j: int|
            #![trigger self.records@[i], self.records@[j]]
            0 <= i < j < self.records@.len() ==> self.records@[i].id != self.records@[j].id
    }

    /// The recorded value of `id` at instant `now`, if the record is live.
    pub open spec fn spec_get(self, id: i32, now: i64) -> Option<i64> {
        match lookup_rec(self.records@, id) {
            Some(rec) => if now < rec.expires_at {
                Some(rec.value)
            } else {
                None
            },
            None => None,
        }
    }

    /// An empty store.
    pub fn new() -> (r: CacheModel)
        ensures
            r.wf(),
            forall|id: i32, now: i64| r.spec_get(id, now) is None,
    {
        CacheModel { records: Vec::new() }
    }

    /// Read the live value of one id at instant `now`.
    pub fn get(&self, id: i32, now: i64) -> (r: Option<i64>)
        ensures
            r == self.spec_get(id, now),
    {
        let n = self.records.len();
        let mut i: usize = 0;
        proof {
            assert(self.records@.skip(0) =~= self.records@);
        }
        while i < n
            invariant
                n == self.records@.len(),
                0 <= i <= n,
                lookup_rec(self.records@, id) == lookup_rec(self.records@.skip(i as int), id),
            decreases n - i,
        {
            proof {
                assert(self.records@.skip(i as int)[0] == self.records@[i as int]);
            }
            if self.records[i].id == id {
                let rec = &self.records[i];
                if now < rec.expires_at {
                    return Some(rec.value);
                } else {
                    return None;
                }
            }
            proof {
                assert(self.records@.skip(i as int).drop_first() =~= self.records@.skip(
                    i as int + 1,
                ));
            }
            i += 1;
        }
        proof {
            assert(self.records@.skip(i as int).len() == 0);
        }
        None
    }

    /// Write (or overwrite) the record of one id, valid for `ttl` seconds
    /// from `now`. Every other id keeps exactly the record it had.
    pub fn set_with_expiry(&mut self, id: i32, value: i64, now: i64, ttl: usize)
        requires
            old(self).wf(),
            ttl as int <= i64::MAX,
            now as int + ttl as int <= i64::MAX,
        ensures
            final(self).wf(),
            lookup_rec(final(self).records@, id) == Some(
                CacheRecord { id, value, expires_at: expiry_of(now, ttl) },
            ),
            forall|k: i32|
                k != id ==> #[trigger] lookup_rec(final(self).records@, k) == lookup_rec(
                    old(self).records@,
                    k,
                ),
    {
        let rec = CacheRecord { id, value, expires_at: now + ttl as i64 };
        let ghost pre = self.records@;
        let n = self.records.len();
        let mut i: usize = 0;
        while i < n
            invariant
                n == self.records@.len(),
                0 <= i <= n,
                self.records@ == pre,
                forall|j: int| 0 <= j < i ==> (#[trigger] pre[j]).id != id,
                rec.id == id,
                rec.value == value,
                rec.expires_at == expiry_of(now, ttl),
                old(self).records@ == pre,
                old(self).wf(),
            decreases n - i,
        {
            if self.records[i].id == id {
                self.records[i] = rec;
                proof {
                    lemma_lookup_update(pre, i as int, rec, id);
                    assert forall|k: i32| k != id implies #[trigger] lookup_rec(
                        self.records@,
                        k,
                    ) == lookup_rec(pre, k) by {
                        lemma_lookup_update(pre, i as int, rec, k);
                    }
                    assert forall|a: int, b: int|
                        #![trigger self.records@[a], self.records@[b]]
                        0 <= a < b < self.records@.len() implies self.records@[a].id
                        != self.records@[b].id by {
                        assert(self.records@[a].id == pre[a].id);
                        assert(self.records@[b].id == pre[b].id);
                    }
                }
                return ;
            }
            i += 1;
        }
        proof {
            lemma_lookup_none(pre, id);
        }
        self.records.push(rec);
        proof {
            assert(self.records@ =~= pre.push(rec));
            lemma_lookup_push(pre, rec, id);
            assert forall|k: i32| k != id implies #[trigger] lookup_rec(self.records@, k)
                == lookup_rec(pre, k) by {
                lemma_lookup_push(pre, rec, k);
            }
            assert forall|a: int, b: int|
                #![trigger self.records@[a], self.records@[b]]
                0 <= a < b < self.records@.len() implies self.records@[a].id
                != self.records@[b].id by {
                if b < pre.len() {
                    assert(old(self).wf());
                } else {
                    assert(self.records@[b] == rec);
                    assert(pre[a].id != id);
                }
            }
        }
    }
}

/// Updating the first record of an id in place sets that id and leaves every
/// other id's lookup unchanged.
proof fn lemma_lookup_update(s: Seq<CacheRecord>, i: int, rec: CacheRecord, k: i32)
    requires
        0 <= i < s.len(),
        s[i].id == rec.id,
        forall|j: int| 0 <= j < i ==> (#[trigger] s[j]).id != rec.id,
    ensures
        rec.id == k ==> lookup_rec(s.update(i, rec), k) == Some(rec),
        rec.id != k ==> lookup_rec(s.update(i, rec), k) == lookup_rec(s, k),
    decreases i,
{
    let t = s.update(i, rec);
    if i == 0 {
        assert(t[0] == rec);
        if rec.id != k {
            assert(t.drop_first() =~= s.drop_first());
        }
    } else {
        assert(t[0] == s[0]);
        assert(s[0].id != rec.id);
        if k == s[0].id {
        } else {
            assert(t.drop_first() =~= s.drop_first().update(i - 1, rec));
            lemma_lookup_update(s.drop_first(), i - 1, rec, k);
        }
    }
}

/// Appending a record of an absent id sets that id and leaves every other
/// id's lookup unchanged.
proof fn lemma_lookup_push(s: Seq<CacheRecord>, rec: CacheRecord, k: i32)
    requires
        lookup_rec(s, rec.id) is None,
    ensures
        rec.id == k ==> lookup_rec(s.push(rec), k) == Some(rec),
        rec.id != k ==> lookup_rec(s.push(rec), k) == lookup_rec(s, k),
    decreases s.len(),
{
    let t = s.push(rec);
    if s.len() == 0 {
        assert(t[0] == rec);
        assert(t.drop_first() =~= Seq::<CacheRecord>::empty());
        assert(lookup_rec(t, rec.id) == Some(rec));
        if rec.id != k {
            assert(lookup_rec(t, k) == lookup_rec(t.drop_first(), k));
            assert(lookup_rec(t.drop_first(), k) is None);
            assert(lookup_rec(s, k) is None);
        }
    } else {
        assert(t[0] == s[0]);
        assert(s[0].id != rec.id);
        assert(t.drop_first() =~= s.drop_first().push(rec));
        assert(lookup_rec(s.drop_first(), rec.id) is None);
        lemma_lookup_push(s.drop_first(), rec, k);
        if k == s[0].id {
            assert(lookup_rec(t, k) == Some(t[0]));
            assert(lookup_rec(s, k) == Some(s[0]));
        } else {
            assert(lookup_rec(t, k) == lookup_rec(s.drop_first().push(rec), k));
            assert(lookup_rec(s, k) == lookup_rec(s.drop_first(), k));
        }
    }
}

/// An id has no record exactly when no position holds it.
proof fn lemma_lookup_none(s: Seq<CacheRecord>, id: i32)
    ensures
        lookup_rec(s, id) is None <==> (forall|j: int| 0 <= j < s.len() ==> (#[trigger] s[j]).id
            != id),
    decreases s.len(),
{
    if s.len() > 0 {
        lemma_lookup_none(s.drop_first(), id);
        assert(forall|j: int|
            0 <= j < s.drop_first().len() ==> #[trigger] s.drop_first()[j] == s[j + 1]);
        if s[0].id != id && (forall|j: int|
            0 <= j < s.drop_first().len() ==> (#[trigger] s.drop_first()[j]).id != id) {
            assert forall|j: int| 0 <= j < s.len() implies (#[trigger] s[j]).id != id by {
                if j > 0 {
                    assert(s.drop_first()[j - 1] == s[j]);
                }
            }
        }
    }
}

/// A whole unit is delivered only if every member is, per the record
/// invariant: one undelivered member makes the unit eligible for resending.
pub open spec fn unit_delivered(cache: CacheModel, unit: Seq<Post>, now: i64, updated_resend: bool) -> bool {
    forall|i: int|
        0 <= i < unit.len() ==> #[trigger] delivered_spec(
            cache.spec_get(unit[i].id, now),
            unit[i].updated_at,
            updated_resend,
        )
}

/// The delivery check: true exactly when every member of the unit is
/// individually delivered at instant `now`.
pub fn already_sent_posts(posts: &Vec<Post>, cache: &CacheModel, now: i64, updated_resend: bool) -> (r:
    bool)
    ensures
        r == unit_delivered(*cache, posts@, now, updated_resend),
{
    let n = posts.len();
    let mut i: usize = 0;
    while i < n
        invariant
            n == posts@.len(),
            0 <= i <= n,
            forall|j: int|
                0 <= j < i ==> #[trigger] delivered_spec(
                    cache.spec_get(posts@[j].id, now),
                    posts@[j].updated_at,
                    updated_resend,
                ),
        decreases n - i,
    {
        let recorded = cache.get(posts[i].id, now);
        if !already_sent_post(&posts[i], Ok(recorded), updated_resend) {
            return false;
        }
        i += 1;
    }
    true
}

/// Does some member of the unit carry this id?
pub open spec fn unit_has_id(unit: Seq<Post>, k: i32) -> bool {
    exists|i: int| 0 <= i < unit.len() && (#[trigger] unit[i]).id == k
}

/// No later member repeats this member's id, so its write is the one that
/// stays.
pub open spec fn last_occurrence(unit: Seq<Post>, i: int) -> bool {
    forall|j: int| i < j < unit.len() ==> (#[trigger] unit[j]).id != unit[i].id
}

/// What a finished commit leaves behind: a live record for every member
/// (the last write per id winning), everything else untouched.
pub open spec fn committed(
    pre: CacheModel,
    post: CacheModel,
    unit: Seq<Post>,
    now: i64,
    ttl: usize,
) -> bool {
    &&& post.wf()
    &&& forall|k: i32|
        !unit_has_id(unit, k) ==> #[trigger] lookup_rec(post.records@, k) == lookup_rec(
            pre.records@,
            k,
        )
    &&& forall|i: int|
        0 <= i < unit.len() && last_occurrence(unit, i) ==> lookup_rec(
            post.records@,
            (#[trigger] unit[i]).id,
        ) == Some(
            CacheRecord { id: unit[i].id, value: unit[i].updated_at, expires_at: expiry_of(now, ttl) },
        )
}

/// The commit: record every member of the unit as delivered at its
/// current update time, valid for `ttl` seconds from `now`.
pub fn set_redis_posts(posts: &Vec<Post>, cache: &mut CacheModel, now: i64, ttl: usize)
    requires
        old(cache).wf(),
        ttl as int <= i64::MAX,
        now as int + ttl as int <= i64::MAX,
    ensures
        final(cache).wf(),
        committed(*old(cache), *final(cache), posts@, now, ttl),
{
    let ghost pre = *cache;
    let n = posts.len();
    let mut i: usize = 0;
    while i < n
        invariant
            n == posts@.len(),
            0 <= i <= n,
            cache.wf(),
            ttl as int <= i64::MAX,
            now as int + ttl as int <= i64::MAX,
            committed(pre, *cache, posts@.take(i as int), now, ttl),
        decreases n - i,
    {
        let ghost before = *cache;
        cache.set_with_expiry(posts[i].id, posts[i].get_updated_at(), now, ttl);
        proof {
            let prefix = posts@.take(i as int);
            let prefix1 = posts@.take(i as int + 1);
            assert(prefix1 =~= prefix.push(posts@[i as int]));
            assert forall|k: i32| !unit_has_id(prefix1, k) implies #[trigger] lookup_rec(
                cache.records@,
                k,
            ) == lookup_rec(pre.records@, k) by {
                assert(prefix1[i as int] == posts@[i as int]);
                assert(k != posts@[i as int].id);
                assert forall|m: int| 0 <= m < prefix.len() implies (#[trigger] prefix[m]).id
                    != k by {
                    assert(prefix1[m] == prefix[m]);
                }
                assert(!unit_has_id(prefix, k));
            }
            assert forall|m: int| 0 <= m < prefix1.len() && last_occurrence(prefix1, m) implies
                lookup_rec(cache.records@, (#[trigger] prefix1[m]).id) == Some(
                CacheRecord {
                    id: prefix1[m].id,
                    value: prefix1[m].updated_at,
                    expires_at: expiry_of(now, ttl),
                },
            ) by {
                if m == i as int {
                    assert(prefix1[m] == posts@[i as int]);
                } else {
                    assert(prefix1[m] == prefix[m]);
                    assert(prefix1[m].id != posts@[i as int].id) by {
                        assert(prefix1[i as int] == posts@[i as int]);
                    }
                    assert(last_occurrence(prefix, m)) by {
                        assert forall|j: int| m < j < prefix.len() implies (#[trigger] prefix[j]).id
                            != prefix[m].id by {
                            assert(prefix1[j] == prefix[j]);
                        }
                    }
                    assert(lookup_rec(before.records@, prefix[m].id) == Some(
                        CacheRecord {
                            id: prefix[m].id,
                            value: prefix[m].updated_at,
                            expires_at: expiry_of(now, ttl),
                        },
                    ));
                }
            }
        }
        i += 1;
    }
    proof {
        assert(posts@.take(n as int) =~= posts@);
    }
}

/// Checking delivery is read-only and deterministic: asked twice about the
/// same unit against the same cache state, clock and policy, with no commit
/// in between, the gateway gives the same answer.
pub proof fn lemma_is_delivered_idempotent(
    r1: bool,
    r2: bool,
    cache: CacheModel,
    unit: Seq<Post>,
    now: i64,
    updated_resend: bool,
)
    requires
        r1 == unit_delivered(cache, unit, now, updated_resend),
        r2 == unit_delivered(cache, unit, now, updated_resend),
    ensures
        r1 == r2,
{
}

/// Round trip: once a unit of distinct ids is committed at `now` with time
/// to live `ttl`, the whole unit counts as delivered at every instant of the
/// ttl window, under either resend policy.
pub proof fn lemma_commit_round_trip(
    pre: CacheModel,
    post: CacheModel,
    unit: Seq<Post>,
    now: i64,
    ttl: usize,
    t: i64,
    updated_resend: bool,
)
    requires
        committed(pre, post, unit, now, ttl),
        forall|i: int, j: int|
            #![trigger unit[i], unit[j]]
            0 <= i < j < unit.len() ==> unit[i].id != unit[j].id,
        now as int + ttl as int <= i64::MAX,
        now <= t < now as int + ttl as int,
    ensures
        unit_delivered(post, unit, t, updated_resend),
{
    assert forall|i: int| 0 <= i < unit.len() implies #[trigger] delivered_spec(
        post.spec_get(unit[i].id, t),
        unit[i].updated_at,
        updated_resend,
    ) by {
        assert(last_occurrence(unit, i));
        assert(lookup_rec(post.records@, unit[i].id) == Some(
            CacheRecord { id: unit[i].id, value: unit[i].updated_at, expires_at: expiry_of(now, ttl) },
        ));
        assert(t < expiry_of(now, ttl));
        assert(post.spec_get(unit[i].id, t) == Some(unit[i].updated_at));
    }
}

/// The resend policy. With resend-on-update off, a recorded id stays
/// delivered whatever newer update time a refetch carries. With it on, the
/// id counts as delivered exactly while the record is at least as fresh as
/// the post.
pub proof fn lemma_resend_policy(recorded_at: i64, refetched_at: i64)
    ensures
        delivered_spec(Some(recorded_at), refetched_at, false),
        refetched_at > recorded_at ==> !delivered_spec(Some(recorded_at), refetched_at, true),
        refetched_at <= recorded_at ==> delivered_spec(Some(recorded_at), refetched_at, true),
{
}

} // verus!
