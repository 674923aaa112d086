use vstd::prelude::*;
use crate::config::{MAX_DURATION_SECONDS, MAX_TIMESTAMP};
use crate::models::{PostDetails, Window};
use crate::utils::str_eq;

verus! {

/// Mathematical view of the post-window store: the persisted windows, the
/// next id a created window receives, and the storage clock — the instant
/// of the latest committed transaction. Requests for one post serialize
/// through the store's locking, so each transaction's `now` is at or after
/// the clock, and the clock never moves backward.
#[verifier::ext_equal]
pub ghost struct PostStoreModel {
    pub posts: Seq<Window>,
    pub next_id: int,
    pub clock: int,
}

impl PostStoreModel {
    /// Some window for `vk_id` contains the instant `now`.
    pub open spec fn has_open_window(self, vk_id: Seq<char>, now: int) -> bool {
        exists|i: int|
            0 <= i < self.posts.len() && (#[trigger] self.posts[i]).vk_id == vk_id
                && self.posts[i].open_at(now)
    }

    /// The index of the open window for `vk_id` — unique under `inv`.
    pub open spec fn open_window_index(self, vk_id: Seq<char>, now: int) -> int {
        choose|i: int|
            0 <= i < self.posts.len() && (#[trigger] self.posts[i]).vk_id == vk_id
                && self.posts[i].open_at(now)
    }

    /// Exactly one stored window for `vk_id` contains the instant `now`.
    pub open spec fn exactly_one_open(self, vk_id: Seq<char>, now: int) -> bool {
        &&& self.has_open_window(vk_id, now)
        &&& forall|i: int, j: int|
            0 <= i < self.posts.len() && 0 <= j < self.posts.len() && (
            #[trigger] self.posts[i]).vk_id == vk_id && self.posts[i].open_at(now) && (
            #[trigger] self.posts[j]).vk_id == vk_id && self.posts[j].open_at(now) ==> i == j
    }

    /// Some window has id `id`.
    pub open spec fn has_post(self, id: int) -> bool {
        exists|i: int| 0 <= i < self.posts.len() && (#[trigger] self.posts[i]).id == id
    }

    /// The index of the window with id `id` — unique under `inv`.
    pub open spec fn post_index(self, id: int) -> int {
        choose|i: int| 0 <= i < self.posts.len() && (#[trigger] self.posts[i]).id == id
    }

    /// The job polling window `id` should stop at `now`: the window has
    /// elapsed, or no window carries that id at all.
    pub open spec fn ready_to_finish_at(self, id: int, now: int) -> bool {
        !self.has_post(id) || self.posts[self.post_index(id)].expired_at(now)
    }

    /// Well-formedness of one stored window: its id was assigned by the
    /// store, its interval is ordered, it began no later than the storage
    /// clock, and its end stays within the representable range.
    pub open spec fn wf_window(self, w: Window) -> bool {
        &&& 0 < w.id < self.next_id
        &&& 0 <= w.dt_parse_begin <= w.dt_parse_end
        &&& w.dt_parse_begin <= self.clock
        &&& w.dt_parse_end <= MAX_TIMESTAMP + MAX_DURATION_SECONDS
    }

    /// The store invariant. Windows are never deleted; ids are distinct;
    /// and for one post, windows are ordered and disjoint in time, so at
    /// most one window for a post contains any given instant.
    pub open spec fn inv(self) -> bool {
        &&& 0 <= self.clock <= MAX_TIMESTAMP
        &&& 1 <= self.next_id <= i32::MAX
        &&& forall|i: int|
            0 <= i < self.posts.len() ==> self.wf_window(#[trigger] self.posts[i])
        &&& forall|i: int, j: int|
            0 <= i < j < self.posts.len() ==> (#[trigger] self.posts[i]).id != (
            #[trigger] self.posts[j]).id
        &&& forall|i: int, j: int|
            0 <= i < j < self.posts.len() && (#[trigger] self.posts[i]).vk_id == (
            #[trigger] self.posts[j]).vk_id ==> self.posts[i].dt_parse_end
                < self.posts[j].dt_parse_begin
    }

    /// The create-or-prolong transition, run as one serialized transaction
    /// at instant `now`:
    /// - an open window for `vk_id` exists and `prolong` holds: its end
    ///   moves to `now + period`;
    /// - an open window exists and `prolong` does not hold: nothing changes;
    /// - no open window exists: a fresh window `[now, now + period]` is
    ///   inserted under the next id.
    /// Returns the store afterwards and the window the caller observes.
    pub open spec fn get_or_create_spec(
        self,
        vk_id: Seq<char>,
        prolong: bool,
        period: int,
        now: int,
    ) -> (PostStoreModel, Window) {
        if self.has_open_window(vk_id, now) {
            let i = self.open_window_index(vk_id, now);
            let w = self.posts[i];
            if prolong {
                let w2 = Window { dt_parse_end: now + period, ..w };
                (
                    PostStoreModel { posts: self.posts.update(i, w2), clock: now, ..self },
                    w2,
                )
            } else {
                (PostStoreModel { clock: now, ..self }, w)
            }
        } else {
            let w = Window {
                id: self.next_id,
                vk_id: vk_id,
                dt_parse_begin: now,
                dt_parse_end: now + period,
            };
            (
                PostStoreModel {
                    posts: self.posts.push(w),
                    next_id: self.next_id + 1,
                    clock: now,
                },
                w,
            )
        }
    }
}

/// Under the invariant, at most one window for a post contains a given
/// instant: two open indices for the same `vk_id` coincide.
pub proof fn lemma_open_window_unique(
    s: PostStoreModel,
    vk_id: Seq<char>,
    now: int,
    i: int,
    j: int,
)
    requires
        s.inv(),
        0 <= i < s.posts.len(),
        s.posts[i].vk_id == vk_id,
        s.posts[i].open_at(now),
        0 <= j < s.posts.len(),
        s.posts[j].vk_id == vk_id,
        s.posts[j].open_at(now),
    ensures
        i == j,
{
}

/// Under the invariant, window ids are unique: two indices carrying the
/// same id coincide.
pub proof fn lemma_post_id_unique(s: PostStoreModel, id: int, i: int, j: int)
    requires
        s.inv(),
        0 <= i < s.posts.len(),
        s.posts[i].id == id,
        0 <= j < s.posts.len(),
        s.posts[j].id == id,
    ensures
        i == j,
{
}

/// The create-or-prolong transition preserves the store invariant, and the
/// window it returns is stored, open at `now`, and keeps the post's key.
pub proof fn lemma_get_or_create_preserves_inv(
    s: PostStoreModel,
    vk_id: Seq<char>,
    prolong: bool,
    period: int,
    now: int,
)
    requires
        s.inv(),
        s.clock <= now <= MAX_TIMESTAMP,
        0 < period <= MAX_DURATION_SECONDS,
        s.next_id < i32::MAX,
    ensures
        s.get_or_create_spec(vk_id, prolong, period, now).0.inv(),
        s.get_or_create_spec(vk_id, prolong, period, now).1.open_at(now),
        s.get_or_create_spec(vk_id, prolong, period, now).1.vk_id == vk_id,
        s.get_or_create_spec(vk_id, prolong, period, now).0.has_post(
            s.get_or_create_spec(vk_id, prolong, period, now).1.id,
        ),
        0 < s.get_or_create_spec(vk_id, prolong, period, now).1.id < i32::MAX,
        0 <= s.get_or_create_spec(vk_id, prolong, period, now).1.dt_parse_begin <= now,
        s.get_or_create_spec(vk_id, prolong, period, now).1.dt_parse_begin
            <= s.get_or_create_spec(vk_id, prolong, period, now).1.dt_parse_end <= MAX_TIMESTAMP
            + MAX_DURATION_SECONDS,
{
    let (s2, w) = s.get_or_create_spec(vk_id, prolong, period, now);
    if s.has_open_window(vk_id, now) {
        let i = s.open_window_index(vk_id, now);
        assert(0 <= i < s.posts.len() && s.posts[i].vk_id == vk_id && s.posts[i].open_at(now));
        if prolong {
            // The open window is the last one for this key: any later window
            // would have begun after the clock.
            assert forall|j: int|
                i < j < s.posts.len() && (#[trigger] s.posts[j]).vk_id == vk_id implies false by {
                assert(s.posts[i].dt_parse_end < s.posts[j].dt_parse_begin);
                assert(s.posts[j].dt_parse_begin <= s.clock);
            }
            assert(s2.posts[i].open_at(now));
            assert(s2.inv());
            assert(s2.has_post(w.id)) by {
                assert(s2.posts[i].id == w.id);
            }
        } else {
            assert(s2.has_post(w.id)) by {
                assert(s2.posts[i].id == w.id);
            }
        }
    } else {
        // Every stored window for this key ended before `now`.
        assert forall|j: int|
            0 <= j < s.posts.len() && (#[trigger] s.posts[j]).vk_id == vk_id implies s.posts[j].dt_parse_end
            < now by {
            assert(s.posts[j].dt_parse_begin <= s.clock <= now);
            assert(!s.posts[j].open_at(now));
        }
        assert(s2.inv());
        assert(s2.has_post(w.id)) by {
            assert(s2.posts[s.posts.len() as int].id == w.id);
        }
    }
}

/// After a create-or-prolong at `now1`, the returned window is stored, and
/// a request for the same key at any `now2` inside that window finds it —
/// and nothing else.
proof fn lemma_returned_window_found_again(
    s: PostStoreModel,
    vk_id: Seq<char>,
    prolong: bool,
    period: int,
    now1: int,
    now2: int,
)
    requires
        s.inv(),
        s.clock <= now1 <= MAX_TIMESTAMP,
        0 < period <= MAX_DURATION_SECONDS,
        s.next_id < i32::MAX,
        now1 <= now2 <= s.get_or_create_spec(vk_id, prolong, period, now1).1.dt_parse_end,
    ensures
        s.get_or_create_spec(vk_id, prolong, period, now1).0.has_open_window(vk_id, now2),
        s.get_or_create_spec(vk_id, prolong, period, now1).0.posts[s.get_or_create_spec(
            vk_id,
            prolong,
            period,
            now1,
        ).0.open_window_index(vk_id, now2)] == s.get_or_create_spec(
            vk_id,
            prolong,
            period,
            now1,
        ).1,
{
    let (s1, w1) = s.get_or_create_spec(vk_id, prolong, period, now1);
    lemma_get_or_create_preserves_inv(s, vk_id, prolong, period, now1);
    let idx: int = if s.has_open_window(vk_id, now1) {
        s.open_window_index(vk_id, now1)
    } else {
        s.posts.len() as int
    };
    assert(0 <= idx < s1.posts.len() && s1.posts[idx] == w1);
    assert(w1.open_at(now2));
    assert(s1.has_open_window(vk_id, now2));
    lemma_open_window_unique(s1, vk_id, now2, s1.open_window_index(vk_id, now2), idx);
}

/// Law: requests racing to open a window for the same post serialize, and
/// the loser observes the winner's window. Started from any valid store, a
/// request and then a second request at the same instant — with either
/// prolong flag — return the same window id, and the store afterwards
/// holds exactly one window for the post that contains that instant.
/// Applying the second clause repeatedly covers any number of racers.
pub proof fn lemma_concurrent_get_or_create_agree(
    s: PostStoreModel,
    vk_id: Seq<char>,
    prolong1: bool,
    prolong2: bool,
    period: int,
    now: int,
)
    requires
        s.inv(),
        s.clock <= now <= MAX_TIMESTAMP,
        0 < period <= MAX_DURATION_SECONDS,
        s.next_id + 1 < i32::MAX,
    ensures
        s.get_or_create_spec(vk_id, prolong1, period, now).0.get_or_create_spec(
            vk_id,
            prolong2,
            period,
            now,
        ).1.id == s.get_or_create_spec(vk_id, prolong1, period, now).1.id,
        s.get_or_create_spec(vk_id, prolong1, period, now).0.get_or_create_spec(
            vk_id,
            prolong2,
            period,
            now,
        ).0.exactly_one_open(vk_id, now),
{
    let (s1, w1) = s.get_or_create_spec(vk_id, prolong1, period, now);
    lemma_get_or_create_preserves_inv(s, vk_id, prolong1, period, now);
    lemma_returned_window_found_again(s, vk_id, prolong1, period, now, now);
    let (s2, w2) = s1.get_or_create_spec(vk_id, prolong2, period, now);
    lemma_get_or_create_preserves_inv(s1, vk_id, prolong2, period, now);
    assert(w2.id == w1.id);
    assert forall|i: int, j: int|
        0 <= i < s2.posts.len() && 0 <= j < s2.posts.len() && (#[trigger] s2.posts[i]).vk_id
            == vk_id && s2.posts[i].open_at(now) && (#[trigger] s2.posts[j]).vk_id == vk_id
            && s2.posts[j].open_at(now) implies i == j by {
        lemma_open_window_unique(s2, vk_id, now, i, j);
    }
    let k = s2.post_index(w2.id);
    assert(s2.has_post(w2.id));
    assert(s2.posts[k].id == w2.id);
}

/// Law: a repeated request without prolong inside the same window changes
/// nothing — the second request returns the very window the first one did,
/// with the same `dt_parse_end`, and leaves the stored windows as they are.
pub proof fn lemma_repeat_without_prolong_keeps_end(
    s: PostStoreModel,
    vk_id: Seq<char>,
    period: int,
    now1: int,
    now2: int,
)
    requires
        s.inv(),
        s.clock <= now1 <= MAX_TIMESTAMP,
        0 < period <= MAX_DURATION_SECONDS,
        s.next_id < i32::MAX,
        now1 <= now2 <= MAX_TIMESTAMP,
        now2 <= s.get_or_create_spec(vk_id, false, period, now1).1.dt_parse_end,
    ensures
        s.get_or_create_spec(vk_id, false, period, now1).0.get_or_create_spec(
            vk_id,
            false,
            period,
            now2,
        ).1 == s.get_or_create_spec(vk_id, false, period, now1).1,
        s.get_or_create_spec(vk_id, false, period, now1).0.get_or_create_spec(
            vk_id,
            false,
            period,
            now2,
        ).0.posts == s.get_or_create_spec(vk_id, false, period, now1).0.posts,
{
    lemma_returned_window_found_again(s, vk_id, false, period, now1, now2);
}

/// Law: a second prolong request strictly later in the window strictly
/// increases `dt_parse_end` over what the first request returned, and both
/// requests address the same window. At `now2 == now1` the two ends would
/// coincide, so strictly advancing time is required.
pub proof fn lemma_second_prolong_strictly_extends(
    s: PostStoreModel,
    vk_id: Seq<char>,
    period: int,
    now1: int,
    now2: int,
)
    requires
        s.inv(),
        s.clock <= now1 <= MAX_TIMESTAMP,
        0 < period <= MAX_DURATION_SECONDS,
        s.next_id < i32::MAX,
        now1 < now2 <= MAX_TIMESTAMP,
        now2 <= s.get_or_create_spec(vk_id, true, period, now1).1.dt_parse_end,
    ensures
        s.get_or_create_spec(vk_id, true, period, now1).0.get_or_create_spec(
            vk_id,
            true,
            period,
            now2,
        ).1.id == s.get_or_create_spec(vk_id, true, period, now1).1.id,
        s.get_or_create_spec(vk_id, true, period, now1).0.get_or_create_spec(
            vk_id,
            true,
            period,
            now2,
        ).1.dt_parse_end > s.get_or_create_spec(vk_id, true, period, now1).1.dt_parse_end,
{
    lemma_returned_window_found_again(s, vk_id, true, period, now1, now2);
}

/// The persistent store of post windows, with the create-or-prolong
/// transactional protocol.
pub struct PostStore {
    posts: Vec<PostDetails>,
    next_id: i32,
    clock: i64,
}

impl View for PostStore {
    type V = PostStoreModel;

    closed spec fn view(&self) -> PostStoreModel {
        PostStoreModel {
            posts: self.posts@.map_values(|p: PostDetails| p@),
            next_id: self.next_id as int,
            clock: self.clock as int,
        }
    }
}

impl PostStore {
    /// An empty store: no windows, ids start at one, clock at the epoch.
    pub fn new() -> (s: PostStore)
        ensures
            s@.posts == Seq::<Window>::empty(),
            s@.next_id == 1,
            s@.clock == 0,
            s@.inv(),
    {
        let s = PostStore { posts: Vec::new(), next_id: 1, clock: 0 };
        proof {
            assert(s@.posts =~= Seq::<Window>::empty());
        }
        s
    }

    /// Finds the index of the open window for `vk_id` at `now`, if any.
    fn find_open_index(&self, vk_id: &str, now: i64) -> (r: Option<usize>)
        ensures
            match r {
                Some(i) => 0 <= i < self@.posts.len() && self@.posts[i as int].vk_id == vk_id@
                    && self@.posts[i as int].open_at(now as int),
                None => !self@.has_open_window(vk_id@, now as int),
            },
    {
        let mut i: usize = 0;
        let n = self.posts.len();
        while i < n
            invariant
                0 <= i <= n,
                n == self.posts.len(),
                self@.posts.len() == n,
                forall|k: int|
                    0 <= k < i ==> !((#[trigger] self@.posts[k]).vk_id == vk_id@
                        && self@.posts[k].open_at(now as int)),
            decreases n - i,
        {
            let p = &self.posts[i];
            if p.dt_parse_begin <= now && now <= p.dt_parse_end && str_eq(p.vk_id.as_str(), vk_id) {
                return Some(i);
            }
            i = i + 1;
        }
        None
    }

    /// The create-or-prolong protocol, run as one serialized transaction:
    /// lock and re-read the open window for `vk_id` at `now`; prolong it,
    /// return it unchanged, or insert a fresh window `[now, now + period]`,
    /// exactly as `get_or_create_spec` states.
    pub fn get_or_create_post_with_prolong(
        &mut self,
        vk_id: &str,
        prolong: bool,
        period: i64,
        now: i64,
    ) -> (post: PostDetails)
        requires
            old(self)@.inv(),
            old(self)@.clock <= now <= MAX_TIMESTAMP,
            0 < period <= MAX_DURATION_SECONDS,
            old(self)@.next_id < i32::MAX,
        ensures
            final(self)@.inv(),
            final(self)@ == old(self)@.get_or_create_spec(
                vk_id@,
                prolong,
                period as int,
                now as int,
            ).0,
            post@ == old(self)@.get_or_create_spec(vk_id@, prolong, period as int, now as int).1,
    {
        proof {
            lemma_get_or_create_preserves_inv(
                old(self)@,
                vk_id@,
                prolong,
                period as int,
                now as int,
            );
        }
        let found = self.find_open_index(vk_id, now);
        self.clock = now;
        match found {
            Some(i) => {
                proof {
                    let k = old(self)@.open_window_index(vk_id@, now as int);
                    lemma_open_window_unique(old(self)@, vk_id@, now as int, k, i as int);
                }
                if prolong {
                    let q = &self.posts[i];
                    let updated = PostDetails {
                        id: q.id,
                        vk_id: q.vk_id.clone(),
                        dt_parse_begin: q.dt_parse_begin,
                        dt_parse_end: now + period,
                    };
                    let ret = PostDetails {
                        id: updated.id,
                        vk_id: updated.vk_id.clone(),
                        dt_parse_begin: updated.dt_parse_begin,
                        dt_parse_end: updated.dt_parse_end,
                    };
                    self.posts.set(i, updated);
                    proof {
                        assert(self@ =~~= old(self)@.get_or_create_spec(
                            vk_id@,
                            prolong,
                            period as int,
                            now as int,
                        ).0);
                    }
                    ret
                } else {
                    let q = &self.posts[i];
                    let ret = PostDetails {
                        id: q.id,
                        vk_id: q.vk_id.clone(),
                        dt_parse_begin: q.dt_parse_begin,
                        dt_parse_end: q.dt_parse_end,
                    };
                    proof {
                        assert(self@ =~~= old(self)@.get_or_create_spec(
                            vk_id@,
                            prolong,
                            period as int,
                            now as int,
                        ).0);
                    }
                    ret
                }
            },
            None => {
                let id = self.next_id;
                self.next_id = self.next_id + 1;
                let created = PostDetails {
                    id,
                    vk_id: vk_id.to_owned(),
                    dt_parse_begin: now,
                    dt_parse_end: now + period,
                };
                let ret = PostDetails {
                    id: created.id,
                    vk_id: created.vk_id.clone(),
                    dt_parse_begin: created.dt_parse_begin,
                    dt_parse_end: created.dt_parse_end,
                };
                self.posts.push(created);
                proof {
                    assert(self@ =~~= old(self)@.get_or_create_spec(
                        vk_id@,
                        prolong,
                        period as int,
                        now as int,
                    ).0);
                }
                ret
            },
        }
    }

    /// Whether the job polling `post_id` should stop: true once `now` has
    /// passed the window's end, and also when no window carries `post_id`
    /// at all — on a dangling reference the job stops rather than polling
    /// forever.
    pub fn is_ready_to_finish(&self, post_id: i32, now: i64) -> (r: bool)
        requires
            self@.inv(),
        ensures
            r == self@.ready_to_finish_at(post_id as int, now as int),
    {
        let mut i: usize = 0;
        let n = self.posts.len();
        while i < n
            invariant
                self@.inv(),
                0 <= i <= n,
                n == self.posts.len(),
                self@.posts.len() == n,
                forall|k: int| 0 <= k < i ==> (#[trigger] self@.posts[k]).id != post_id as int,
            decreases n - i,
        {
            let p = &self.posts[i];
            if p.id == post_id {
                proof {
                    let k = self@.post_index(post_id as int);
                    assert(self@.posts[i as int].id == post_id as int);
                    lemma_post_id_unique(self@, post_id as int, k, i as int);
                }
                return now > p.dt_parse_end;
            }
            i = i + 1;
        }
        proof {
            assert(!self@.has_post(post_id as int));
        }
        true
    }

    /// The window with id `post_id`, if it exists.
    pub fn find_post(&self, post_id: i32) -> (r: Option<PostDetails>)
        requires
            self@.inv(),
        ensures
            match r {
                Some(p) => self@.has_post(post_id as int) && p@ == self@.posts[self@.post_index(
                    post_id as int,
                )] && p.id == post_id,
                None => !self@.has_post(post_id as int),
            },
    {
        let mut i: usize = 0;
        let n = self.posts.len();
        while i < n
            invariant
                self@.inv(),
                0 <= i <= n,
                n == self.posts.len(),
                self@.posts.len() == n,
                forall|k: int| 0 <= k < i ==> (#[trigger] self@.posts[k]).id != post_id as int,
            decreases n - i,
        {
            let p = &self.posts[i];
            if p.id == post_id {
                proof {
                    let k = self@.post_index(post_id as int);
                    assert(self@.posts[i as int].id == post_id as int);
                    lemma_post_id_unique(self@, post_id as int, k, i as int);
                }
                return Some(
                    PostDetails {
                        id: p.id,
                        vk_id: p.vk_id.clone(),
                        dt_parse_begin: p.dt_parse_begin,
                        dt_parse_end: p.dt_parse_end,
                    },
                );
            }
            i = i + 1;
        }
        None
    }

    /// The key of the post whose window has id `post_id`, if that window
    /// exists.
    pub fn get_vk_id_by_post_id(&self, post_id: i32) -> (r: Option<String>)
        requires
            self@.inv(),
        ensures
            match r {
                Some(v) => self@.has_post(post_id as int) && v@ == self@.posts[self@.post_index(
                    post_id as int,
                )].vk_id,
                None => !self@.has_post(post_id as int),
            },
    {
        let mut i: usize = 0;
        let n = self.posts.len();
        while i < n
            invariant
                self@.inv(),
                0 <= i <= n,
                n == self.posts.len(),
                self@.posts.len() == n,
                forall|k: int| 0 <= k < i ==> (#[trigger] self@.posts[k]).id != post_id as int,
            decreases n - i,
        {
            let p = &self.posts[i];
            if p.id == post_id {
                proof {
                    let k = self@.post_index(post_id as int);
                    assert(self@.posts[i as int].id == post_id as int);
                    lemma_post_id_unique(self@, post_id as int, k, i as int);
                }
                return Some(p.vk_id.clone());
            }
            i = i + 1;
        }
        None
    }
}

/// The window `w` still needs a polling job at `now`: it is open in the
/// sense `dt_parse_end > now`, and the dedup gate finds no sample for it
/// within the last `2 * delta` seconds.
pub open spec fn spec_needs_polling(
    w: Window,
    rows: Seq<crate::post_info::PostInfoRecord>,
    pooling_delta_seconds: int,
    now: int,
) -> bool {
    w.dt_parse_end > now && crate::gate::spec_should_schedule(
        rows,
        w.id,
        pooling_delta_seconds,
        now,
    )
}

impl PostStore {
    /// The windows the reconciler must reschedule after a restart: every
    /// window that is still open and has no sufficiently recent sample, as
    /// id and key pairs, in stored order.
    pub fn get_posts_needing_polling(
        &self,
        infos: &crate::post_info::PostInfoStore,
        pooling_delta_seconds: i64,
        now: i64,
    ) -> (r: Vec<(i32, String)>)
        requires
            0 < pooling_delta_seconds <= MAX_DURATION_SECONDS,
            0 <= now <= MAX_TIMESTAMP,
        ensures
            r@.len() == self@.posts.filter(
                |w: Window| spec_needs_polling(w, infos@, pooling_delta_seconds as int, now as int),
            ).len(),
            forall|k: int|
                0 <= k < r@.len() ==> (#[trigger] r@[k]).0 == self@.posts.filter(
                    |w: Window|
                        spec_needs_polling(w, infos@, pooling_delta_seconds as int, now as int),
                )[k].id && r@[k].1@ == self@.posts.filter(
                    |w: Window|
                        spec_needs_polling(w, infos@, pooling_delta_seconds as int, now as int),
                )[k].vk_id,
    {
        let ghost pred = |w: Window| spec_needs_polling(
            w,
            infos@,
            pooling_delta_seconds as int,
            now as int,
        );
        let mut out: Vec<(i32, String)> = Vec::new();
        proof {
            assert(self@.posts.take(0) =~= Seq::<Window>::empty());
            assert(self@.posts.take(0).filter(pred) =~= Seq::<Window>::empty());
        }
        let mut i: usize = 0;
        let n = self.posts.len();
        while i < n
            invariant
                0 <= i <= n,
                n == self.posts.len(),
                self@.posts.len() == n,
                self@.posts == self.posts@.map_values(|p: PostDetails| p@),
                pred == (|w: Window| spec_needs_polling(
                    w,
                    infos@,
                    pooling_delta_seconds as int,
                    now as int,
                )),
                0 < pooling_delta_seconds <= MAX_DURATION_SECONDS,
                0 <= now <= MAX_TIMESTAMP,
                out@.len() == self@.posts.take(i as int).filter(pred).len(),
                forall|k: int|
                    0 <= k < out@.len() ==> (#[trigger] out@[k]).0 == self@.posts.take(
                        i as int,
                    ).filter(pred)[k].id && out@[k].1@ == self@.posts.take(i as int).filter(
                        pred,
                    )[k].vk_id,
            decreases n - i,
        {
            proof {
                assert(self@.posts.take(i + 1) =~= self@.posts.take(i as int).push(
                    self@.posts[i as int],
                ));
                Seq::lemma_filter_push(self@.posts.take(i as int), self@.posts[i as int], pred);
            }
            let p = &self.posts[i];
            let is_open = p.dt_parse_end > now;
            if is_open && crate::gate::should_schedule(infos, p.id, pooling_delta_seconds, now) {
                out.push((p.id, p.vk_id.clone()));
            }
            i = i + 1;
        }
        proof {
            assert(self@.posts.take(n as int) =~= self@.posts);
        }
        out
    }
}

} // verus!

