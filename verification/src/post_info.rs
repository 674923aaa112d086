use vstd::prelude::*;
use crate::config::{MAX_DURATION_SECONDS, MAX_TIMESTAMP};
use crate::models::PostInfoData;

verus! {

/// One stored sample: the counters captured for the window `post_id` at
/// `info_time`.
#[derive(Clone, Copy, PartialEq, Eq, Structural, Debug)]
pub struct PostInfoRecord {
    pub post_id: i32,
    pub comments_count: i32,
    pub likes_count: i32,
    pub views_count: i32,
    pub reposts_count: i32,
    pub info_time: i64,
}

/// The per-window shape of a stored sample: the record without its owning
/// window id.
pub open spec fn data_of(r: PostInfoRecord) -> PostInfoData {
    PostInfoData {
        comments_count: r.comments_count,
        likes_count: r.likes_count,
        views_count: r.views_count,
        reposts_count: r.reposts_count,
        info_time: r.info_time,
    }
}

/// Every stored capture instant is a representable timestamp.
pub open spec fn rows_wf(rows: Seq<PostInfoRecord>) -> bool {
    forall|i: int| 0 <= i < rows.len() ==> 0 <= (#[trigger] rows[i]).info_time <= MAX_TIMESTAMP
}

/// Some sample for `post_id` was captured within the last `since_seconds`
/// seconds before `now` (exclusive of the cutoff itself).
pub open spec fn spec_has_recent(
    rows: Seq<PostInfoRecord>,
    post_id: int,
    since_seconds: int,
    now: int,
) -> bool {
    exists|i: int|
        0 <= i < rows.len() && (#[trigger] rows[i]).post_id == post_id && rows[i].info_time > now
            - since_seconds
}

/// The samples of the window `post_id`, in stored order, as per-window data.
pub open spec fn post_data_of(rows: Seq<PostInfoRecord>, post_id: int) -> Seq<PostInfoData> {
    rows.filter(|r: PostInfoRecord| r.post_id == post_id).map_values(
        |r: PostInfoRecord| data_of(r),
    )
}

/// Non-decreasing capture times.
pub open spec fn sorted_by_info_time(s: Seq<PostInfoData>) -> bool {
    forall|i: int, j: int|
        0 <= i <= j < s.len() ==> (#[trigger] s[i]).info_time <= (#[trigger] s[j]).info_time
}

/// The append-only store of samples. Rows are only ever appended; nothing
/// is updated or deleted, and no uniqueness is imposed — a window may
/// accumulate arbitrarily many samples.
pub struct PostInfoStore {
    rows: Vec<PostInfoRecord>,
}

impl View for PostInfoStore {
    type V = Seq<PostInfoRecord>;

    closed spec fn view(&self) -> Seq<PostInfoRecord> {
        self.rows@
    }
}

impl PostInfoStore {
    /// An empty store.
    pub fn new() -> (s: PostInfoStore)
        ensures
            s@ == Seq::<PostInfoRecord>::empty(),
            rows_wf(s@),
    {
        let s = PostInfoStore { rows: Vec::new() };
        proof {
            assert(s@ =~= Seq::<PostInfoRecord>::empty());
        }
        s
    }

    /// Appends one sample for `post_id`, captured at `now`. No dedup and no
    /// validation happen here: the counters are stored as handed in.
    pub fn save_post_info(
        &mut self,
        post_id: i32,
        likes_count: i32,
        comments_count: i32,
        reposts_count: i32,
        views_count: i32,
        now: i64,
    )
        requires
            rows_wf(old(self)@),
            0 <= now <= MAX_TIMESTAMP,
        ensures
            final(self)@ == old(self)@.push(
                (PostInfoRecord {
                    post_id,
                    comments_count,
                    likes_count,
                    views_count,
                    reposts_count,
                    info_time: now,
                }),
            ),
            rows_wf(final(self)@),
    {
        self.rows.push(
            PostInfoRecord {
                post_id,
                comments_count,
                likes_count,
                views_count,
                reposts_count,
                info_time: now,
            },
        );
    }

    /// Whether some sample for `post_id` was captured after
    /// `now - since_seconds`.
    pub fn has_recent_post_info(&self, post_id: i32, since_seconds: i64, now: i64) -> (r: bool)
        requires
            0 <= now <= MAX_TIMESTAMP,
            0 <= since_seconds <= 2 * MAX_DURATION_SECONDS,
        ensures
            r == spec_has_recent(self@, post_id as int, since_seconds as int, now as int),
    {
        let cutoff = now - since_seconds;
        let mut i: usize = 0;
        let n = self.rows.len();
        while i < n
            invariant
                0 <= i <= n,
                n == self@.len(),
                cutoff == now - since_seconds,
                forall|k: int|
                    0 <= k < i ==> !((#[trigger] self@[k]).post_id == post_id as int
                        && self@[k].info_time > now - since_seconds),
            decreases n - i,
        {
            let row = &self.rows[i];
            if row.post_id == post_id && row.info_time > cutoff {
                proof {
                    assert(self@[i as int].post_id == post_id as int && self@[i as int].info_time
                        > now - since_seconds);
                }
                return true;
            }
            i = i + 1;
        }
        false
    }

    /// The samples of the window `post_id`, ascending by capture time. The
    /// result is a reordering of exactly the stored samples of that window:
    /// ties in `info_time` carry no further ordering guarantee.
    pub fn list_post_info(&self, post_id: i32) -> (r: Vec<PostInfoData>)
        requires
            rows_wf(self@),
        ensures
            sorted_by_info_time(r@),
            r@.to_multiset() == post_data_of(self@, post_id as int).to_multiset(),
            forall|k: int|
                0 <= k < r@.len() ==> 0 <= (#[trigger] r@[k]).info_time <= MAX_TIMESTAMP,
    {
        let ghost pred = |rec: PostInfoRecord| rec.post_id == post_id as int;
        let mut out: Vec<PostInfoData> = Vec::new();
        proof {
            assert(self@.take(0) =~= Seq::<PostInfoRecord>::empty());
            assert(post_data_of(self@.take(0), post_id as int) =~= Seq::<PostInfoData>::empty());
            assert(out@.to_multiset() =~= post_data_of(self@.take(0), post_id as int).to_multiset());
        }
        let mut i: usize = 0;
        let n = self.rows.len();
        while i < n
            invariant
                0 <= i <= n,
                n == self@.len(),
                pred == (|rec: PostInfoRecord| rec.post_id == post_id as int),
                rows_wf(self@),
                sorted_by_info_time(out@),
                out@.to_multiset() == post_data_of(self@.take(i as int), post_id as int)
                    .to_multiset(),
                forall|k: int|
                    0 <= k < out@.len() ==> 0 <= (#[trigger] out@[k]).info_time <= MAX_TIMESTAMP,
            decreases n - i,
        {
            let row = self.rows[i];
            proof {
                broadcast use vstd::seq_lib::group_to_multiset_ensures;

                assert(self@.take(i + 1) =~= self@.take(i as int).push(self@[i as int]));
                Seq::lemma_filter_push(self@.take(i as int), self@[i as int], pred);
                if pred(self@[i as int]) {
                    assert(post_data_of(self@.take(i + 1), post_id as int) =~= post_data_of(
                        self@.take(i as int),
                        post_id as int,
                    ).push(data_of(self@[i as int])));
                } else {
                    assert(post_data_of(self@.take(i + 1), post_id as int) =~= post_data_of(
                        self@.take(i as int),
                        post_id as int,
                    ));
                }
            }
            if row.post_id == post_id {
                let data = PostInfoData {
                    comments_count: row.comments_count,
                    likes_count: row.likes_count,
                    views_count: row.views_count,
                    reposts_count: row.reposts_count,
                    info_time: row.info_time,
                };
                insert_by_info_time(&mut out, data);
            }
            i = i + 1;
        }
        proof {
            assert(self@.take(n as int) =~= self@);
        }
        out
    }
}

/// Inserts one sample into a time-sorted vector, keeping it sorted.
fn insert_by_info_time(out: &mut Vec<PostInfoData>, x: PostInfoData)
    requires
        sorted_by_info_time(old(out)@),
    ensures
        sorted_by_info_time(final(out)@),
        final(out)@.to_multiset() == old(out)@.to_multiset().insert(x),
        forall|k: int|
            0 <= k < final(out)@.len() ==> final(out)@[k] == x || old(out)@.contains(
                #[trigger] final(out)@[k],
            ),
{
    let mut i: usize = 0;
    while i < out.len() && out[i].info_time <= x.info_time
        invariant
            0 <= i <= out@.len(),
            sorted_by_info_time(out@),
            out@ == old(out)@,
            forall|k: int| 0 <= k < i ==> (#[trigger] out@[k]).info_time <= x.info_time,
        decreases out@.len() - i,
    {
        i = i + 1;
    }
    proof {
        if i < out@.len() {
            assert(out@[i as int].info_time > x.info_time);
        }
        assert(forall|k: int|
            i <= k < out@.len() ==> (#[trigger] out@[k]).info_time > x.info_time);
    }
    let ghost before = out@;
    out.insert(i, x);
    proof {
        vstd::seq_lib::to_multiset_insert(before, i as int, x);
        assert forall|p: int, q: int|
            0 <= p <= q < out@.len() implies (#[trigger] out@[p]).info_time <= (
        #[trigger] out@[q]).info_time by {
            if p < i && q < i {
            } else if p < i && q == i {
            } else if p == i && q == i {
            } else if p < i && q > i {
                assert(out@[q] == before[q - 1]);
            } else if p == i && q > i {
                assert(out@[q] == before[q - 1]);
            } else {
                assert(out@[p] == before[p - 1]);
                assert(out@[q] == before[q - 1]);
            }
        }
    }
}

} // verus!
