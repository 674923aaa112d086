use vstd::prelude::*;
use crate::config::{MAX_DURATION_SECONDS, MAX_TIMESTAMP};
use crate::post_info::{spec_has_recent, PostInfoRecord, PostInfoStore};

verus! {

/// A fresh recurring job is needed for `post_id` exactly when no sample
/// was captured within the last `2 * delta` seconds. The factor of two
/// gives slack against scheduler jitter and clock skew between this check
/// and the job's next tick.
pub open spec fn spec_should_schedule(
    rows: Seq<PostInfoRecord>,
    post_id: int,
    pooling_delta_seconds: int,
    now: int,
) -> bool {
    !spec_has_recent(rows, post_id, 2 * pooling_delta_seconds, now)
}

/// Decides whether a fresh recurring job is needed for `post_id`:
/// repeated open or prolong requests inside one polling interval must not
/// stack duplicate jobs against the same window.
pub fn should_schedule(
    infos: &PostInfoStore,
    post_id: i32,
    pooling_delta_seconds: i64,
    now: i64,
) -> (r: bool)
    requires
        0 < pooling_delta_seconds <= MAX_DURATION_SECONDS,
        0 <= now <= MAX_TIMESTAMP,
    ensures
        r == spec_should_schedule(infos@, post_id as int, pooling_delta_seconds as int, now as int),
{
    !infos.has_recent_post_info(post_id, 2 * pooling_delta_seconds, now)
}

/// Law: right after a sample for a window is appended at `t`, no new job
/// is wanted for it; once time passes `t + 2 * delta` with no further
/// sample for that window, one is wanted again.
pub proof fn lemma_gate_after_append(
    rows: Seq<PostInfoRecord>,
    r: PostInfoRecord,
    pooling_delta_seconds: int,
    now: int,
)
    requires
        0 < pooling_delta_seconds,
        forall|i: int|
            0 <= i < rows.len() && (#[trigger] rows[i]).post_id == r.post_id ==> rows[i].info_time
                <= r.info_time,
    ensures
        !spec_should_schedule(rows.push(r), r.post_id as int, pooling_delta_seconds, r.info_time as int),
        now > r.info_time + 2 * pooling_delta_seconds ==> spec_should_schedule(
            rows.push(r),
            r.post_id as int,
            pooling_delta_seconds,
            now,
        ),
{
    let all = rows.push(r);
    assert(all[rows.len() as int] == r);
    if now > r.info_time + 2 * pooling_delta_seconds {
        assert forall|i: int|
            0 <= i < all.len() && (#[trigger] all[i]).post_id == r.post_id implies all[i].info_time
            <= now - 2 * pooling_delta_seconds by {
            if i < rows.len() {
                assert(all[i] == rows[i]);
            }
        }
    }
}

} // verus!
