use vstd::prelude::*;
use crate::config::{MAX_DURATION_SECONDS, MAX_TIMESTAMP};
use crate::models::{VkPostStats, Window};
use crate::post_info::{rows_wf, PostInfoRecord, PostInfoStore};
use crate::posts::{spec_needs_polling, PostStore};
use crate::scheduler::JobScheduler;

verus! {

/// What a scheduled job must do on one tick, decided before any outside
/// call is made.
pub enum TickAction {
    /// The window is still open: fetch the counters for this key, then
    /// append them with `poll_tick_finish`.
    Fetch(String),
    /// The window has elapsed or is gone: the job was deregistered, and
    /// this tick performs no fetch and no append.
    Terminated,
}

/// The first half of one tick of the polling state machine for the window
/// `post_id`: checks expiry before anything else. On an expired or vanished
/// window it removes the job from the registry and reports `Terminated` —
/// zero fetches and zero appends happen on such a tick. Otherwise the
/// registry is untouched and the caller is told which key to fetch.
///
/// A failure of the subsequent fetch or append is isolated to its tick:
/// the caller skips `poll_tick_finish`, nothing is stored, the job stays
/// registered, and the next tick retries at the natural cadence.
pub fn poll_tick_begin(
    posts: &PostStore,
    scheduler: &mut JobScheduler,
    post_id: i32,
    now: i64,
) -> (a: TickAction)
    requires
        posts@.inv(),
        old(scheduler).inv(),
    ensures
        final(scheduler).inv(),
        posts@.ready_to_finish_at(post_id as int, now as int) ==> a is Terminated
            && final(scheduler)@ == old(scheduler)@.remove(post_id),
        !posts@.ready_to_finish_at(post_id as int, now as int) ==> final(scheduler)@
            == old(scheduler)@ && (a matches TickAction::Fetch(v) && v@
            == posts@.posts[posts@.post_index(post_id as int)].vk_id),
{
    if posts.is_ready_to_finish(post_id, now) {
        scheduler.remove_job(post_id);
        TickAction::Terminated
    } else {
        match posts.get_vk_id_by_post_id(post_id) {
            Some(vk_id) => TickAction::Fetch(vk_id),
            None => {
                proof {
                    assert(false);
                }
                TickAction::Terminated
            },
        }
    }
}

/// The second half of one tick: the fetched counters are appended as one
/// sample captured at `now`, each narrowed to the width the stored rows
/// carry.
pub fn poll_tick_finish(infos: &mut PostInfoStore, post_id: i32, stats: &VkPostStats, now: i64)
    requires
        rows_wf(old(infos)@),
        0 <= now <= MAX_TIMESTAMP,
    ensures
        rows_wf(final(infos)@),
        final(infos)@ == old(infos)@.push(
            (PostInfoRecord {
                post_id,
                comments_count: stats.comments_count as i32,
                likes_count: stats.likes_count as i32,
                views_count: stats.views_count as i32,
                reposts_count: stats.reposts_count as i32,
                info_time: now,
            }),
        ),
{
    infos.save_post_info(
        post_id,
        #[verifier::truncate] (stats.likes_count as i32),
        #[verifier::truncate] (stats.comments_count as i32),
        #[verifier::truncate] (stats.reposts_count as i32),
        #[verifier::truncate] (stats.views_count as i32),
        now,
    );
}

/// The ids of the windows that the reconciler must reschedule: open, with
/// no sufficiently recent sample.
pub open spec fn spec_needing_ids(
    posts: Seq<Window>,
    rows: Seq<PostInfoRecord>,
    pooling_delta_seconds: int,
    now: int,
) -> Set<i32> {
    Set::new(
        |id: i32|
            exists|i: int|
                0 <= i < posts.len() && (#[trigger] posts[i]).id == id as int && spec_needs_polling(
                    posts[i],
                    rows,
                    pooling_delta_seconds,
                    now,
                ),
    )
}

/// The startup reconciler: runs once, before requests are served. Scans
/// the persisted windows and registers a job for every window that is
/// still open and lacks a recent sample, restoring the scheduling state
/// lost across a restart. Windows with a still-recent sample are left
/// unscheduled; expired windows are skipped.
pub fn init_all_tasks(
    posts: &PostStore,
    infos: &PostInfoStore,
    scheduler: &mut JobScheduler,
    pooling_delta_seconds: i64,
    now: i64,
)
    requires
        posts@.inv(),
        old(scheduler).inv(),
        0 < pooling_delta_seconds <= MAX_DURATION_SECONDS,
        0 <= now <= MAX_TIMESTAMP,
    ensures
        final(scheduler).inv(),
        final(scheduler)@ == old(scheduler)@.union(
            spec_needing_ids(posts@.posts, infos@, pooling_delta_seconds as int, now as int),
        ),
{
    let ghost pred = |w: Window| spec_needs_polling(
        w,
        infos@,
        pooling_delta_seconds as int,
        now as int,
    );
    let ghost needing = posts@.posts.filter(pred);
    let list = posts.get_posts_needing_polling(infos, pooling_delta_seconds, now);
    let mut k: usize = 0;
    let n = list.len();
    while k < n
        invariant
            scheduler.inv(),
            0 <= k <= n,
            n == list@.len(),
            needing == posts@.posts.filter(pred),
            pred == (|w: Window| spec_needs_polling(
                w,
                infos@,
                pooling_delta_seconds as int,
                now as int,
            )),
            list@.len() == needing.len(),
            forall|j: int|
                0 <= j < list@.len() ==> (#[trigger] list@[j]).0 == needing[j].id,
            forall|id: i32|
                scheduler@.contains(id) <==> old(scheduler)@.contains(id) || exists|j: int|
                    0 <= j < k && (#[trigger] list@[j]).0 == id,
        decreases n - k,
    {
        scheduler.add_job(list[k].0);
        proof {
            assert forall|id: i32| scheduler@.contains(id) implies old(scheduler)@.contains(id)
                || exists|j: int| 0 <= j < k + 1 && (#[trigger] list@[j]).0 == id by {
                if id == list@[k as int].0 {
                    assert(list@[k as int].0 == id);
                }
            }
        }
        k = k + 1;
    }
    proof {
        let needing_ids = spec_needing_ids(
            posts@.posts,
            infos@,
            pooling_delta_seconds as int,
            now as int,
        );
        assert forall|id: i32| scheduler@.contains(id) implies old(scheduler)@.union(
            needing_ids,
        ).contains(id) by {
            if !old(scheduler)@.contains(id) {
                let j = choose|j: int| 0 <= j < list@.len() && (#[trigger] list@[j]).0 == id;
                posts@.posts.lemma_filter_pred(pred, j);
                assert(needing.contains(needing[j]));
                posts@.posts.lemma_filter_contains_rev(pred, needing[j]);
                let i = choose|i: int|
                    0 <= i < posts@.posts.len() && posts@.posts[i] == needing[j];
                assert(posts@.posts[i].id == id as int && spec_needs_polling(
                    posts@.posts[i],
                    infos@,
                    pooling_delta_seconds as int,
                    now as int,
                ));
            }
        }
        assert forall|id: i32| old(scheduler)@.union(needing_ids).contains(id) implies scheduler@
            .contains(id) by {
            if !old(scheduler)@.contains(id) {
                let i = choose|i: int|
                    0 <= i < posts@.posts.len() && (#[trigger] posts@.posts[i]).id == id as int
                        && spec_needs_polling(
                        posts@.posts[i],
                        infos@,
                        pooling_delta_seconds as int,
                        now as int,
                    );
                assert(pred(posts@.posts[i]));
                posts@.posts.lemma_filter_contains(pred, i);
                let j = choose|j: int| 0 <= j < needing.len() && needing[j] == posts@.posts[i];
                assert(list@[j].0 == id);
            }
        }
        assert(scheduler@ =~= old(scheduler)@.union(needing_ids));
    }
}

} // verus!
