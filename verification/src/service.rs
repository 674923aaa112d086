use vstd::prelude::*;
use crate::config::{Config, MAX_DURATION_SECONDS, MAX_TIMESTAMP};
use crate::gate::{should_schedule, spec_should_schedule};
use crate::models::{
    GetPollingResponse, PollingResponse, PostInfoDataResponse, PostWithData, VkPostStats,
};
use crate::post_info::{post_data_of, rows_wf, sorted_by_info_time, PostInfoStore};
use crate::posts::{lemma_get_or_create_preserves_inv, PostStore};
use crate::scheduler::JobScheduler;
use crate::timefmt::{format_timestamp, ts_display};
use crate::utils::is_post_stats_empty;

verus! {

/// The fixed prefix a submitted post link must carry; the post key is
/// everything after it.
pub open spec fn vk_link_prefix() -> Seq<char> {
    "https://vk.com/wall"@
}

/// Extracts the post key from a submitted link: everything after the
/// prefix `https://vk.com/wall`. A link without that prefix is rejected.
pub fn parse_vk_link(vk_link: &str) -> (r: Option<String>)
    ensures
        match r {
            Some(v) => vk_link@.len() >= vk_link_prefix().len() && vk_link@.take(
                vk_link_prefix().len() as int,
            ) == vk_link_prefix() && v@ == vk_link@.skip(vk_link_prefix().len() as int),
            None => !(vk_link@.len() >= vk_link_prefix().len() && vk_link@.take(
                vk_link_prefix().len() as int,
            ) == vk_link_prefix()),
        },
{
    let prefix = "https://vk.com/wall";
    let p_len = prefix.unicode_len();
    let n = vk_link.unicode_len();
    if n < p_len {
        return None;
    }
    let mut i: usize = 0;
    while i < p_len
        invariant
            0 <= i <= p_len,
            p_len == vk_link_prefix().len(),
            prefix@ == vk_link_prefix(),
            n == vk_link@.len(),
            n >= p_len,
            forall|k: int| 0 <= k < i ==> vk_link@[k] == vk_link_prefix()[k],
        decreases p_len - i,
    {
        if vk_link.get_char(i) != prefix.get_char(i) {
            proof {
                assert(vk_link@.take(vk_link_prefix().len() as int)[i as int] != vk_link_prefix()[i as int]);
            }
            return None;
        }
        i = i + 1;
    }
    proof {
        assert(vk_link@.take(vk_link_prefix().len() as int) =~= vk_link_prefix());
    }
    let suffix = vk_link.substring_char(p_len, n);
    proof {
        assert(suffix@ =~= vk_link@.skip(vk_link_prefix().len() as int));
    }
    Some(suffix.to_owned())
}

/// Why an open-or-prolong request was refused by the core.
#[derive(Clone, Copy, PartialEq, Eq, Structural, Debug)]
pub enum PollingError {
    /// The metrics source reported all-zero counters for the key: the post
    /// does not exist, so no window is opened.
    PostNotFoundInVk,
}

impl PollingError {
    /// The request-level message for this refusal.
    pub fn message(&self) -> (r: String)
        ensures
            r@ == "Post not found in VK"@,
    {
        "Post not found in VK".to_owned()
    }
}

/// The open-or-prolong request core, run after the metrics source has been
/// asked about `vk_id`: refuses a post the source does not know; otherwise
/// runs the create-or-prolong protocol at `now`, asks the dedup gate
/// whether a fresh recurring job is needed, registers one if so, and
/// reports the resulting window.
pub fn handle_post_polling(
    posts: &mut PostStore,
    infos: &PostInfoStore,
    scheduler: &mut JobScheduler,
    vk_id: &str,
    prolong: bool,
    stats: &VkPostStats,
    config: &Config,
    now: i64,
) -> (r: Result<PollingResponse, PollingError>)
    requires
        old(posts)@.inv(),
        old(scheduler).inv(),
        config.wf(),
        old(posts)@.clock <= now <= MAX_TIMESTAMP,
        old(posts)@.next_id < i32::MAX,
    ensures
        final(posts)@.inv(),
        final(scheduler).inv(),
        stats.is_empty() ==> r == Err::<PollingResponse, PollingError>(
            PollingError::PostNotFoundInVk,
        ) && final(posts)@ == old(posts)@ && final(scheduler)@ == old(scheduler)@,
        !stats.is_empty() ==> final(posts)@ == old(posts)@.get_or_create_spec(
            vk_id@,
            prolong,
            config.pooling_period_seconds as int,
            now as int,
        ).0,
        !stats.is_empty() ==> final(scheduler)@ == (if spec_should_schedule(
            infos@,
            old(posts)@.get_or_create_spec(
                vk_id@,
                prolong,
                config.pooling_period_seconds as int,
                now as int,
            ).1.id,
            config.pooling_delta_seconds as int,
            now as int,
        ) {
            old(scheduler)@.insert(
                old(posts)@.get_or_create_spec(
                    vk_id@,
                    prolong,
                    config.pooling_period_seconds as int,
                    now as int,
                ).1.id as i32,
            )
        } else {
            old(scheduler)@
        }),
        !stats.is_empty() ==> (r matches Ok(resp) && resp.scrapper_id as int == old(
            posts,
        )@.get_or_create_spec(
            vk_id@,
            prolong,
            config.pooling_period_seconds as int,
            now as int,
        ).1.id && resp.vk_id@ == vk_id@ && resp.dt_parse_begin@ == ts_display(
            old(posts)@.get_or_create_spec(
                vk_id@,
                prolong,
                config.pooling_period_seconds as int,
                now as int,
            ).1.dt_parse_begin,
        ) && resp.dt_parse_end@ == ts_display(
            old(posts)@.get_or_create_spec(
                vk_id@,
                prolong,
                config.pooling_period_seconds as int,
                now as int,
            ).1.dt_parse_end,
        )),
{
    if is_post_stats_empty(stats) {
        return Err(PollingError::PostNotFoundInVk);
    }
    proof {
        lemma_get_or_create_preserves_inv(
            old(posts)@,
            vk_id@,
            prolong,
            config.pooling_period_seconds as int,
            now as int,
        );
    }
    let post = posts.get_or_create_post_with_prolong(
        vk_id,
        prolong,
        config.pooling_period_seconds,
        now,
    );
    if should_schedule(infos, post.id, config.pooling_delta_seconds, now) {
        scheduler.add_job(post.id);
    }
    Ok(
        PollingResponse {
            scrapper_id: post.id,
            vk_id: post.vk_id,
            dt_parse_begin: format_timestamp(post.dt_parse_begin),
            dt_parse_end: format_timestamp(post.dt_parse_end),
        },
    )
}

/// One window and all its samples, ascending by capture time — `None`
/// exactly when no window has id `scrapper_id`, which a reader reports
/// differently from a window with zero samples.
pub fn get_post_with_data(
    posts: &PostStore,
    infos: &PostInfoStore,
    scrapper_id: i32,
) -> (r: Option<PostWithData>)
    requires
        posts@.inv(),
        rows_wf(infos@),
    ensures
        match r {
            Some(pwd) => posts@.has_post(scrapper_id as int) && pwd.id == scrapper_id
                && pwd.vk_id@ == posts@.posts[posts@.post_index(scrapper_id as int)].vk_id
                && pwd.dt_parse_begin == posts@.posts[posts@.post_index(
                scrapper_id as int,
            )].dt_parse_begin && pwd.dt_parse_end == posts@.posts[posts@.post_index(
                scrapper_id as int,
            )].dt_parse_end && sorted_by_info_time(pwd.data@) && pwd.data@.to_multiset()
                == post_data_of(infos@, scrapper_id as int).to_multiset() && (forall|k: int|
                0 <= k < pwd.data@.len() ==> 0 <= (#[trigger] pwd.data@[k]).info_time
                    <= MAX_TIMESTAMP) && 0 <= pwd.dt_parse_begin && pwd.dt_parse_end
                <= MAX_TIMESTAMP + MAX_DURATION_SECONDS,
            None => !posts@.has_post(scrapper_id as int),
        },
{
    match posts.find_post(scrapper_id) {
        Some(post) => {
            let data = infos.list_post_info(scrapper_id);
            Some(
                PostWithData {
                    id: post.id,
                    vk_id: post.vk_id,
                    dt_parse_begin: post.dt_parse_begin,
                    dt_parse_end: post.dt_parse_end,
                    data,
                },
            )
        },
        None => None,
    }
}

/// Whether one rendered sample reports exactly the stored sample `d`.
pub open spec fn data_response_matches(
    rd: PostInfoDataResponse,
    d: crate::models::PostInfoData,
) -> bool {
    &&& rd.comments_count == d.comments_count
    &&& rd.likes_count == d.likes_count
    &&& rd.views_count == d.views_count
    &&& rd.reposts_count == d.reposts_count
    &&& rd.info_time@ == ts_display(d.info_time as int)
}

/// Renders one window and its samples for a reader, stamping the current
/// instant alongside.
pub fn build_get_polling_response(pwd: PostWithData, now: i64) -> (r: GetPollingResponse)
    requires
        0 <= now <= MAX_TIMESTAMP,
        0 <= pwd.dt_parse_begin <= MAX_TIMESTAMP + MAX_DURATION_SECONDS,
        0 <= pwd.dt_parse_end <= MAX_TIMESTAMP + MAX_DURATION_SECONDS,
        forall|k: int|
            0 <= k < pwd.data@.len() ==> 0 <= (#[trigger] pwd.data@[k]).info_time <= MAX_TIMESTAMP,
    ensures
        r.scrapper_id == pwd.id,
        r.vk_id@ == pwd.vk_id@,
        r.dt_parse_begin@ == ts_display(pwd.dt_parse_begin as int),
        r.dt_parse_end@ == ts_display(pwd.dt_parse_end as int),
        r.dt_current@ == ts_display(now as int),
        r.data@.len() == pwd.data@.len(),
        forall|k: int|
            0 <= k < r.data@.len() ==> data_response_matches(#[trigger] r.data@[k], pwd.data@[k]),
{
    let mut data: Vec<PostInfoDataResponse> = Vec::new();
    let mut i: usize = 0;
    let n = pwd.data.len();
    while i < n
        invariant
            0 <= i <= n,
            n == pwd.data@.len(),
            data@.len() == i,
            forall|k: int|
                0 <= k < pwd.data@.len() ==> 0 <= (#[trigger] pwd.data@[k]).info_time
                    <= MAX_TIMESTAMP,
            forall|k: int|
                0 <= k < i ==> data_response_matches(#[trigger] data@[k], pwd.data@[k]),
        decreases n - i,
    {
        let d = pwd.data[i];
        data.push(
            PostInfoDataResponse {
                comments_count: d.comments_count,
                likes_count: d.likes_count,
                views_count: d.views_count,
                reposts_count: d.reposts_count,
                info_time: format_timestamp(d.info_time),
            },
        );
        i = i + 1;
    }
    GetPollingResponse {
        scrapper_id: pwd.id,
        vk_id: pwd.vk_id,
        dt_parse_begin: format_timestamp(pwd.dt_parse_begin),
        dt_parse_end: format_timestamp(pwd.dt_parse_end),
        dt_current: format_timestamp(now),
        data,
    }
}

} // verus!
