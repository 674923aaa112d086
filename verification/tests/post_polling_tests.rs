use post_polling::config::Config;
use post_polling::models::VkPostStats;
use post_polling::post_info::PostInfoStore;
use post_polling::posts::PostStore;
use post_polling::scheduler::JobScheduler;
use post_polling::service::{handle_post_polling, parse_vk_link, PollingError};
use post_polling::tasks::{poll_tick_begin, poll_tick_finish, TickAction};

const T0: i64 = 1_700_000_000;

fn test_config() -> Config {
    Config::new(300, 30).expect("test configuration is valid")
}

fn nonzero_stats() -> VkPostStats {
    VkPostStats {
        comments_count: 0,
        likes_count: 0,
        views_count: 1,
        reposts_count: 0,
    }
}

#[test]
fn test_post_polling_post_not_found_in_vk() {
    let mut posts = PostStore::new();
    let infos = PostInfoStore::new();
    let mut scheduler = JobScheduler::new();
    let config = test_config();

    let vk_id = parse_vk_link("https://vk.com/wall-999_999").expect("link carries the prefix");
    assert_eq!(vk_id, "-999_999");

    // The metrics source reports all-zero counters: the post does not exist.
    let stats = VkPostStats {
        comments_count: 0,
        likes_count: 0,
        views_count: 0,
        reposts_count: 0,
    };
    let result = handle_post_polling(
        &mut posts,
        &infos,
        &mut scheduler,
        &vk_id,
        false,
        &stats,
        &config,
        T0,
    );

    match result {
        Err(e) => {
            assert!(matches!(e, PollingError::PostNotFoundInVk));
            assert_eq!(e.message(), "Post not found in VK");
        }
        Ok(_) => panic!("a post unknown to the metrics source must be refused"),
    }
    assert!(!scheduler.contains_job(1));
}

#[test]
fn test_async_task_is_scheduled() {
    let mut posts = PostStore::new();
    let mut infos = PostInfoStore::new();
    let mut scheduler = JobScheduler::new();
    let config = test_config();

    let vk_id = parse_vk_link("https://vk.com/wall-1_1").expect("link carries the prefix");
    let response = handle_post_polling(
        &mut posts,
        &infos,
        &mut scheduler,
        &vk_id,
        false,
        &nonzero_stats(),
        &config,
        T0,
    )
    .expect("POST /polling should succeed");
    let scrapper_id = response.scrapper_id;

    assert!(
        scheduler.contains_job(scrapper_id),
        "a job must be registered for a fresh window"
    );

    // The scheduled job ticks: it fetches and appends one sample.
    match poll_tick_begin(&posts, &mut scheduler, scrapper_id, T0 + 30) {
        TickAction::Fetch(key) => {
            assert_eq!(key, "-1_1");
            poll_tick_finish(&mut infos, scrapper_id, &nonzero_stats(), T0 + 30);
        }
        TickAction::Terminated => panic!("an open window must be fetched"),
    }

    let count = infos.list_post_info(scrapper_id).len();
    assert!(count > 0);
}

#[test]
fn test_async_task_not_scheduled_when_recent_polling_exists() {
    let mut posts = PostStore::new();
    let mut infos = PostInfoStore::new();
    let mut scheduler = JobScheduler::new();
    let config = test_config();

    let vk_id = parse_vk_link("https://vk.com/wall-2_2").expect("link carries the prefix");

    // First request: schedules a job, whose tick appends one sample.
    let response1 = handle_post_polling(
        &mut posts,
        &infos,
        &mut scheduler,
        &vk_id,
        false,
        &nonzero_stats(),
        &config,
        T0,
    )
    .expect("first request should succeed");
    let scrapper_id = response1.scrapper_id;
    assert!(scheduler.contains_job(scrapper_id));

    match poll_tick_begin(&posts, &mut scheduler, scrapper_id, T0 + 3) {
        TickAction::Fetch(_) => poll_tick_finish(&mut infos, scrapper_id, &nonzero_stats(), T0 + 3),
        TickAction::Terminated => panic!("an open window must be fetched"),
    }
    let count_after_first = infos.list_post_info(scrapper_id).len();

    // The job elapses from the registry view of this test: drop it so a
    // second scheduling attempt would be visible.
    scheduler.remove_job(scrapper_id);

    // Second request right after: a recent sample exists, so no new job.
    let response2 = handle_post_polling(
        &mut posts,
        &infos,
        &mut scheduler,
        &vk_id,
        false,
        &nonzero_stats(),
        &config,
        T0 + 4,
    )
    .expect("second request should succeed");
    assert_eq!(response2.scrapper_id, scrapper_id);
    assert!(
        !scheduler.contains_job(scrapper_id),
        "no new job may be scheduled while a recent sample exists"
    );

    let count_after_second = infos.list_post_info(scrapper_id).len();
    assert!(count_after_second <= count_after_first + 1);
}

#[test]
fn test_concurrent_requests_return_same_window() {
    let mut posts = PostStore::new();
    let infos = PostInfoStore::new();
    let mut scheduler = JobScheduler::new();
    let config = test_config();

    // Two racing requests for the same post serialize at the same instant:
    // both observe one window.
    let r1 = handle_post_polling(
        &mut posts,
        &infos,
        &mut scheduler,
        "-1_1",
        false,
        &nonzero_stats(),
        &config,
        T0,
    )
    .expect("first racer succeeds");
    let r2 = handle_post_polling(
        &mut posts,
        &infos,
        &mut scheduler,
        "-1_1",
        true,
        &nonzero_stats(),
        &config,
        T0,
    )
    .expect("second racer succeeds");

    assert_eq!(r1.scrapper_id, r2.scrapper_id);
    assert_eq!(r1.vk_id, "-1_1");
    assert_eq!(r2.vk_id, "-1_1");
}

#[test]
fn test_repeat_without_prolong_keeps_end() {
    let mut posts = PostStore::new();

    let w1 = posts.get_or_create_post_with_prolong("-1_1", false, 300, T0);
    let w2 = posts.get_or_create_post_with_prolong("-1_1", false, 300, T0 + 10);

    assert_eq!(w2.id, w1.id);
    assert_eq!(
        w2.dt_parse_end, w1.dt_parse_end,
        "without prolong, a repeated request must not move the window end"
    );
    assert_eq!(w2.dt_parse_begin, w1.dt_parse_begin);
}

#[test]
fn test_second_prolong_strictly_extends() {
    let mut posts = PostStore::new();

    let w1 = posts.get_or_create_post_with_prolong("-1_1", true, 300, T0);
    assert_eq!(w1.dt_parse_end, T0 + 300);

    let w2 = posts.get_or_create_post_with_prolong("-1_1", true, 300, T0 + 10);
    assert_eq!(w2.id, w1.id);
    assert!(
        w2.dt_parse_end > w1.dt_parse_end,
        "a second prolong strictly later must strictly extend the window"
    );
}

#[test]
fn test_window_period_scenario() {
    // windowPeriod 300 s, interval 30 s: create at t0 ends the window at
    // t0+300; a prolong at t0+10 moves it to t0+310, not t0+300.
    let mut posts = PostStore::new();

    let created = posts.get_or_create_post_with_prolong("-1_1", false, 300, T0);
    assert_eq!(created.dt_parse_begin, T0);
    assert_eq!(created.dt_parse_end, T0 + 300);

    let extended = posts.get_or_create_post_with_prolong("-1_1", true, 300, T0 + 10);
    assert_eq!(extended.dt_parse_begin, T0);
    assert_eq!(extended.dt_parse_end, T0 + 310);

    // After expiry, a new request opens a fresh window under a new id.
    let reopened = posts.get_or_create_post_with_prolong("-1_1", false, 300, T0 + 1000);
    assert_ne!(reopened.id, created.id);
    assert_eq!(reopened.dt_parse_begin, T0 + 1000);
    assert_eq!(reopened.dt_parse_end, T0 + 1300);
}
