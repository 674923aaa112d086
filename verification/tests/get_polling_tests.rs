use post_polling::post_info::PostInfoStore;
use post_polling::posts::PostStore;
use post_polling::service::{build_get_polling_response, get_post_with_data};

const T0: i64 = 1_700_000_000;

#[test]
fn test_get_polling_with_data() {
    let mut posts = PostStore::new();
    let mut infos = PostInfoStore::new();

    // One post whose window runs for an hour, with three samples spread
    // over it.
    let post = posts.get_or_create_post_with_prolong("-123_456", false, 3600, T0);
    let post_id = post.id;

    infos.save_post_info(post_id, 10, 5, 2, 100, T0);
    infos.save_post_info(post_id, 20, 10, 4, 200, T0 + 1800);
    infos.save_post_info(post_id, 30, 15, 6, 300, T0 + 3600);

    let pwd = get_post_with_data(&posts, &infos, post_id).expect("the post exists");
    let response = build_get_polling_response(pwd, T0 + 3700);

    assert_eq!(response.scrapper_id, post_id);
    assert_eq!(response.vk_id, "-123_456");
    assert!(!response.dt_parse_begin.is_empty());
    assert!(!response.dt_parse_end.is_empty());
    assert!(!response.dt_current.is_empty());

    let data = &response.data;
    assert_eq!(data.len(), 3, "Should have 3 post_info entries");

    assert_eq!(data[0].likes_count, 10);
    assert_eq!(data[0].comments_count, 5);
    assert_eq!(data[0].reposts_count, 2);
    assert_eq!(data[0].views_count, 100);

    assert_eq!(data[1].likes_count, 20);
    assert_eq!(data[1].comments_count, 10);
    assert_eq!(data[1].reposts_count, 4);
    assert_eq!(data[1].views_count, 200);

    assert_eq!(data[2].likes_count, 30);
    assert_eq!(data[2].comments_count, 15);
    assert_eq!(data[2].reposts_count, 6);
    assert_eq!(data[2].views_count, 300);
}

#[test]
fn test_get_polling_not_found() {
    let posts = PostStore::new();
    let infos = PostInfoStore::new();

    assert!(get_post_with_data(&posts, &infos, 99999).is_none());
    assert!(get_post_with_data(&posts, &infos, 0).is_none());
}

#[test]
fn test_get_polling_window_with_zero_samples() {
    let mut posts = PostStore::new();
    let infos = PostInfoStore::new();

    let post = posts.get_or_create_post_with_prolong("-5_5", false, 300, T0);
    let pwd = get_post_with_data(&posts, &infos, post.id)
        .expect("a window with zero samples is still found");
    assert_eq!(pwd.data.len(), 0);
    assert_eq!(pwd.vk_id, "-5_5");
}

#[test]
fn test_timestamps_render_as_dates() {
    let mut posts = PostStore::new();
    let infos = PostInfoStore::new();

    let post = posts.get_or_create_post_with_prolong("-7_7", false, 300, T0);
    let pwd = get_post_with_data(&posts, &infos, post.id).expect("the post exists");
    let response = build_get_polling_response(pwd, T0);

    // 1 700 000 000 seconds after the epoch, rendered by the formatter.
    assert_eq!(response.dt_parse_begin, "2023-11-14T22:13:20");
    assert_eq!(response.dt_parse_end, "2023-11-14T22:18:20");
    assert_eq!(response.dt_current, "2023-11-14T22:13:20");
}

#[test]
fn test_samples_listed_in_capture_order_despite_skewed_appends() {
    let mut posts = PostStore::new();
    let mut infos = PostInfoStore::new();

    let post = posts.get_or_create_post_with_prolong("-8_8", false, 600, T0);
    // Appends arrive with skewed clocks; the reader sorts by capture time.
    infos.save_post_info(post.id, 2, 0, 0, 0, T0 + 120);
    infos.save_post_info(post.id, 1, 0, 0, 0, T0 + 60);
    infos.save_post_info(post.id, 3, 0, 0, 0, T0 + 180);

    let pwd = get_post_with_data(&posts, &infos, post.id).expect("the post exists");
    assert_eq!(pwd.data.len(), 3);
    assert_eq!(pwd.data[0].likes_count, 1);
    assert_eq!(pwd.data[1].likes_count, 2);
    assert_eq!(pwd.data[2].likes_count, 3);
    assert!(pwd.data[0].info_time <= pwd.data[1].info_time);
    assert!(pwd.data[1].info_time <= pwd.data[2].info_time);
}
