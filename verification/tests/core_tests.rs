use post_polling::config::{Config, ConfigError, MAX_DURATION_SECONDS};
use post_polling::gate::should_schedule;
use post_polling::models::VkPostStats;
use post_polling::post_info::PostInfoStore;
use post_polling::service::parse_vk_link;
use post_polling::utils::is_post_stats_empty;

const T0: i64 = 1_700_000_000;

#[test]
fn test_config_accepts_valid_values() {
    let config = Config::new(300, 30).expect("positive period and interval are valid");
    assert_eq!(config.pooling_period_seconds, 300);
    assert_eq!(config.pooling_delta_seconds, 30);
}

#[test]
fn test_config_rejects_invalid_period() {
    assert_eq!(Config::new(0, 30), Err(ConfigError::InvalidPeriod));
    assert_eq!(Config::new(-5, 30), Err(ConfigError::InvalidPeriod));
    assert_eq!(
        Config::new(MAX_DURATION_SECONDS + 1, 30),
        Err(ConfigError::InvalidPeriod)
    );
}

#[test]
fn test_config_rejects_invalid_delta() {
    assert_eq!(Config::new(300, 0), Err(ConfigError::InvalidDelta));
    assert_eq!(Config::new(300, -1), Err(ConfigError::InvalidDelta));
    assert_eq!(
        Config::new(300, MAX_DURATION_SECONDS + 1),
        Err(ConfigError::InvalidDelta)
    );
}

#[test]
fn test_parse_vk_link_accepts_wall_links() {
    assert_eq!(
        parse_vk_link("https://vk.com/wall-1_1").as_deref(),
        Some("-1_1")
    );
    assert_eq!(parse_vk_link("https://vk.com/wall").as_deref(), Some(""));
}

#[test]
fn test_parse_vk_link_rejects_other_links() {
    assert!(parse_vk_link("https://invalid.com/post123").is_none());
    assert!(parse_vk_link("https://vk.com/post123").is_none());
    assert!(parse_vk_link("").is_none());
}

#[test]
fn test_is_post_stats_empty() {
    let empty = VkPostStats {
        comments_count: 0,
        likes_count: 0,
        views_count: 0,
        reposts_count: 0,
    };
    assert!(is_post_stats_empty(&empty));

    let seen = VkPostStats {
        comments_count: 0,
        likes_count: 0,
        views_count: 1,
        reposts_count: 0,
    };
    assert!(!is_post_stats_empty(&seen));
}

#[test]
fn test_dedup_gate_recency() {
    let mut infos = PostInfoStore::new();
    let delta: i64 = 30;
    let post_id = 1;

    // Nothing sampled yet: a job is needed.
    assert!(should_schedule(&infos, post_id, delta, T0));

    // No new job is wanted right after an append.
    infos.save_post_info(post_id, 1, 1, 1, 1, T0);
    assert!(!should_schedule(&infos, post_id, delta, T0));

    // Still inside the 2x interval: not needed.
    assert!(!should_schedule(&infos, post_id, delta, T0 + 2 * delta - 1));

    // Once time advances past 2x the interval with no further append —
    // the sample's age reaches the cutoff, which counts exclusively —
    // a job is needed again.
    assert!(should_schedule(&infos, post_id, delta, T0 + 2 * delta));
    assert!(should_schedule(&infos, post_id, delta, T0 + 2 * delta + 1));

    // Samples of another window do not count.
    assert!(should_schedule(&infos, 2, delta, T0));
}
