use vstd::prelude::*;

verus! {

// ---------------------------------------------------------------------------
// Request and response shapes of the polling service.
// ---------------------------------------------------------------------------

/// An open-or-prolong request: a link to the post, and whether an already
/// open window should be extended.
pub struct PollingRequest {
    pub vk_link: String,
    pub prolong: bool,
}

/// The window returned for an open-or-prolong request. The timestamps are
/// rendered as `%Y-%m-%dT%H:%M:%S`.
pub struct PollingResponse {
    pub scrapper_id: i32,
    pub vk_id: String,
    pub dt_parse_begin: String,
    pub dt_parse_end: String,
}

/// One sample in a read response, timestamps rendered as above.
pub struct PostInfoDataResponse {
    pub comments_count: i32,
    pub likes_count: i32,
    pub views_count: i32,
    pub reposts_count: i32,
    pub info_time: String,
}

/// A read of one window and all its samples, ascending by capture time.
pub struct GetPollingResponse {
    pub scrapper_id: i32,
    pub vk_id: String,
    pub dt_parse_begin: String,
    pub dt_parse_end: String,
    pub dt_current: String,
    pub data: Vec<PostInfoDataResponse>,
}

/// One snapshot of the counters the metrics source reports for a post.
/// The counters are non-negative by construction.
#[derive(Clone, Copy, PartialEq, Eq, Structural, Debug)]
pub struct VkPostStats {
    pub comments_count: u64,
    pub likes_count: u64,
    pub views_count: u64,
    pub reposts_count: u64,
}

impl VkPostStats {
    /// All four counters are zero. The metrics source reports this shape for
    /// a post it cannot find, so a caller deciding whether to open a window
    /// treats it as "post not found"; once a window is already polling, an
    /// all-zero snapshot is a valid observation and is stored unchanged.
    pub open spec fn is_empty(self) -> bool {
        self.likes_count == 0 && self.comments_count == 0 && self.reposts_count == 0
            && self.views_count == 0
    }
}

// ---------------------------------------------------------------------------
// Persisted rows, and their mathematical views.
// ---------------------------------------------------------------------------

/// Mathematical view of one persisted post window: the observation period
/// `[dt_parse_begin, dt_parse_end]` for the post `vk_id`. All timestamps in
/// this crate are non-leap seconds since the Unix epoch.
#[verifier::ext_equal]
pub ghost struct Window {
    pub id: int,
    pub vk_id: Seq<char>,
    pub dt_parse_begin: int,
    pub dt_parse_end: int,
}

impl Window {
    /// The window contains the instant `now`: it is open.
    pub open spec fn open_at(self, now: int) -> bool {
        self.dt_parse_begin <= now <= self.dt_parse_end
    }

    /// The window has elapsed at `now`.
    pub open spec fn expired_at(self, now: int) -> bool {
        now > self.dt_parse_end
    }
}

/// One persisted post window, as stored and as returned to callers.
pub struct PostDetails {
    pub id: i32,
    pub vk_id: String,
    pub dt_parse_begin: i64,
    pub dt_parse_end: i64,
}

impl View for PostDetails {
    type V = Window;

    open spec fn view(&self) -> Window {
        Window {
            id: self.id as int,
            vk_id: self.vk_id@,
            dt_parse_begin: self.dt_parse_begin as int,
            dt_parse_end: self.dt_parse_end as int,
        }
    }
}

/// One stored sample of a post's counters, without its owning post id:
/// the shape in which samples are listed per window.
#[derive(Clone, Copy, PartialEq, Eq, Structural, Debug)]
pub struct PostInfoData {
    pub comments_count: i32,
    pub likes_count: i32,
    pub views_count: i32,
    pub reposts_count: i32,
    pub info_time: i64,
}

/// A post window together with all its samples, ascending by `info_time`.
pub struct PostWithData {
    pub id: i32,
    pub vk_id: String,
    pub dt_parse_begin: i64,
    pub dt_parse_end: i64,
    pub data: Vec<PostInfoData>,
}

} // verus!
