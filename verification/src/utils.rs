use vstd::prelude::*;
use crate::models::VkPostStats;

verus! {

/// True exactly when every counter of the snapshot is zero.
pub fn is_post_stats_empty(stats: &VkPostStats) -> (r: bool)
    ensures
        r == stats.is_empty(),
{
    stats.likes_count == 0 && stats.comments_count == 0 && stats.reposts_count == 0
        && stats.views_count == 0
}

/// Character-wise string equality.
pub fn str_eq(a: &str, b: &str) -> (r: bool)
    ensures
        r == (a@ == b@),
{
    let a_len = a.unicode_len();
    let b_len = b.unicode_len();
    if a_len != b_len {
        return false;
    }
    let mut i: usize = 0;
    while i < a_len
        invariant
            0 <= i <= a_len,
            a_len == a@.len(),
            a_len == b@.len(),
            forall|k: int| 0 <= k < i ==> a@[k] == b@[k],
        decreases a_len - i,
    {
        if a.get_char(i) != b.get_char(i) {
            return false;
        }
        i = i + 1;
    }
    proof {
        assert(a@ =~= b@);
    }
    true
}

} // verus!
