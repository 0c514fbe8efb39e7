use vstd::prelude::*;

verus! {

/// How many comments a user reads: one more than the sampled extra reads,
/// so that every user reads at least the top comment, but never more than
/// the list holds (the length taken as a `u16`, as the count is one).
pub open spec fn comments_to_view(sampled_extra_views: u16, list_len: usize) -> u16 {
    let wanted = sampled_extra_views + 1;
    if wanted > (list_len as u16) {
        list_len as u16
    } else {
        wanted as u16
    }
}

/// The number of comments, from the top of the list, that one user reads and
/// scores, given the number of extra comments sampled for that user.
pub fn number_of_comments_to_view(sampled_extra_views: u16, list_len: usize) -> (views: u16)
    requires
        sampled_extra_views < u16::MAX,
    ensures
        views == comments_to_view(sampled_extra_views, list_len),
        views <= list_len,
        views <= sampled_extra_views + 1,
{
    let mut views: u16 = sampled_extra_views + 1;
    let len_as_count: u16 = list_len as u16;
    assert(len_as_count <= list_len) by (bit_vector)
        requires
            len_as_count == list_len as u16,
    ;
    if views > len_as_count {
        views = len_as_count;
    }
    views
}

/// Every user reads at least the top comment of a non-empty list, and no
/// more comments than the list holds.
pub proof fn lemma_every_user_reads_the_top_comment(sampled_extra_views: u16, list_len: usize)
    requires
        sampled_extra_views < u16::MAX,
        1 <= list_len <= u16::MAX,
    ensures
        1 <= comments_to_view(sampled_extra_views, list_len) <= list_len,
{
    assert(list_len as u16 == list_len) by (bit_vector)
        requires
            list_len <= 0xffffusize,
    ;
}

} // verus!
