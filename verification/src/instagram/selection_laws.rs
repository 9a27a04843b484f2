//! What holds of the posts that are found new, unsent or newest, told by their IDs and times.
use vstd::prelude::*;

use super::media::{Media, MediaView};
use crate::clock::Instant;

verus! {

/// `a` lies before `b`: by the second, then by the nanosecond.
pub open spec fn earlier(a: Instant, b: Instant) -> bool {
    a.secs < b.secs || (a.secs == b.secs && a.nanos < b.nanos)
}

/// How often `post` stands in a list.
pub open spec fn times_in(posts: Seq<MediaView>, post: MediaView) -> nat
    decreases posts.len(),
{
    if posts.len() == 0 {
        0
    } else if posts.last() == post {
        times_in(posts.drop_last(), post) + 1
    } else {
        times_in(posts.drop_last(), post)
    }
}

proof fn lemma_times_in(posts: Seq<MediaView>, post: MediaView)
    ensures
        times_in(posts, post) == posts.to_multiset().count(post),
    decreases posts.len(),
{
    broadcast use vstd::seq_lib::group_to_multiset_ensures;

    if posts.len() > 0 {
        lemma_times_in(posts.drop_last(), post);
        assert(posts.drop_last().push(posts.last()) == posts);
    }
}

proof fn lemma_times_in_filter(
    posts: Seq<MediaView>,
    keep: spec_fn(MediaView) -> bool,
    post: MediaView,
)
    ensures
        times_in(posts.filter(keep), post) == (if keep(post) {
            times_in(posts, post)
        } else {
            0
        }),
    decreases posts.len(),
{
    reveal(Seq::filter);
    if posts.len() > 0 {
        let front = posts.drop_last();
        lemma_times_in_filter(front, keep, post);
        if keep(posts.last()) {
            assert(front.filter(keep).push(posts.last()).drop_last() == front.filter(keep));
        }
    }
}

/// A post with an ID other than the cursor's and a time later than the cursor's is selected,
/// as often as it is listed, and is still to be sent: whatever its kind, its addresses, its
/// caption, its author and its children are.
pub proof fn law_every_later_post_is_selected(
    media: Seq<MediaView>,
    cursor_ts: Seq<char>,
    cursor_id: Option<Seq<char>>,
    cursor: Instant,
    post: MediaView,
    at: Instant,
)
    requires
        crate::clock::instant_of(cursor_ts) == Some(cursor),
        media.contains(post),
        post.id.len() > 0,
        crate::clock::instant_of(post.timestamp) == Some(at),
        earlier(cursor, at),
        cursor_id != Some(post.id),
    ensures
        super::select::new_posts(media, Some(cursor_ts), cursor_id).contains(post),
        times_in(super::select::new_posts(media, Some(cursor_ts), cursor_id), post) == times_in(
            media,
            post,
        ),
        super::unsent::unsent(media, Some(cursor_ts), cursor_id).contains(post),
{
    let keep = super::select::is_fresh(cursor, cursor_id);
    super::select::law_selects_exactly_the_fresh_posts(
        media,
        Some(cursor_ts),
        cursor_id,
        cursor,
        post,
    );
    assert(super::select::fresh(post, cursor, cursor_id));
    super::unsent::law_every_new_post_is_unsent(media, Some(cursor_ts), cursor_id, post);
    lemma_times_in(super::select::new_posts(media, Some(cursor_ts), cursor_id), post);
    lemma_times_in(media.filter(keep), post);
    lemma_times_in_filter(media, keep, post);
}

/// The post has an ID other than the cursor's and a time later than the cursor's.
pub open spec fn is_later(
    post: MediaView,
    cursor_ts: Option<Seq<char>>,
    cursor_id: Option<Seq<char>>,
) -> bool {
    &&& post.id.len() > 0
    &&& cursor_id != Some(post.id)
    &&& cursor_ts is Some
    &&& crate::clock::instant_of(cursor_ts->0) is Some
    &&& crate::clock::instant_of(post.timestamp) is Some
    &&& earlier(
        crate::clock::instant_of(cursor_ts->0)->0,
        crate::clock::instant_of(post.timestamp)->0,
    )
}

pub(crate) proof fn lemma_later_posts(
    media: Seq<Media>,
    cursor_ts: Option<Seq<char>>,
    cursor_id: Option<Seq<char>>,
)
    ensures
        forall|k: int|
            0 <= k < media.len() && #[trigger] is_later(media[k]@, cursor_ts, cursor_id) ==> {
                let views = super::media::media_views(media);
                &&& super::select::new_posts(views, cursor_ts, cursor_id).contains(media[k]@)
                &&& super::unsent::unsent(views, cursor_ts, cursor_id).contains(media[k]@)
            },
{
    let views = super::media::media_views(media);
    assert forall|k: int|
        0 <= k < media.len() && #[trigger] is_later(media[k]@, cursor_ts, cursor_id) implies {
        &&& super::select::new_posts(views, cursor_ts, cursor_id).contains(media[k]@)
        &&& super::unsent::unsent(views, cursor_ts, cursor_id).contains(media[k]@)
    } by {
        assert(views[k] == media[k]@);
        law_every_later_post_is_selected(
            views,
            cursor_ts->0,
            cursor_id,
            crate::clock::instant_of(cursor_ts->0)->0,
            media[k]@,
            crate::clock::instant_of(media[k]@.timestamp)->0,
        );
    }
}

/// Nothing but such posts is selected.
pub proof fn law_only_later_posts_are_selected(
    media: Seq<MediaView>,
    cursor_ts: Option<Seq<char>>,
    cursor_id: Option<Seq<char>>,
    k: int,
)
    requires
        0 <= k < super::select::new_posts(media, cursor_ts, cursor_id).len(),
    ensures
        ({
            let post = super::select::new_posts(media, cursor_ts, cursor_id)[k];
            &&& media.contains(post)
            &&& post.id.len() > 0
            &&& cursor_id != Some(post.id)
            &&& cursor_ts is Some
            &&& crate::clock::instant_of(cursor_ts->0) is Some
            &&& crate::clock::instant_of(post.timestamp) is Some
            &&& earlier(
                crate::clock::instant_of(cursor_ts->0)->0,
                crate::clock::instant_of(post.timestamp)->0,
            )
        }),
{
    let posts = super::select::new_posts(media, cursor_ts, cursor_id);
    let cursor = super::select::cursor_instant(cursor_ts)->0;
    super::select::law_selects_exactly_the_fresh_posts(
        media,
        cursor_ts,
        cursor_id,
        cursor,
        posts[k],
    );
    assert(posts.contains(posts[k]));
}

/// Of two selected posts the one that stands behind is not earlier than the other.
pub proof fn law_selected_posts_stand_by_time(
    media: Seq<MediaView>,
    cursor_ts: Option<Seq<char>>,
    cursor_id: Option<Seq<char>>,
    i: int,
    j: int,
)
    requires
        0 <= i < j < super::select::new_posts(media, cursor_ts, cursor_id).len(),
    ensures
        ({
            let posts = super::select::new_posts(media, cursor_ts, cursor_id);
            let one = crate::clock::instant_of(posts[i].timestamp);
            let two = crate::clock::instant_of(posts[j].timestamp);
            one is Some && two is Some && !earlier(two->0, one->0)
        }),
{
    law_only_later_posts_are_selected(media, cursor_ts, cursor_id, i);
    law_only_later_posts_are_selected(media, cursor_ts, cursor_id, j);
    super::select::law_selection_is_oldest_first(media, cursor_ts, cursor_id);
}

/// The two posts stand in the list in this order.
pub open spec fn stand_in_order(list: Seq<MediaView>, one: MediaView, two: MediaView) -> bool {
    exists|m: int, n: int|
        0 <= m < n < list.len() && #[trigger] list[m] == one && #[trigger] list[n] == two
}

proof fn lemma_order_in_filter(
    posts: Seq<MediaView>,
    keep: spec_fn(MediaView) -> bool,
    i: int,
    j: int,
)
    requires
        0 <= i < j < posts.len(),
        keep(posts[i]),
        keep(posts[j]),
    ensures
        stand_in_order(posts.filter(keep), posts[i], posts[j]),
    decreases posts.len(),
{
    reveal(Seq::filter);
    let front = posts.drop_last();
    let kept = front.filter(keep);
    let all = posts.filter(keep);
    if j == posts.len() - 1 {
        super::select::lemma_filter_contains(front, keep, posts[i]);
        assert(front[i] == posts[i]);
        let a = choose|a: int| 0 <= a < kept.len() && kept[a] == posts[i];
        assert(all[a] == posts[i]);
        assert(all[kept.len() as int] == posts[j]);
    } else {
        lemma_order_in_filter(front, keep, i, j);
        let (a, b) = choose|a: int, b: int|
            0 <= a < b < kept.len() && #[trigger] kept[a] == front[i] && #[trigger] kept[b]
                == front[j];
        assert(all[a] == posts[i]);
        assert(all[b] == posts[j]);
    }
}

proof fn lemma_order_from_filter(
    posts: Seq<MediaView>,
    keep: spec_fn(MediaView) -> bool,
    one: MediaView,
    two: MediaView,
)
    requires
        stand_in_order(posts.filter(keep), one, two),
    ensures
        stand_in_order(posts, one, two),
{
    let kept = posts.filter(keep);
    let (a, b) = choose|a: int, b: int|
        0 <= a < b < kept.len() && #[trigger] kept[a] == one && #[trigger] kept[b] == two;
    let m = super::unsent::lemma_filter_at(posts, keep, a);
    let left = posts.skip(m + 1);
    assert(left.filter(keep)[b - a - 1] == kept[b]);
    let n = super::unsent::lemma_filter_at(left, keep, b - a - 1);
    assert(posts[m] == one);
    assert(posts[m + 1 + n] == two);
}

proof fn lemma_same_time_order(posts: Seq<MediaView>, one: MediaView, two: MediaView)
    requires
        super::select::post_time(one) == super::select::post_time(two),
    ensures
        stand_in_order(super::select::by_time(posts), one, two) <==> stand_in_order(
            posts,
            one,
            two,
        ),
{
    let at = super::select::post_time(one);
    let keep = super::select::posted_at(at);
    super::select::lemma_by_time_filter(posts, keep);
    super::select::lemma_same_time_unsorted(posts, at);
    let sorted = super::select::by_time(posts);
    if stand_in_order(sorted, one, two) {
        let (i, j) = choose|i: int, j: int|
            0 <= i < j < sorted.len() && #[trigger] sorted[i] == one && #[trigger] sorted[j] == two;
        lemma_order_in_filter(sorted, keep, i, j);
        lemma_order_from_filter(posts, keep, one, two);
    }
    if stand_in_order(posts, one, two) {
        let (i, j) = choose|i: int, j: int|
            0 <= i < j < posts.len() && #[trigger] posts[i] == one && #[trigger] posts[j] == two;
        lemma_order_in_filter(posts, keep, i, j);
        lemma_order_from_filter(sorted, keep, one, two);
    }
}

/// Selected posts of one time keep the order in which they are listed.
pub proof fn law_selected_posts_of_one_time_keep_their_order(
    media: Seq<MediaView>,
    cursor_ts: Option<Seq<char>>,
    cursor_id: Option<Seq<char>>,
    i: int,
    j: int,
)
    requires
        0 <= i < j < super::select::new_posts(media, cursor_ts, cursor_id).len(),
        crate::clock::instant_of(
            super::select::new_posts(media, cursor_ts, cursor_id)[i].timestamp,
        ) == crate::clock::instant_of(
            super::select::new_posts(media, cursor_ts, cursor_id)[j].timestamp,
        ),
    ensures
        stand_in_order(
            media,
            super::select::new_posts(media, cursor_ts, cursor_id)[i],
            super::select::new_posts(media, cursor_ts, cursor_id)[j],
        ),
{
    let posts = super::select::new_posts(media, cursor_ts, cursor_id);
    let keep = super::select::is_fresh(super::select::cursor_instant(cursor_ts)->0, cursor_id);
    lemma_same_time_order(media.filter(keep), posts[i], posts[j]);
    lemma_order_from_filter(media, keep, posts[i], posts[j]);
}

/// The post has an ID and its time can be read as `at`.
pub open spec fn stands_at_time(post: MediaView, at: Instant) -> bool {
    post.id.len() > 0 && crate::clock::instant_of(post.timestamp) == Some(at)
}

/// Whatever is still to be sent is listed, has an ID other than the cursor's, and is not
/// earlier than the cursor; and nothing is without a cursor that can be read.
pub proof fn law_only_later_posts_are_unsent(
    media: Seq<MediaView>,
    cursor_ts: Option<Seq<char>>,
    cursor_id: Option<Seq<char>>,
    k: int,
)
    requires
        0 <= k < super::unsent::unsent(media, cursor_ts, cursor_id).len(),
    ensures
        ({
            let post = super::unsent::unsent(media, cursor_ts, cursor_id)[k];
            &&& media.contains(post)
            &&& post.id.len() > 0
            &&& cursor_id != Some(post.id)
            &&& cursor_ts is Some
            &&& crate::clock::instant_of(cursor_ts->0) is Some
            &&& crate::clock::instant_of(post.timestamp) is Some
            &&& !earlier(
                crate::clock::instant_of(post.timestamp)->0,
                crate::clock::instant_of(cursor_ts->0)->0,
            )
        }),
{
    let at = super::select::cursor_instant(cursor_ts)->0;
    super::unsent::law_unsent_posts_stand_behind(media, cursor_ts, cursor_id, at, k, k + 1);
}

/// Of two posts that are still to be sent the one that stands behind is not earlier than the
/// other.
pub proof fn law_unsent_posts_stand_by_time(
    media: Seq<MediaView>,
    cursor_ts: Option<Seq<char>>,
    cursor_id: Option<Seq<char>>,
    i: int,
    j: int,
)
    requires
        0 <= i < j < super::unsent::unsent(media, cursor_ts, cursor_id).len(),
    ensures
        ({
            let posts = super::unsent::unsent(media, cursor_ts, cursor_id);
            let one = crate::clock::instant_of(posts[i].timestamp);
            let two = crate::clock::instant_of(posts[j].timestamp);
            one is Some && two is Some && !earlier(two->0, one->0)
        }),
{
    let at = super::select::cursor_instant(cursor_ts)->0;
    law_only_later_posts_are_unsent(media, cursor_ts, cursor_id, i);
    law_only_later_posts_are_unsent(media, cursor_ts, cursor_id, j);
    super::unsent::law_unsent_posts_stand_behind(media, cursor_ts, cursor_id, at, i, j);
}

/// No two listed posts bear the same ID.
pub open spec fn no_id_twice(media: Seq<MediaView>) -> bool {
    forall|i: int, j: int|
        0 <= i < j < media.len() ==> (#[trigger] media[i]).id != (#[trigger] media[j]).id
}

/// A post of the cursor's own time is still to be sent exactly where it is listed behind the
/// post that the cursor stands on.
pub proof fn law_post_of_the_cursor_time(
    media: Seq<MediaView>,
    cursor_ts: Seq<char>,
    at: Instant,
    m: int,
    n: int,
)
    requires
        no_id_twice(media),
        0 <= m < media.len(),
        0 <= n < media.len(),
        m != n,
        crate::clock::instant_of(cursor_ts) == Some(at),
        stands_at_time(media[m], at),
        stands_at_time(media[n], at),
    ensures
        super::unsent::unsent(media, Some(cursor_ts), Some(media[m].id)).contains(media[n])
            <==> m < n,
{
    let id = Some(media[m].id);
    let all = super::unsent::dated(media);
    let kept = media.filter(super::unsent::is_datable());
    let posts = super::unsent::unsent(media, Some(cursor_ts), id);
    super::unsent::lemma_dated(media);
    super::unsent::lemma_place(all, id, at);
    super::unsent::lemma_dated_contains(media, media[m]);
    assert(media.contains(media[m]));
    let here = choose|here: int| 0 <= here < all.len() && all[here] == media[m];
    assert(super::unsent::is_cursor_post(all[here], id, at));
    let place = super::unsent::cursor_place(all, id, at)->0;
    let back = choose|back: int| 0 <= back < media.len() && media[back] == all[place];
    assert(back == m);
    let rest = all.skip(place + 1);
    super::select::lemma_filter_contains(rest, super::unsent::is_other(id), media[n]);
    lemma_same_time_order(kept, media[m], media[n]);
    if m < n {
        lemma_order_in_filter(media, super::unsent::is_datable(), m, n);
        let (i, j) = choose|i: int, j: int|
            0 <= i < j < all.len() && #[trigger] all[i] == media[m] && #[trigger] all[j]
                == media[n];
        if i < place {
            assert(stand_in_order(all, media[m], media[m]));
            lemma_same_time_order(kept, media[m], media[m]);
            lemma_order_from_filter(media, super::unsent::is_datable(), media[m], media[m]);
        }
        assert(i == place);
        assert(rest[j - place - 1] == media[n]);
    }
    if posts.contains(media[n]) {
        let b = choose|b: int| 0 <= b < rest.len() && rest[b] == media[n];
        assert(all[place + 1 + b] == media[n]);
        assert(stand_in_order(all, media[m], media[n]));
        lemma_order_from_filter(media, super::unsent::is_datable(), media[m], media[n]);
        let (i, j) = choose|i: int, j: int|
            0 <= i < j < media.len() && #[trigger] media[i] == media[m] && #[trigger] media[j]
                == media[n];
        assert(i == m && j == n);
    }
}

/// Where the post that the cursor stands on is not listed, no post of the cursor's time is
/// sent again.
pub proof fn law_unlisted_cursor_repeats_nothing(
    media: Seq<MediaView>,
    cursor_ts: Seq<char>,
    cursor_id: Option<Seq<char>>,
    at: Instant,
    k: int,
)
    requires
        crate::clock::instant_of(cursor_ts) == Some(at),
        forall|i: int| 0 <= i < media.len() ==> cursor_id != Some((#[trigger] media[i]).id),
        0 <= k < super::unsent::unsent(media, Some(cursor_ts), cursor_id).len(),
    ensures
        ({
            let post = super::unsent::unsent(media, Some(cursor_ts), cursor_id)[k];
            crate::clock::instant_of(post.timestamp) is Some && earlier(
                at,
                crate::clock::instant_of(post.timestamp)->0,
            )
        }),
{
    let all = super::unsent::dated(media);
    super::unsent::lemma_dated(media);
    super::unsent::lemma_place(all, cursor_id, at);
    if let Some(place) = super::unsent::cursor_place(all, cursor_id, at) {
        let i = choose|i: int| 0 <= i < media.len() && media[i] == all[place];
        assert(cursor_id != Some(media[i].id));
    }
    law_only_later_posts_are_selected(media, Some(cursor_ts), cursor_id, k);
}

/// The newest post is the last of those that no other is later than: the posts behind it in
/// the list are earlier, and those before it are not later. There is one exactly where some
/// post has an ID and a time that can be read, whatever else it holds.
pub proof fn law_newest_is_the_last_of_the_latest(media: Seq<MediaView>)
    ensures
        super::select::newest(media) is Some <==> exists|k: int|
            0 <= k < media.len() && (#[trigger] media[k]).id.len() > 0 && crate::clock::instant_of(
                media[k].timestamp,
            ) is Some,
        super::select::newest(media) matches Some(best) ==> exists|m: int|
            {
                &&& 0 <= m < media.len()
                &&& #[trigger] media[m] == best
                &&& best.id.len() > 0
                &&& crate::clock::instant_of(best.timestamp) is Some
                &&& forall|k: int, at: Instant|
                    0 <= k < m && #[trigger] stands_at_time(media[k], at) ==> !earlier(
                        crate::clock::instant_of(best.timestamp)->0,
                        at,
                    )
                &&& forall|k: int, at: Instant|
                    m < k < media.len() && #[trigger] stands_at_time(media[k], at) ==> earlier(
                        at,
                        crate::clock::instant_of(best.timestamp)->0,
                    )
            },
    decreases media.len(),
{
    if media.len() > 0 {
        let front = media.drop_last();
        let last = media.last();
        let end = media.len() - 1;
        law_newest_is_the_last_of_the_latest(front);
        assert(media[end] == last);
        assert forall|k: int| 0 <= k < end implies #[trigger] media[k] == front[k] by {}
        if exists|k: int|
            0 <= k < front.len() && (#[trigger] front[k]).id.len() > 0 && crate::clock::instant_of(
                front[k].timestamp,
            ) is Some {
            let k = choose|k: int|
                0 <= k < front.len() && (#[trigger] front[k]).id.len() > 0
                    && crate::clock::instant_of(front[k].timestamp) is Some;
            assert(media[k] == front[k]);
        }
        if exists|k: int|
            0 <= k < media.len() && (#[trigger] media[k]).id.len() > 0 && crate::clock::instant_of(
                media[k].timestamp,
            ) is Some {
            let k = choose|k: int|
                0 <= k < media.len() && (#[trigger] media[k]).id.len() > 0
                    && crate::clock::instant_of(media[k].timestamp) is Some;
            if k < end {
                assert(front[k] == media[k]);
            }
        }
        if let Some(best) = super::select::newest(media) {
            if super::select::newest(front) == Some(best) && (!super::select::datable(last)
                || super::select::post_time(last).before(super::select::post_time(best))) {
                let m = choose|m: int|
                    {
                        &&& 0 <= m < front.len()
                        &&& #[trigger] front[m] == best
                        &&& best.id.len() > 0
                        &&& crate::clock::instant_of(best.timestamp) is Some
                        &&& forall|k: int, at: Instant|
                            0 <= k < m && #[trigger] stands_at_time(front[k], at) ==> !earlier(
                                crate::clock::instant_of(best.timestamp)->0,
                                at,
                            )
                        &&& forall|k: int, at: Instant|
                            m < k < front.len() && #[trigger] stands_at_time(front[k], at)
                                ==> earlier(at, crate::clock::instant_of(best.timestamp)->0)
                    };
                assert(media[m] == best);
                assert forall|k: int, at: Instant|
                    0 <= k < m && #[trigger] stands_at_time(media[k], at) implies !earlier(
                    crate::clock::instant_of(best.timestamp)->0,
                    at,
                ) by {
                    assert(stands_at_time(front[k], at));
                }
                assert forall|k: int, at: Instant|
                    m < k < media.len() && #[trigger] stands_at_time(media[k], at) implies earlier(
                    at,
                    crate::clock::instant_of(best.timestamp)->0,
                ) by {
                    if k < end {
                        assert(stands_at_time(front[k], at));
                    }
                }
            } else {
                super::select::law_newest_is_latest(media);
                assert(best == last);
                assert forall|k: int, at: Instant|
                    0 <= k < end && #[trigger] stands_at_time(media[k], at) implies !earlier(
                    crate::clock::instant_of(best.timestamp)->0,
                    at,
                ) by {
                    assert(super::select::datable(media[k]));
                }
            }
        }
    }
}

proof fn lemma_times_in_sum(one: Seq<MediaView>, two: Seq<MediaView>, post: MediaView)
    ensures
        times_in(one + two, post) == times_in(one, post) + times_in(two, post),
    decreases two.len(),
{
    if two.len() == 0 {
        assert(one + two == one);
    } else {
        lemma_times_in_sum(one, two.drop_last(), post);
        assert((one + two).drop_last() == one + two.drop_last());
    }
}

proof fn lemma_times_in_none(posts: Seq<MediaView>, post: MediaView)
    requires
        forall|k: int| 0 <= k < posts.len() ==> #[trigger] posts[k] != post,
    ensures
        times_in(posts, post) == 0,
    decreases posts.len(),
{
    if posts.len() > 0 {
        let front = posts.drop_last();
        assert forall|k: int| 0 <= k < front.len() implies #[trigger] front[k] != post by {
            assert(front[k] == posts[k]);
        }
        lemma_times_in_none(front, post);
        assert(posts.last() == posts[posts.len() - 1]);
    }
}

proof fn lemma_times_dated(media: Seq<MediaView>, post: MediaView)
    ensures
        times_in(super::unsent::dated(media), post) == (if super::select::datable(post) {
            times_in(media, post)
        } else {
            0
        }),
{
    let kept = media.filter(super::unsent::is_datable());
    super::select::lemma_by_time(kept);
    lemma_times_in(super::unsent::dated(media), post);
    lemma_times_in(kept, post);
    lemma_times_in_filter(media, super::unsent::is_datable(), post);
}

/// Nothing is sent more often than it is listed, and a post later than the cursor exactly as
/// often.
pub proof fn law_unsent_posts_are_sent_as_often_as_listed(
    media: Seq<MediaView>,
    cursor_ts: Option<Seq<char>>,
    cursor_id: Option<Seq<char>>,
    post: MediaView,
)
    ensures
        times_in(super::unsent::unsent(media, cursor_ts, cursor_id), post) <= times_in(media, post),
        is_later(post, cursor_ts, cursor_id) ==> times_in(
            super::unsent::unsent(media, cursor_ts, cursor_id),
            post,
        ) == times_in(media, post),
{
    let all = super::unsent::dated(media);
    lemma_times_dated(media, post);
    if let Some(at) = super::select::cursor_instant(cursor_ts) {
        super::unsent::lemma_dated(media);
        super::unsent::lemma_place(all, cursor_id, at);
        if let Some(place) = super::unsent::cursor_place(all, cursor_id, at) {
            let front = all.take(place + 1);
            let rest = all.skip(place + 1);
            assert(front + rest == all);
            lemma_times_in_sum(front, rest, post);
            lemma_times_in_filter(rest, super::unsent::is_other(cursor_id), post);
            if is_later(post, cursor_ts, cursor_id) {
                assert forall|k: int| 0 <= k < front.len() implies #[trigger] front[k] != post by {
                    assert(front[k] == all[k]);
                    if k < place {
                        assert(!super::select::post_time(all[place]).before(
                            super::select::post_time(all[k]),
                        ));
                    }
                }
                lemma_times_in_none(front, post);
            }
        } else {
            super::unsent::lemma_new_posts_are_dated(media, cursor_ts, cursor_id, at);
            lemma_times_in_filter(all, super::select::is_fresh(at, cursor_id), post);
        }
    }
}

/// Posts of one time that are still to be sent keep the order in which they are listed.
pub proof fn law_unsent_posts_of_one_time_keep_their_order(
    media: Seq<MediaView>,
    cursor_ts: Option<Seq<char>>,
    cursor_id: Option<Seq<char>>,
    i: int,
    j: int,
)
    requires
        0 <= i < j < super::unsent::unsent(media, cursor_ts, cursor_id).len(),
        crate::clock::instant_of(
            super::unsent::unsent(media, cursor_ts, cursor_id)[i].timestamp,
        ) == crate::clock::instant_of(
            super::unsent::unsent(media, cursor_ts, cursor_id)[j].timestamp,
        ),
    ensures
        stand_in_order(
            media,
            super::unsent::unsent(media, cursor_ts, cursor_id)[i],
            super::unsent::unsent(media, cursor_ts, cursor_id)[j],
        ),
{
    let posts = super::unsent::unsent(media, cursor_ts, cursor_id);
    let all = super::unsent::dated(media);
    let at = super::select::cursor_instant(cursor_ts)->0;
    super::unsent::lemma_place(all, cursor_id, at);
    match super::unsent::cursor_place(all, cursor_id, at) {
        Some(place) => {
            let rest = all.skip(place + 1);
            lemma_order_from_filter(rest, super::unsent::is_other(cursor_id), posts[i], posts[j]);
            let (m, n) = choose|m: int, n: int|
                0 <= m < n < rest.len() && #[trigger] rest[m] == posts[i] && #[trigger] rest[n]
                    == posts[j];
            assert(all[place + 1 + m] == posts[i]);
            assert(all[place + 1 + n] == posts[j]);
        },
        None => {
            super::unsent::lemma_new_posts_are_dated(media, cursor_ts, cursor_id, at);
            lemma_order_from_filter(
                all,
                super::select::is_fresh(at, cursor_id),
                posts[i],
                posts[j],
            );
        },
    }
    let kept = media.filter(super::unsent::is_datable());
    lemma_same_time_order(kept, posts[i], posts[j]);
    lemma_order_from_filter(media, super::unsent::is_datable(), posts[i], posts[j]);
}

proof fn lemma_filter_from(
    posts: Seq<MediaView>,
    keep: spec_fn(MediaView) -> bool,
    n: int,
) -> (p: int)
    requires
        0 <= n < posts.len(),
        keep(posts[n]),
    ensures
        0 <= p < posts.filter(keep).len(),
        posts.filter(keep)[p] == posts[n],
        posts.filter(keep).skip(p + 1) == posts.skip(n + 1).filter(keep),
{
    let front = posts.take(n);
    let upto = posts.take(n + 1);
    let rest = posts.skip(n + 1);
    assert(upto == front.push(posts[n]));
    super::select::lemma_filter_push(front, posts[n], keep);
    Seq::filter_distributes_over_add(upto, rest, keep);
    assert(upto + rest == posts);
    let p = front.filter(keep).len() as int;
    assert(posts.filter(keep) == upto.filter(keep) + rest.filter(keep));
    assert(posts.filter(keep).skip(p + 1) == rest.filter(keep));
    p
}

/// The post is the one that the cursor stands on.
pub open spec fn is_listed_cursor(post: MediaView, id: Seq<char>, at: Instant) -> bool {
    post.id == id && crate::clock::instant_of(post.timestamp) == Some(at)
}

/// Should the cursor's post be listed several times, its last listing counts: a post of the
/// same time that is listed behind it is still to be sent.
pub proof fn law_last_listing_of_the_cursor_counts(
    media: Seq<MediaView>,
    cursor_ts: Seq<char>,
    id: Seq<char>,
    at: Instant,
    m: int,
    n: int,
)
    requires
        0 <= m < n < media.len(),
        id.len() > 0,
        crate::clock::instant_of(cursor_ts) == Some(at),
        is_listed_cursor(media[m], id, at),
        stands_at_time(media[n], at),
        media[n].id != id,
        forall|k: int| n < k < media.len() ==> !is_listed_cursor(#[trigger] media[k], id, at),
    ensures
        super::unsent::unsent(media, Some(cursor_ts), Some(id)).contains(media[n]),
{
    let all = super::unsent::dated(media);
    let kept = media.filter(super::unsent::is_datable());
    let same = super::select::posted_at(at);
    super::unsent::lemma_place(all, Some(id), at);
    super::unsent::lemma_dated_contains(media, media[m]);
    assert(media.contains(media[m]));
    let here = choose|here: int| 0 <= here < all.len() && all[here] == media[m];
    assert(super::unsent::is_cursor_post(all[here], Some(id), at));
    let place = super::unsent::cursor_place(all, Some(id), at)->0;
    super::select::lemma_by_time_filter(kept, same);
    super::select::lemma_same_time_unsorted(kept, at);
    let p = lemma_filter_from(media, super::unsent::is_datable(), n);
    let q = lemma_filter_from(kept, same, p);
    let i = super::unsent::lemma_filter_at(all, same, q);
    assert(all[i] == media[n]);
    if place > i {
        let behind = all.skip(i + 1);
        super::select::lemma_filter_contains(behind, same, all[place]);
        assert(behind[place - i - 1] == all[place]);
        let left = kept.skip(p + 1);
        super::select::lemma_filter_contains(left, same, all[place]);
        let tail = media.skip(n + 1);
        super::select::lemma_filter_contains(tail, super::unsent::is_datable(), all[place]);
        let k = choose|k: int| 0 <= k < tail.len() && tail[k] == all[place];
        assert(media[n + 1 + k] == all[place]);
        super::unsent::lemma_dated(media);
    }
    assert(place < i);
    let rest = all.skip(place + 1);
    assert(rest[i - place - 1] == media[n]);
    super::select::lemma_filter_contains(rest, super::unsent::is_other(Some(id)), media[n]);
}

/// And a post of the same time that is listed only before that listing is not sent again.
pub proof fn law_posts_before_the_cursor_are_not_repeated(
    media: Seq<MediaView>,
    cursor_ts: Seq<char>,
    id: Seq<char>,
    at: Instant,
    m: int,
    post: MediaView,
)
    requires
        0 <= m < media.len(),
        id.len() > 0,
        crate::clock::instant_of(cursor_ts) == Some(at),
        is_listed_cursor(media[m], id, at),
        crate::clock::instant_of(post.timestamp) == Some(at),
        forall|k: int| m < k < media.len() ==> #[trigger] media[k] != post,
    ensures
        !super::unsent::unsent(media, Some(cursor_ts), Some(id)).contains(post),
{
    let all = super::unsent::dated(media);
    let kept = media.filter(super::unsent::is_datable());
    let same = super::select::posted_at(at);
    let posts = super::unsent::unsent(media, Some(cursor_ts), Some(id));
    super::unsent::lemma_place(all, Some(id), at);
    super::unsent::lemma_dated_contains(media, media[m]);
    assert(media.contains(media[m]));
    let here = choose|here: int| 0 <= here < all.len() && all[here] == media[m];
    assert(super::unsent::is_cursor_post(all[here], Some(id), at));
    let place = super::unsent::cursor_place(all, Some(id), at)->0;
    if posts.contains(post) {
        let rest = all.skip(place + 1);
        super::select::lemma_filter_contains(rest, super::unsent::is_other(Some(id)), post);
        super::select::lemma_by_time_filter(kept, same);
        super::select::lemma_same_time_unsorted(kept, at);
        super::unsent::lemma_dated(media);
        let p = lemma_filter_from(media, super::unsent::is_datable(), m);
        let q = lemma_filter_from(kept, same, p);
        let i = super::unsent::lemma_filter_at(all, same, q);
        assert(all[i] == media[m]);
        assert(super::unsent::is_cursor_post(all[i], Some(id), at));
        let b = choose|b: int| 0 <= b < rest.len() && rest[b] == post;
        assert(all[place + 1 + b] == post);
        let behind = all.skip(i + 1);
        assert(behind[place + b - i] == post);
        super::select::lemma_filter_contains(behind, same, post);
        let left = kept.skip(p + 1);
        super::select::lemma_filter_contains(left, same, post);
        let tail = media.skip(m + 1);
        super::select::lemma_filter_contains(tail, super::unsent::is_datable(), post);
        let k = choose|k: int| 0 <= k < tail.len() && tail[k] == post;
        assert(media[m + 1 + k] == post);
    }
}

} // verus!
