//! Which posts are still to be sent: those that stand behind the cursor's post.
//!
//! Time alone cannot tell posts of one instant apart, so the ID finds the cursor's post among
//! them. It is never used as an order: where the post is gone, the time decides.
use vstd::prelude::*;

use super::media::{Media, MediaView};
use super::select::{can_be_dated, put_post, select_new_posts, time_of};
use crate::clock::{parse_ts, Instant};
use crate::text::same_text;

verus! {

/// [`datable`](super::select::datable) as a predicate on posts.
pub open spec fn is_datable() -> spec_fn(MediaView) -> bool {
    |post: MediaView| super::select::datable(post)
}

/// The datable posts, from the oldest to the newest.
pub open spec fn dated(media: Seq<MediaView>) -> Seq<MediaView> {
    super::select::by_time(media.filter(is_datable()))
}

/// The post is the one that the cursor stands on: its ID at its time.
pub open spec fn is_cursor_post(post: MediaView, id: Option<Seq<char>>, at: Instant) -> bool {
    Some(post.id) == id && super::select::post_time(post) == at
}

/// Where the cursor's post stands; the last place, should it be listed twice.
pub open spec fn cursor_place(posts: Seq<MediaView>, id: Option<Seq<char>>, at: Instant) -> Option<
    int,
>
    decreases posts.len(),
{
    if posts.len() == 0 {
        None
    } else if is_cursor_post(posts.last(), id, at) {
        Some(posts.len() - 1)
    } else {
        cursor_place(posts.drop_last(), id, at)
    }
}

/// The posts under another ID, as a predicate.
pub open spec fn is_other(id: Option<Seq<char>>) -> spec_fn(MediaView) -> bool {
    |post: MediaView| Some(post.id) != id
}

/// The posts that are still to be sent, oldest first: where the cursor's post is listed,
/// those that stand behind it; where it is not, those later than the cursor; none without a
/// cursor. A post under the cursor's ID is never among them.
pub open spec fn unsent(
    media: Seq<MediaView>,
    cursor_ts: Option<Seq<char>>,
    cursor_id: Option<Seq<char>>,
) -> Seq<MediaView> {
    match super::select::cursor_instant(cursor_ts) {
        Some(at) => match cursor_place(dated(media), cursor_id, at) {
            Some(place) => dated(media).skip(place + 1).filter(is_other(cursor_id)),
            None => super::select::new_posts(media, cursor_ts, cursor_id),
        },
        None => Seq::<MediaView>::empty(),
    }
}

/// The datable posts, from the oldest to the newest.
fn dated_posts(media: &[Media]) -> (r: Vec<Media>)
    ensures
        super::media::media_views(r@) == dated(super::media::media_views(media@)),
{
    let mut out: Vec<Media> = Vec::new();
    let ghost views = super::media::media_views(media@);
    let ghost keep = is_datable();
    let mut i: usize = 0;
    proof {
        reveal(Seq::filter);
    }
    assert(super::media::media_views(out@) == Seq::<MediaView>::empty());
    assert(views.take(0).filter(keep) == Seq::<MediaView>::empty());
    while i < media.len()
        invariant
            i <= media.len(),
            views == super::media::media_views(media@),
            keep == is_datable(),
            super::media::media_views(out@) == super::select::by_time(
                views.take(i as int).filter(keep),
            ),
        decreases media.len() - i,
    {
        let ghost before = views.take(i as int).filter(keep);
        proof {
            reveal(Seq::filter);
            assert(views.take(i + 1).drop_last() == views.take(i as int));
            assert(views[i as int] == media@[i as int]@);
        }
        if can_be_dated(&media[i]) {
            put_post(&mut out, media[i].clone());
            assert(before.push(views[i as int]).drop_last() == before);
        }
        i += 1;
    }
    assert(views.take(i as int) == views);
    out
}

/// Whether a post bears the given ID.
fn bears_id(post: &Media, id: Option<&str>) -> (r: bool)
    ensures
        r == (Some(post@.id) == crate::text::opt_str(id)),
{
    match id {
        Some(id) => same_text(post.id.as_str(), id),
        None => false,
    }
}

/// Where the posts behind the cursor's post begin, if it is listed.
fn place_behind(posts: &Vec<Media>, id: Option<&str>, at: &Instant) -> (r: Option<usize>)
    ensures
        (match r {
            Some(behind) => Some(behind - 1),
            None => None,
        }) == cursor_place(super::media::media_views(posts@), crate::text::opt_str(id), *at),
        r matches Some(behind) ==> 0 < behind <= posts.len(),
{
    let ghost views = super::media::media_views(posts@);
    let mut i: usize = posts.len();
    assert(views.take(i as int) == views);
    while i > 0
        invariant
            i <= posts.len(),
            views == super::media::media_views(posts@),
            cursor_place(views, crate::text::opt_str(id), *at) == cursor_place(
                views.take(i as int),
                crate::text::opt_str(id),
                *at,
            ),
        decreases i,
    {
        assert(views.take(i as int).drop_last() == views.take(i - 1));
        assert(views.take(i as int).last() == posts@[i - 1]@);
        let time: Instant = time_of(&posts[i - 1]);
        if bears_id(&posts[i - 1], id) && time == *at {
            return Some(i);
        }
        i -= 1;
    }
    None
}

/// The posts that are still to be sent, oldest first.
pub fn unsent_posts(media: &[Media], cursor_ts: Option<&str>, cursor_id: Option<&str>) -> (r: Vec<
    Media,
>)
    ensures
        super::media::media_views(r@) == unsent(
            super::media::media_views(media@),
            crate::text::opt_str(cursor_ts),
            crate::text::opt_str(cursor_id),
        ),
        forall|k: int|
            0 <= k < media@.len() && #[trigger] super::selection_laws::is_later(
                media@[k]@,
                crate::text::opt_str(cursor_ts),
                crate::text::opt_str(cursor_id),
            ) ==> super::media::media_views(r@).contains(media@[k]@),
{
    proof {
        super::selection_laws::lemma_later_posts(
            media@,
            crate::text::opt_str(cursor_ts),
            crate::text::opt_str(cursor_id),
        );
    }
    let mut out: Vec<Media> = Vec::new();
    assert(super::media::media_views(out@) == Seq::<MediaView>::empty());
    let at: Option<Instant> = match cursor_ts {
        Some(ts) => parse_ts(ts),
        None => None,
    };
    let at: Instant = match at {
        Some(at) => at,
        None => return out,
    };
    let posts: Vec<Media> = dated_posts(media);
    let behind: usize = match place_behind(&posts, cursor_id, &at) {
        Some(behind) => behind,
        None => return select_new_posts(media, cursor_ts, cursor_id),
    };
    let ghost views = super::media::media_views(posts@);
    let ghost keep = is_other(crate::text::opt_str(cursor_id));
    let ghost rest = views.skip(behind as int);
    let mut i: usize = behind;
    proof {
        reveal(Seq::filter);
    }
    assert(rest.take(0).filter(keep) == Seq::<MediaView>::empty());
    while i < posts.len()
        invariant
            behind <= i <= posts.len(),
            views == super::media::media_views(posts@),
            rest == views.skip(behind as int),
            keep == is_other(crate::text::opt_str(cursor_id)),
            super::media::media_views(out@) == rest.take(i - behind).filter(keep),
        decreases posts.len() - i,
    {
        let ghost before = super::media::media_views(out@);
        proof {
            reveal(Seq::filter);
            assert(rest.take(i + 1 - behind).drop_last() == rest.take(i - behind));
            assert(rest[i - behind] == posts@[i as int]@);
        }
        if !bears_id(&posts[i], cursor_id) {
            out.push(posts[i].clone());
            assert(super::media::media_views(out@) == before.push(posts@[i as int]@));
        }
        i += 1;
    }
    assert(rest.take(i - behind) == rest);
    out
}

pub(crate) proof fn lemma_dated(media: Seq<MediaView>)
    ensures
        super::select::oldest_first(dated(media)),
        forall|k: int|
            0 <= k < dated(media).len() ==> super::select::datable(#[trigger] dated(media)[k])
                && media.contains(dated(media)[k]),
{
    let kept = media.filter(is_datable());
    super::select::lemma_by_time(kept);
    assert forall|k: int| 0 <= k < dated(media).len() implies super::select::datable(
        #[trigger] dated(media)[k],
    ) && media.contains(dated(media)[k]) by {
        lemma_dated_contains(media, dated(media)[k]);
        assert(dated(media).contains(dated(media)[k]));
    }
}

pub(crate) proof fn lemma_dated_contains(media: Seq<MediaView>, post: MediaView)
    ensures
        dated(media).contains(post) <==> media.contains(post) && super::select::datable(post),
{
    broadcast use vstd::seq_lib::group_to_multiset_ensures;

    let kept = media.filter(is_datable());
    super::select::lemma_by_time(kept);
    super::select::lemma_filter_contains(media, is_datable(), post);
    assert(dated(media).contains(post) <==> dated(media).to_multiset().count(post) > 0);
    assert(kept.contains(post) <==> kept.to_multiset().count(post) > 0);
}

pub(crate) proof fn lemma_place(posts: Seq<MediaView>, id: Option<Seq<char>>, at: Instant)
    ensures
        match cursor_place(posts, id, at) {
            Some(place) => {
                &&& 0 <= place < posts.len()
                &&& is_cursor_post(posts[place], id, at)
                &&& forall|k: int|
                    place < k < posts.len() ==> !is_cursor_post(#[trigger] posts[k], id, at)
            },
            None => forall|k: int|
                0 <= k < posts.len() ==> !is_cursor_post(#[trigger] posts[k], id, at),
        },
    decreases posts.len(),
{
    if posts.len() > 0 {
        let front = posts.drop_last();
        lemma_place(front, id, at);
        assert(posts.last() == posts[posts.len() - 1]);
        assert forall|k: int| 0 <= k < front.len() implies #[trigger] posts[k] == front[k] by {}
    }
}

pub(crate) proof fn lemma_new_posts_are_dated(
    media: Seq<MediaView>,
    cursor_ts: Option<Seq<char>>,
    cursor_id: Option<Seq<char>>,
    at: Instant,
)
    requires
        super::select::cursor_instant(cursor_ts) == Some(at),
    ensures
        super::select::new_posts(media, cursor_ts, cursor_id) == dated(media).filter(
            super::select::is_fresh(at, cursor_id),
        ),
{
    let keep = super::select::is_fresh(at, cursor_id);
    super::select::lemma_by_time_filter(media.filter(is_datable()), keep);
    super::select::lemma_filter_twice(media, is_datable(), keep, keep);
}

proof fn lemma_filter_same(
    posts: Seq<MediaView>,
    one: spec_fn(MediaView) -> bool,
    two: spec_fn(MediaView) -> bool,
)
    requires
        forall|k: int| 0 <= k < posts.len() ==> one(#[trigger] posts[k]) == two(posts[k]),
    ensures
        posts.filter(one) == posts.filter(two),
    decreases posts.len(),
{
    reveal(Seq::filter);
    if posts.len() > 0 {
        let front = posts.drop_last();
        assert forall|k: int| 0 <= k < front.len() implies one(#[trigger] front[k]) == two(
            front[k],
        ) by {
            assert(front[k] == posts[k]);
        }
        lemma_filter_same(front, one, two);
        assert(posts.last() == posts[posts.len() - 1]);
    }
}

proof fn lemma_filter_all(posts: Seq<MediaView>, keep: spec_fn(MediaView) -> bool)
    requires
        forall|k: int| 0 <= k < posts.len() ==> keep(#[trigger] posts[k]),
    ensures
        posts.filter(keep) == posts,
    decreases posts.len(),
{
    reveal(Seq::filter);
    if posts.len() > 0 {
        let front = posts.drop_last();
        assert forall|k: int| 0 <= k < front.len() implies keep(#[trigger] front[k]) by {
            assert(front[k] == posts[k]);
        }
        lemma_filter_all(front, keep);
        assert(posts.last() == posts[posts.len() - 1]);
        assert(front.push(posts.last()) == posts);
    }
}

proof fn lemma_filter_behind(posts: Seq<MediaView>, keep: spec_fn(MediaView) -> bool, from: int)
    requires
        0 <= from <= posts.len(),
        forall|k: int| 0 <= k < from ==> !keep(#[trigger] posts[k]),
    ensures
        posts.filter(keep) == posts.skip(from).filter(keep),
    decreases posts.len(),
{
    reveal(Seq::filter);
    if from == posts.len() {
        assert(posts.skip(from) == Seq::<MediaView>::empty());
        if posts.len() > 0 {
            let front = posts.drop_last();
            assert(posts.last() == posts[posts.len() - 1]);
            lemma_filter_behind(front, keep, from - 1);
            assert(front.skip(from - 1) == Seq::<MediaView>::empty());
        }
    } else {
        let front = posts.drop_last();
        lemma_filter_behind(front, keep, from);
        assert(posts.skip(from).drop_last() == front.skip(from));
        assert(posts.skip(from).last() == posts.last());
    }
}

/// Where the post at `nth` of the kept ones stands among all.
pub(crate) proof fn lemma_filter_at(
    posts: Seq<MediaView>,
    keep: spec_fn(MediaView) -> bool,
    nth: int,
) -> (at: int)
    requires
        0 <= nth < posts.filter(keep).len(),
    ensures
        0 <= at < posts.len(),
        keep(posts[at]),
        posts[at] == posts.filter(keep)[nth],
        posts.skip(at + 1).filter(keep) == posts.filter(keep).skip(nth + 1),
    decreases posts.len(),
{
    reveal(Seq::filter);
    let front = posts.drop_last();
    let kept = front.filter(keep);
    let all = posts.filter(keep);
    if nth < kept.len() {
        let at = lemma_filter_at(front, keep, nth);
        assert(posts[at] == front[at]);
        assert(posts.skip(at + 1).drop_last() == front.skip(at + 1));
        assert(posts.skip(at + 1).last() == posts.last());
        if keep(posts.last()) {
            assert(kept.push(posts.last()).skip(nth + 1) == kept.skip(nth + 1).push(posts.last()));
        }
        at
    } else {
        let at = posts.len() - 1;
        assert(posts.skip(at + 1) == Seq::<MediaView>::empty());
        assert(all.skip(nth + 1) == Seq::<MediaView>::empty());
        at
    }
}

/// A later post stands at a later time or at the same one.
proof fn lemma_not_before(posts: Seq<MediaView>, i: int, j: int)
    requires
        super::select::oldest_first(posts),
        0 <= i <= j < posts.len(),
    ensures
        !super::select::post_time(posts[j]).before(super::select::post_time(posts[i])),
{
}

/// Nothing is lost and nothing is sent twice: once the first `done` unsent posts are
/// forwarded and the cursor stands on the last of them, the same list leaves exactly the
/// rest unsent, in the same order, whether their times differ or not.
///
/// It takes that no post that is left bears the ID of the one the cursor stands on, and that
/// behind that one no post bears the ID of the old cursor.
pub proof fn law_forwarding_resumes(
    media: Seq<MediaView>,
    cursor_ts: Option<Seq<char>>,
    cursor_id: Option<Seq<char>>,
    done: int,
)
    requires
        0 < done <= unsent(media, cursor_ts, cursor_id).len(),
        forall|k: int|
            done <= k < unsent(media, cursor_ts, cursor_id).len() ==> (#[trigger] unsent(
                media,
                cursor_ts,
                cursor_id,
            )[k]).id != unsent(media, cursor_ts, cursor_id)[done - 1].id,
        forall|i: int, j: int|
            0 <= i < j < dated(media).len() && #[trigger] dated(media)[i] == unsent(
                media,
                cursor_ts,
                cursor_id,
            )[done - 1] ==> Some((#[trigger] dated(media)[j]).id) != cursor_id,
    ensures
        unsent(
            media,
            Some(unsent(media, cursor_ts, cursor_id)[done - 1].timestamp),
            Some(unsent(media, cursor_ts, cursor_id)[done - 1].id),
        ) == unsent(media, cursor_ts, cursor_id).skip(done),
{
    let posts = unsent(media, cursor_ts, cursor_id);
    let all = dated(media);
    let at = super::select::cursor_instant(cursor_ts)->0;
    let last = posts[done - 1];
    lemma_dated(media);
    lemma_place(all, cursor_id, at);
    let (start, keep) = match cursor_place(all, cursor_id, at) {
        Some(place) => (place + 1, is_other(cursor_id)),
        None => (0int, super::select::is_fresh(at, cursor_id)),
    };
    let rest = all.skip(start);
    if cursor_place(all, cursor_id, at) is None {
        lemma_new_posts_are_dated(media, cursor_ts, cursor_id, at);
        assert(rest == all);
    }
    assert(posts == rest.filter(keep));
    let index = lemma_filter_at(rest, keep, done - 1);
    let here = start + index;
    assert(all[here] == last);
    let left = all.skip(here + 1);
    assert(rest.skip(index + 1) == left);
    assert(left.filter(keep) == posts.skip(done));
    assert(super::select::datable(last));

    // The posts that are left are those behind `last` under another ID.
    assert forall|k: int| 0 <= k < left.len() implies keep(#[trigger] left[k]) == is_other(
        Some(last.id),
    )(left[k]) by {
        assert(left[k] == all[here + 1 + k]);
        assert(Some(all[here + 1 + k].id) != cursor_id);
        lemma_not_before(all, here, here + 1 + k);
        crate::clock::law_before_is_total(
            at,
            super::select::post_time(last),
            super::select::post_time(left[k]),
        );
        assert(keep(left[k]));
        super::select::lemma_filter_contains(left, keep, left[k]);
        assert(left.contains(left[k]));
        let m = choose|m: int| 0 <= m < posts.skip(done).len() && posts.skip(done)[m] == left[k];
        assert(posts[done + m] == left[k]);
    }
    lemma_filter_same(left, keep, is_other(Some(last.id)));

    // `last` is the last one of its ID and time.
    let time = super::select::post_time(last);
    lemma_place(all, Some(last.id), time);
    assert(is_cursor_post(all[here], Some(last.id), time));
    let place = cursor_place(all, Some(last.id), time)->0;
    if place > here {
        assert(left[place - here - 1] == all[place]);
        assert(Some(all[place].id) != cursor_id);
        lemma_not_before(all, here, place);
        assert(keep(left[place - here - 1]));
    }
    assert(place == here);
}

/// The IDs of the posts are all different.
pub open spec fn distinct_ids(posts: Seq<MediaView>) -> bool {
    forall|i: int, j: int|
        0 <= i < j < posts.len() ==> (#[trigger] posts[i]).id != (#[trigger] posts[j]).id
}

/// With the cursor on a listed post, exactly the posts behind it are unsent.
pub proof fn law_cursor_leaves_what_is_behind(media: Seq<MediaView>, place: int)
    requires
        distinct_ids(dated(media)),
        0 <= place < dated(media).len(),
    ensures
        unsent(media, Some(dated(media)[place].timestamp), Some(dated(media)[place].id)) == dated(
            media,
        ).skip(place + 1),
{
    let all = dated(media);
    let id = Some(all[place].id);
    let at = super::select::post_time(all[place]);
    lemma_dated(media);
    lemma_place(all, id, at);
    assert(is_cursor_post(all[place], id, at));
    let left = all.skip(place + 1);
    assert forall|k: int| 0 <= k < left.len() implies is_other(id)(#[trigger] left[k]) by {
        assert(left[k] == all[place + 1 + k]);
    }
    lemma_filter_all(left, is_other(id));
}

/// With the cursor on the newest post, as the first look sets it, nothing is unsent.
pub proof fn law_first_cursor_leaves_nothing(media: Seq<MediaView>, newest: MediaView)
    requires
        super::select::newest(media) == Some(newest),
    ensures
        unsent(media, Some(newest.timestamp), Some(newest.id)).len() == 0,
{
    reveal(Seq::filter);
    lemma_newest_is_last(media);
    let all = dated(media);
    lemma_dated(media);
    assert(all[all.len() - 1] == newest);
    assert(all.skip(all.len() as int) == Seq::<MediaView>::empty());
}

proof fn lemma_newest_is_last(media: Seq<MediaView>)
    ensures
        super::select::newest(media) == (if dated(media).len() == 0 {
            None
        } else {
            Some(dated(media).last())
        }),
    decreases media.len(),
{
    reveal(Seq::filter);
    if media.len() > 0 {
        let front = media.drop_last();
        lemma_newest_is_last(front);
        let kept = front.filter(is_datable());
        if super::select::datable(media.last()) {
            super::select::lemma_by_time(kept);
            super::select::lemma_put_keeps_order(dated(front), media.last());
            assert(kept.push(media.last()).drop_last() == kept);
        }
    }
}

/// The unsent posts stand from the oldest to the newest, are datable posts of the list, are
/// not before the cursor, and bear another ID.
pub proof fn law_unsent_posts_stand_behind(
    media: Seq<MediaView>,
    cursor_ts: Option<Seq<char>>,
    cursor_id: Option<Seq<char>>,
    at: Instant,
    k: int,
    later: int,
)
    requires
        super::select::cursor_instant(cursor_ts) == Some(at),
        0 <= k < later <= unsent(media, cursor_ts, cursor_id).len(),
    ensures
        ({
            let posts = unsent(media, cursor_ts, cursor_id);
            &&& media.contains(posts[k])
            &&& super::select::datable(posts[k])
            &&& !super::select::post_time(posts[k]).before(at)
            &&& Some(posts[k].id) != cursor_id
            &&& later < posts.len() ==> !super::select::post_time(posts[later]).before(
                super::select::post_time(posts[k]),
            )
        }),
{
    let posts = unsent(media, cursor_ts, cursor_id);
    let all = dated(media);
    lemma_dated(media);
    lemma_place(all, cursor_id, at);
    let (start, keep) = match cursor_place(all, cursor_id, at) {
        Some(place) => (place + 1, is_other(cursor_id)),
        None => (0int, super::select::is_fresh(at, cursor_id)),
    };
    let rest = all.skip(start);
    if cursor_place(all, cursor_id, at) is None {
        lemma_new_posts_are_dated(media, cursor_ts, cursor_id, at);
        assert(rest == all);
    }
    let one = lemma_filter_at(rest, keep, k);
    assert(posts[k] == all[start + one]);
    if cursor_place(all, cursor_id, at) is Some {
        lemma_not_before(all, start - 1, start + one);
    }
    if later < posts.len() {
        let left = rest.skip(one + 1);
        assert(left.filter(keep)[later - k - 1] == posts[later]);
        let two = lemma_filter_at(left, keep, later - k - 1);
        assert(left[two] == all[start + one + 1 + two]);
        lemma_not_before(all, start + one, start + one + 1 + two);
    }
}

/// Every post that is later than the cursor is unsent.
pub proof fn law_every_new_post_is_unsent(
    media: Seq<MediaView>,
    cursor_ts: Option<Seq<char>>,
    cursor_id: Option<Seq<char>>,
    post: MediaView,
)
    requires
        super::select::new_posts(media, cursor_ts, cursor_id).contains(post),
    ensures
        unsent(media, cursor_ts, cursor_id).contains(post),
{
    let at = super::select::cursor_instant(cursor_ts)->0;
    let all = dated(media);
    lemma_dated(media);
    lemma_place(all, cursor_id, at);
    lemma_new_posts_are_dated(media, cursor_ts, cursor_id, at);
    super::select::lemma_filter_contains(all, super::select::is_fresh(at, cursor_id), post);
    if let Some(place) = cursor_place(all, cursor_id, at) {
        let k = choose|k: int| 0 <= k < all.len() && all[k] == post;
        if k <= place {
            lemma_not_before(all, k, place);
        }
        let rest = all.skip(place + 1);
        assert(rest[k - place - 1] == post);
        super::select::lemma_filter_contains(rest, is_other(cursor_id), post);
    }
}

/// Where no other post has the time of the cursor, the unsent posts are those later than it.
pub proof fn law_unsent_by_time_alone(
    media: Seq<MediaView>,
    cursor_ts: Option<Seq<char>>,
    cursor_id: Option<Seq<char>>,
    at: Instant,
)
    requires
        super::select::cursor_instant(cursor_ts) == Some(at),
        forall|k: int|
            0 <= k < media.len() && super::select::datable(#[trigger] media[k])
                && super::select::post_time(media[k]) == at ==> Some(media[k].id) == cursor_id,
    ensures
        unsent(media, cursor_ts, cursor_id) == super::select::new_posts(
            media,
            cursor_ts,
            cursor_id,
        ),
{
    let all = dated(media);
    let keep = super::select::is_fresh(at, cursor_id);
    lemma_dated(media);
    lemma_place(all, cursor_id, at);
    lemma_new_posts_are_dated(media, cursor_ts, cursor_id, at);
    if let Some(place) = cursor_place(all, cursor_id, at) {
        assert forall|k: int| 0 <= k < place + 1 implies !keep(#[trigger] all[k]) by {
            lemma_not_before(all, k, place);
        }
        lemma_filter_behind(all, keep, place + 1);
        let rest = all.skip(place + 1);
        assert forall|k: int| 0 <= k < rest.len() implies keep(#[trigger] rest[k]) == is_other(
            cursor_id,
        )(rest[k]) by {
            let post = all[place + 1 + k];
            assert(rest[k] == post);
            lemma_not_before(all, place, place + 1 + k);
            crate::clock::law_before_is_total(at, super::select::post_time(post), at);
            let m = choose|m: int| 0 <= m < media.len() && media[m] == post;
            assert(media[m] == post);
        }
        lemma_filter_same(rest, keep, is_other(cursor_id));
    }
}

/// The cursor's post may be deleted from the list: where no other post has its time, the
/// same posts are unsent, none is lost and none sent again.
pub proof fn law_deleted_cursor_post_changes_nothing(
    before: Seq<MediaView>,
    gone: MediaView,
    after: Seq<MediaView>,
    cursor_ts: Option<Seq<char>>,
    at: Instant,
)
    requires
        super::select::cursor_instant(cursor_ts) == Some(at),
        forall|k: int|
            0 <= k < (before + after).len() && super::select::datable(
                #[trigger] (before + after)[k],
            ) ==> super::select::post_time((before + after)[k]) != at,
    ensures
        unsent(before.push(gone) + after, cursor_ts, Some(gone.id)) == unsent(
            before + after,
            cursor_ts,
            Some(gone.id),
        ),
{
    let with = before.push(gone) + after;
    let without = before + after;
    assert forall|k: int|
        0 <= k < with.len() && super::select::datable(#[trigger] with[k])
            && super::select::post_time(with[k]) == at implies Some(with[k].id) == Some(gone.id) by {
        if k < before.len() {
            assert(with[k] == without[k]);
        } else if k > before.len() {
            assert(with[k] == without[k - 1]);
        }
    }
    law_unsent_by_time_alone(with, cursor_ts, Some(gone.id), at);
    law_unsent_by_time_alone(without, cursor_ts, Some(gone.id), at);
    super::select::law_deleted_post_changes_nothing(
        before,
        gone,
        after,
        cursor_ts,
        Some(gone.id),
    );
}

proof fn lemma_distinct_filter(posts: Seq<MediaView>, keep: spec_fn(MediaView) -> bool)
    requires
        distinct_ids(posts),
    ensures
        distinct_ids(posts.filter(keep)),
{
    let kept = posts.filter(keep);
    assert forall|i: int, j: int| 0 <= i < j < kept.len() implies (#[trigger] kept[i]).id != (
    #[trigger] kept[j]).id by {
        let one = lemma_filter_at(posts, keep, i);
        let left = posts.skip(one + 1);
        assert(left.filter(keep)[j - i - 1] == kept[j]);
        let two = lemma_filter_at(left, keep, j - i - 1);
        assert(left[two] == posts[one + 1 + two]);
    }
}

/// The cursor's ID, where a datable post bears it, stands at the cursor's time.
pub open spec fn cursor_is_true(
    media: Seq<MediaView>,
    cursor_ts: Option<Seq<char>>,
    cursor_id: Option<Seq<char>>,
) -> bool {
    forall|k: int|
        0 <= k < dated(media).len() && Some((#[trigger] dated(media)[k]).id) == cursor_id ==> Some(
            super::select::post_time(dated(media)[k]),
        ) == super::select::cursor_instant(cursor_ts)
}

/// Where the IDs differ and the cursor's post still has its time, forwarding always resumes:
/// the conditions of [`law_forwarding_resumes`] hold wherever the last look stopped.
pub proof fn law_distinct_ids_suffice(
    media: Seq<MediaView>,
    cursor_ts: Option<Seq<char>>,
    cursor_id: Option<Seq<char>>,
    done: int,
)
    requires
        distinct_ids(dated(media)),
        cursor_is_true(media, cursor_ts, cursor_id),
        0 < done <= unsent(media, cursor_ts, cursor_id).len(),
    ensures
        forall|k: int|
            done <= k < unsent(media, cursor_ts, cursor_id).len() ==> (#[trigger] unsent(
                media,
                cursor_ts,
                cursor_id,
            )[k]).id != unsent(media, cursor_ts, cursor_id)[done - 1].id,
        forall|i: int, j: int|
            0 <= i < j < dated(media).len() && #[trigger] dated(media)[i] == unsent(
                media,
                cursor_ts,
                cursor_id,
            )[done - 1] ==> Some((#[trigger] dated(media)[j]).id) != cursor_id,
        unsent(
            media,
            Some(unsent(media, cursor_ts, cursor_id)[done - 1].timestamp),
            Some(unsent(media, cursor_ts, cursor_id)[done - 1].id),
        ) == unsent(media, cursor_ts, cursor_id).skip(done),
{
    let posts = unsent(media, cursor_ts, cursor_id);
    let all = dated(media);
    let at = super::select::cursor_instant(cursor_ts)->0;
    lemma_place(all, cursor_id, at);
    match cursor_place(all, cursor_id, at) {
        Some(place) => {
            let rest = all.skip(place + 1);
            assert forall|i: int, j: int| 0 <= i < j < rest.len() implies (#[trigger] rest[i]).id
                != (#[trigger] rest[j]).id by {
                assert(rest[i] == all[place + 1 + i]);
                assert(rest[j] == all[place + 1 + j]);
            }
            lemma_distinct_filter(rest, is_other(cursor_id));
            let index = lemma_filter_at(rest, is_other(cursor_id), done - 1);
            assert(all[place + 1 + index] == posts[done - 1]);
        },
        None => {
            lemma_new_posts_are_dated(media, cursor_ts, cursor_id, at);
            lemma_distinct_filter(all, super::select::is_fresh(at, cursor_id));
        },
    }
    assert forall|i: int, j: int|
        0 <= i < j < all.len() && #[trigger] all[i] == posts[done - 1] implies Some(
        (#[trigger] all[j]).id,
    ) != cursor_id by {
        if Some(all[j].id) == cursor_id {
            assert(is_cursor_post(all[j], cursor_id, at));
        }
    }
    law_forwarding_resumes(media, cursor_ts, cursor_id, done);
}

} // verus!
