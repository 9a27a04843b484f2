//! Which posts are new: those later than the cursor, oldest first.
use vstd::prelude::*;

use super::media::{Media, MediaView};
use crate::clock::{parse_ts, Instant};
use crate::text::same_text;

verus! {

/// The instant of a post whose time can be read; the start of 1970 for any other.
pub open spec fn post_time(post: MediaView) -> Instant {
    match crate::clock::instant_of(post.timestamp) {
        Some(t) => t,
        None => Instant { secs: 0, nanos: 0 },
    }
}

/// The post has an ID and a time that can be read.
pub open spec fn datable(post: MediaView) -> bool {
    post.id.len() > 0 && crate::clock::instant_of(post.timestamp) is Some
}

/// The post was not forwarded yet: it is datable, later than the cursor, and not the
/// cursor's own post.
pub open spec fn fresh(post: MediaView, cursor: Instant, cursor_id: Option<Seq<char>>) -> bool {
    datable(post) && cursor.before(post_time(post)) && Some(post.id) != cursor_id
}

/// [`fresh`] as a predicate on posts.
pub open spec fn is_fresh(cursor: Instant, cursor_id: Option<Seq<char>>) -> spec_fn(
    MediaView,
) -> bool {
    |post: MediaView| fresh(post, cursor, cursor_id)
}

/// `posts` with `post` put behind the last one that is not later than it.
pub open spec fn put_by_time(posts: Seq<MediaView>, post: MediaView) -> Seq<MediaView>
    decreases posts.len(),
{
    if posts.len() == 0 || !post_time(post).before(post_time(posts.last())) {
        posts.push(post)
    } else {
        put_by_time(posts.drop_last(), post).push(posts.last())
    }
}

/// `posts` from the oldest to the newest; those of the same time keep their order.
pub open spec fn by_time(posts: Seq<MediaView>) -> Seq<MediaView>
    decreases posts.len(),
{
    if posts.len() == 0 {
        Seq::<MediaView>::empty()
    } else {
        put_by_time(by_time(posts.drop_last()), posts.last())
    }
}

/// The instant of the cursor, where it is set and can be read.
pub open spec fn cursor_instant(cursor_ts: Option<Seq<char>>) -> Option<Instant> {
    match cursor_ts {
        Some(ts) => crate::clock::instant_of(ts),
        None => None,
    }
}

/// The posts that were not forwarded yet, oldest first; none without a cursor.
pub open spec fn new_posts(
    media: Seq<MediaView>,
    cursor_ts: Option<Seq<char>>,
    cursor_id: Option<Seq<char>>,
) -> Seq<MediaView> {
    match cursor_instant(cursor_ts) {
        Some(cursor) => by_time(media.filter(is_fresh(cursor, cursor_id))),
        None => Seq::<MediaView>::empty(),
    }
}

/// The newest datable post; of several, the one that stands last.
pub open spec fn newest(media: Seq<MediaView>) -> Option<MediaView>
    decreases media.len(),
{
    if media.len() == 0 {
        None
    } else if !datable(media.last()) {
        newest(media.drop_last())
    } else {
        match newest(media.drop_last()) {
            Some(best) => if post_time(media.last()).before(post_time(best)) {
                Some(best)
            } else {
                Some(media.last())
            },
            None => Some(media.last()),
        }
    }
}

/// The view of an optional post.
pub open spec fn opt_media(post: Option<Media>) -> Option<MediaView> {
    match post {
        Some(m) => Some(m@),
        None => None,
    }
}

/// The instant of a post.
pub(crate) fn time_of(post: &Media) -> (r: Instant)
    ensures
        r == post_time(post@),
{
    match parse_ts(post.timestamp.as_str()) {
        Some(t) => t,
        None => Instant { secs: 0, nanos: 0 },
    }
}

/// Whether a post has an ID and a time that can be read.
pub(crate) fn can_be_dated(post: &Media) -> (r: bool)
    ensures
        r == datable(post@),
{
    !post.id.as_str().is_empty() && parse_ts(post.timestamp.as_str()).is_some()
}

/// Whether a post was not forwarded yet.
fn not_forwarded(post: &Media, cursor: &Instant, cursor_id: Option<&str>) -> (r: bool)
    ensures
        r == fresh(post@, *cursor, crate::text::opt_str(cursor_id)),
{
    if !can_be_dated(post) || !cursor.is_before(&time_of(post)) {
        return false;
    }
    match cursor_id {
        Some(id) => !same_text(post.id.as_str(), id),
        None => true,
    }
}

proof fn lemma_put_by_time_splits(posts: Seq<MediaView>, post: MediaView, at: int)
    requires
        0 <= at <= posts.len(),
        forall|k: int|
            at <= k < posts.len() ==> post_time(post).before(post_time(#[trigger] posts[k])),
        at > 0 ==> !post_time(post).before(post_time(posts[at - 1])),
    ensures
        put_by_time(posts, post) == posts.insert(at, post),
    decreases posts.len(),
{
    if at == posts.len() {
        assert(posts.insert(at, post) == posts.push(post));
    } else {
        let front = posts.drop_last();
        lemma_put_by_time_splits(front, post, at);
        assert(front.insert(at, post).push(posts.last()) == posts.insert(at, post));
    }
}

/// Puts a post behind the last one that is not later than it.
pub(crate) fn put_post(posts: &mut Vec<Media>, post: Media)
    ensures
        super::media::media_views(final(posts)@) == put_by_time(
            super::media::media_views(old(posts)@),
            post@,
        ),
{
    let time: Instant = time_of(&post);
    let mut at: usize = posts.len();
    let ghost views = super::media::media_views(posts@);
    while at > 0 && time.is_before(&time_of(&posts[at - 1]))
        invariant
            at <= posts.len(),
            time == post_time(post@),
            views == super::media::media_views(posts@),
            forall|k: int|
                at <= k < posts.len() ==> post_time(post@).before(post_time(#[trigger] views[k])),
        decreases at,
    {
        assert(views[at - 1] == posts@[at - 1]@);
        at -= 1;
    }
    proof {
        if at > 0 {
            assert(views[at - 1] == posts@[at - 1]@);
        }
        lemma_put_by_time_splits(views, post@, at as int);
    }
    posts.insert(at, post);
    assert(super::media::media_views(posts@) == views.insert(at as int, post@));
}

/// The posts that were not forwarded yet, oldest first; none without a cursor. The time
/// decides, so a cursor whose post was deleted loses and repeats nothing.
pub fn select_new_posts(
    media: &[Media],
    cursor_ts: Option<&str>,
    cursor_id: Option<&str>,
) -> (r: Vec<Media>)
    ensures
        super::media::media_views(r@) == new_posts(
            super::media::media_views(media@),
            crate::text::opt_str(cursor_ts),
            crate::text::opt_str(cursor_id),
        ),
        forall|k: int|
            0 <= k < media@.len() && #[trigger] super::selection_laws::is_later(
                media@[k]@,
                crate::text::opt_str(cursor_ts),
                crate::text::opt_str(cursor_id),
            ) ==> super::media::media_views(r@).contains(media@[k]@),
{
    proof {
        super::selection_laws::lemma_later_posts(
            media@,
            crate::text::opt_str(cursor_ts),
            crate::text::opt_str(cursor_id),
        );
    }
    let mut out: Vec<Media> = Vec::new();
    let ghost views = super::media::media_views(media@);
    assert(super::media::media_views(out@) == Seq::<MediaView>::empty());
    let cursor: Option<Instant> = match cursor_ts {
        Some(ts) => parse_ts(ts),
        None => None,
    };
    let cursor: Instant = match cursor {
        Some(c) => c,
        None => return out,
    };
    let ghost keep = is_fresh(cursor, crate::text::opt_str(cursor_id));
    let mut i: usize = 0;
    proof {
        reveal(Seq::filter);
    }
    assert(views.take(0).filter(keep) == Seq::<MediaView>::empty());
    while i < media.len()
        invariant
            i <= media.len(),
            views == super::media::media_views(media@),
            keep == is_fresh(cursor, crate::text::opt_str(cursor_id)),
            super::media::media_views(out@) == by_time(views.take(i as int).filter(keep)),
        decreases media.len() - i,
    {
        let ghost before = views.take(i as int).filter(keep);
        proof {
            reveal(Seq::filter);
            assert(views.take(i + 1).drop_last() == views.take(i as int));
            assert(views[i as int] == media@[i as int]@);
        }
        if not_forwarded(&media[i], &cursor, cursor_id) {
            put_post(&mut out, media[i].clone());
            assert(before.push(views[i as int]).drop_last() == before);
        }
        i += 1;
    }
    assert(views.take(i as int) == views);
    out
}

/// The newest post whose time can be read; of several, the one that stands last.
pub fn newest_media(media: &[Media]) -> (r: Option<Media>)
    ensures
        opt_media(r) == newest(super::media::media_views(media@)),
{
    let ghost views = super::media::media_views(media@);
    let mut best: Option<usize> = None;
    let mut i: usize = 0;
    while i < media.len()
        invariant
            i <= media.len(),
            views == super::media::media_views(media@),
            best matches Some(b) ==> b < i,
            (match best {
                Some(b) => Some(views[b as int]),
                None => None,
            }) == newest(views.take(i as int)),
        decreases media.len() - i,
    {
        assert(views.take(i + 1).drop_last() == views.take(i as int));
        assert(views[i as int] == media@[i as int]@);
        if can_be_dated(&media[i]) {
            match best {
                Some(b) => {
                    assert(views[b as int] == media@[b as int]@);
                    if !time_of(&media[i]).is_before(&time_of(&media[b])) {
                        best = Some(i);
                    }
                },
                None => {
                    best = Some(i);
                },
            }
        }
        i += 1;
    }
    assert(views.take(i as int) == views);
    match best {
        Some(b) => Some(media[b].clone()),
        None => None,
    }
}

/// The posts stand from the oldest to the newest.
pub open spec fn oldest_first(posts: Seq<MediaView>) -> bool {
    forall|i: int, j: int|
        0 <= i < j < posts.len() ==> !post_time(#[trigger] posts[j]).before(
            post_time(#[trigger] posts[i]),
        )
}

pub(crate) proof fn lemma_put_keeps_order(posts: Seq<MediaView>, post: MediaView)
    requires
        oldest_first(posts),
    ensures
        oldest_first(put_by_time(posts, post)),
        put_by_time(posts, post).to_multiset() == posts.to_multiset().insert(post),
        posts.len() > 0 && post_time(post).before(post_time(posts.last())) ==> put_by_time(
            posts,
            post,
        ).last() == posts.last(),
        !(posts.len() > 0 && post_time(post).before(post_time(posts.last()))) ==> put_by_time(
            posts,
            post,
        ).last() == post,
        put_by_time(posts, post).len() == posts.len() + 1,
    decreases posts.len(),
{
    broadcast use vstd::seq_lib::group_to_multiset_ensures;

    if posts.len() == 0 || !post_time(post).before(post_time(posts.last())) {
        let out = posts.push(post);
        assert forall|i: int, j: int| 0 <= i < j < out.len() implies !post_time(
            #[trigger] out[j],
        ).before(post_time(#[trigger] out[i])) by {
            if j == posts.len() {
                assert(i == posts.len() - 1 || !post_time(posts.last()).before(
                    post_time(posts[i]),
                ));
            }
        }
    } else {
        let front = posts.drop_last();
        lemma_put_keeps_order(front, post);
        let shorter = put_by_time(front, post);
        let out = shorter.push(posts.last());
        assert(front.push(posts.last()) == posts);
        assert(out.to_multiset() == posts.to_multiset().insert(post));
        assert forall|i: int, j: int| 0 <= i < j < out.len() implies !post_time(
            #[trigger] out[j],
        ).before(post_time(#[trigger] out[i])) by {
            if j == shorter.len() {
                let top = shorter.last();
                assert(!post_time(posts.last()).before(post_time(top)));
                assert(i == shorter.len() - 1 || !post_time(top).before(post_time(shorter[i])));
            }
        }
    }
}

pub(crate) proof fn lemma_by_time(posts: Seq<MediaView>)
    ensures
        oldest_first(by_time(posts)),
        by_time(posts).to_multiset() == posts.to_multiset(),
        by_time(posts).len() == posts.len(),
    decreases posts.len(),
{
    broadcast use vstd::seq_lib::group_to_multiset_ensures;

    if posts.len() == 0 {
        assert(by_time(posts) == posts);
    } else {
        lemma_by_time(posts.drop_last());
        lemma_put_keeps_order(by_time(posts.drop_last()), posts.last());
        assert(posts.drop_last().push(posts.last()) == posts);
    }
}

pub(crate) proof fn lemma_filter_push(posts: Seq<MediaView>, post: MediaView, keep: spec_fn(MediaView) -> bool)
    ensures
        posts.push(post).filter(keep) == (if keep(post) {
            posts.filter(keep).push(post)
        } else {
            posts.filter(keep)
        }),
{
    reveal(Seq::filter);
    assert(posts.push(post).drop_last() == posts);
}

proof fn lemma_filter_last(posts: Seq<MediaView>, keep: spec_fn(MediaView) -> bool)
    requires
        posts.filter(keep).len() > 0,
    ensures
        posts.contains(posts.filter(keep).last()),
    decreases posts.len(),
{
    reveal(Seq::filter);
    if posts.len() > 0 {
        if keep(posts.last()) {
            assert(posts.filter(keep).last() == posts[posts.len() - 1]);
        } else {
            lemma_filter_last(posts.drop_last(), keep);
            let at = choose|at: int|
                0 <= at < posts.drop_last().len() && posts.drop_last()[at] == posts.filter(
                    keep,
                ).last();
            assert(posts[at] == posts.filter(keep).last());
        }
    }
}

proof fn lemma_put_filter(posts: Seq<MediaView>, post: MediaView, keep: spec_fn(MediaView) -> bool)
    requires
        oldest_first(posts),
    ensures
        put_by_time(posts, post).filter(keep) == (if keep(post) {
            put_by_time(posts.filter(keep), post)
        } else {
            posts.filter(keep)
        }),
    decreases posts.len(),
{
    if posts.len() == 0 || !post_time(post).before(post_time(posts.last())) {
        lemma_filter_push(posts, post, keep);
        let kept = posts.filter(keep);
        if kept.len() > 0 {
            lemma_filter_last(posts, keep);
            let at = choose|at: int| 0 <= at < posts.len() && posts[at] == kept.last();
            assert(at == posts.len() - 1 || !post_time(posts.last()).before(post_time(posts[at])));
        }
    } else {
        let front = posts.drop_last();
        lemma_put_filter(front, post, keep);
        lemma_filter_push(put_by_time(front, post), posts.last(), keep);
        lemma_filter_push(front, posts.last(), keep);
        assert(front.push(posts.last()) == posts);
        if keep(posts.last()) {
            assert(front.filter(keep).push(posts.last()).drop_last() == front.filter(keep));
        }
    }
}

pub(crate) proof fn lemma_by_time_filter(posts: Seq<MediaView>, keep: spec_fn(MediaView) -> bool)
    ensures
        by_time(posts).filter(keep) == by_time(posts.filter(keep)),
    decreases posts.len(),
{
    reveal(Seq::filter);
    if posts.len() > 0 {
        let front = posts.drop_last();
        lemma_by_time_filter(front, keep);
        lemma_by_time(front);
        lemma_put_filter(by_time(front), posts.last(), keep);
        lemma_filter_push(front, posts.last(), keep);
        assert(front.push(posts.last()) == posts);
        assert(front.filter(keep).push(posts.last()).drop_last() == front.filter(keep));
    }
}

pub(crate) proof fn lemma_filter_contains(
    posts: Seq<MediaView>,
    keep: spec_fn(MediaView) -> bool,
    post: MediaView,
)
    ensures
        posts.filter(keep).contains(post) <==> posts.contains(post) && keep(post),
    decreases posts.len(),
{
    reveal(Seq::filter);
    if posts.len() > 0 {
        let front = posts.drop_last();
        lemma_filter_contains(front, keep, post);
        lemma_push_contains(front, posts.last(), post);
        lemma_push_contains(front.filter(keep), posts.last(), post);
        assert(front.push(posts.last()) == posts);
    }
}

proof fn lemma_push_contains(posts: Seq<MediaView>, last: MediaView, post: MediaView)
    ensures
        posts.push(last).contains(post) <==> posts.contains(post) || last == post,
{
    let more = posts.push(last);
    if posts.contains(post) {
        let at = choose|at: int| 0 <= at < posts.len() && posts[at] == post;
        assert(more[at] == post);
    }
    if last == post {
        assert(more[posts.len() as int] == post);
    }
}

/// A post is selected exactly where it stands in the list and was not forwarded yet, as
/// often as it stands there.
pub proof fn law_selects_exactly_the_fresh_posts(
    media: Seq<MediaView>,
    cursor_ts: Option<Seq<char>>,
    cursor_id: Option<Seq<char>>,
    cursor: Instant,
    post: MediaView,
)
    requires
        cursor_instant(cursor_ts) == Some(cursor),
    ensures
        new_posts(media, cursor_ts, cursor_id).contains(post) <==> media.contains(post) && fresh(
            post,
            cursor,
            cursor_id,
        ),
        new_posts(media, cursor_ts, cursor_id).to_multiset() == media.filter(
            is_fresh(cursor, cursor_id),
        ).to_multiset(),
{
    broadcast use vstd::seq_lib::group_to_multiset_ensures;

    let kept = media.filter(is_fresh(cursor, cursor_id));
    lemma_by_time(kept);
    lemma_filter_contains(media, is_fresh(cursor, cursor_id), post);
    assert(by_time(kept).contains(post) <==> by_time(kept).to_multiset().count(post) > 0);
    assert(kept.contains(post) <==> kept.to_multiset().count(post) > 0);
}

/// The selected posts stand from the oldest to the newest.
pub proof fn law_selection_is_oldest_first(
    media: Seq<MediaView>,
    cursor_ts: Option<Seq<char>>,
    cursor_id: Option<Seq<char>>,
)
    ensures
        oldest_first(new_posts(media, cursor_ts, cursor_id)),
{
    if let Some(cursor) = cursor_instant(cursor_ts) {
        lemma_by_time(media.filter(is_fresh(cursor, cursor_id)));
    }
}

/// Posts of the same time, as `at`.
pub open spec fn posted_at(at: Instant) -> spec_fn(MediaView) -> bool {
    |post: MediaView| post_time(post) == at
}

/// Posts of the same time are selected in the order in which they stand in the list.
pub proof fn law_selection_is_stable(
    media: Seq<MediaView>,
    cursor_ts: Option<Seq<char>>,
    cursor_id: Option<Seq<char>>,
    cursor: Instant,
    at: Instant,
)
    requires
        cursor_instant(cursor_ts) == Some(cursor),
    ensures
        new_posts(media, cursor_ts, cursor_id).filter(posted_at(at)) == media.filter(
            is_fresh(cursor, cursor_id),
        ).filter(posted_at(at)),
{
    let kept = media.filter(is_fresh(cursor, cursor_id));
    lemma_by_time_filter(kept, posted_at(at));
    lemma_same_time_unsorted(kept, at);
}

pub(crate) proof fn lemma_same_time_unsorted(posts: Seq<MediaView>, at: Instant)
    ensures
        by_time(posts.filter(posted_at(at))) == posts.filter(posted_at(at)),
    decreases posts.len(),
{
    reveal(Seq::filter);
    if posts.len() > 0 {
        let front = posts.drop_last();
        let kept = front.filter(posted_at(at));
        lemma_same_time_unsorted(front, at);
        if post_time(posts.last()) == at {
            assert(kept.push(posts.last()).drop_last() == kept);
            if kept.len() > 0 {
                lemma_filter_contains(front, posted_at(at), kept.last());
                assert(kept[kept.len() - 1] == kept.last());
            }
        }
    }
}

/// Without a cursor that can be read nothing is selected.
pub proof fn law_no_cursor_selects_nothing(
    media: Seq<MediaView>,
    cursor_ts: Option<Seq<char>>,
    cursor_id: Option<Seq<char>>,
)
    requires
        cursor_instant(cursor_ts) is None,
    ensures
        new_posts(media, cursor_ts, cursor_id).len() == 0,
{
}

/// A post that counts as forwarded, such as the cursor's own, may be deleted from the list
/// or not: the selection is the same.
pub proof fn law_deleted_post_changes_nothing(
    before: Seq<MediaView>,
    gone: MediaView,
    after: Seq<MediaView>,
    cursor_ts: Option<Seq<char>>,
    cursor_id: Option<Seq<char>>,
)
    requires
        cursor_instant(cursor_ts) matches Some(cursor) ==> !fresh(gone, cursor, cursor_id),
    ensures
        new_posts(before.push(gone) + after, cursor_ts, cursor_id) == new_posts(
            before + after,
            cursor_ts,
            cursor_id,
        ),
{
    if let Some(cursor) = cursor_instant(cursor_ts) {
        let keep = is_fresh(cursor, cursor_id);
        Seq::filter_distributes_over_add(before.push(gone), after, keep);
        Seq::filter_distributes_over_add(before, after, keep);
        lemma_filter_push(before, gone, keep);
    }
}

pub(crate) proof fn lemma_filter_twice(
    posts: Seq<MediaView>,
    one: spec_fn(MediaView) -> bool,
    two: spec_fn(MediaView) -> bool,
    both: spec_fn(MediaView) -> bool,
)
    requires
        forall|k: int|
            0 <= k < posts.len() ==> (both(#[trigger] posts[k]) <==> one(posts[k]) && two(posts[k])),
    ensures
        posts.filter(one).filter(two) == posts.filter(both),
    decreases posts.len(),
{
    reveal(Seq::filter);
    if posts.len() > 0 {
        let front = posts.drop_last();
        assert forall|k: int| 0 <= k < front.len() implies (both(#[trigger] front[k]) <==> one(
            front[k],
        ) && two(front[k])) by {
            assert(front[k] == posts[k]);
        }
        lemma_filter_twice(front, one, two, both);
        lemma_filter_push(front.filter(one), posts.last(), two);
        assert(posts.last() == posts[posts.len() - 1]);
    }
}

/// The newest post is one of the list, can be dated, and no post that can be dated is
/// later; there is none exactly where no post can be dated.
pub proof fn law_newest_is_latest(media: Seq<MediaView>)
    ensures
        newest(media) is Some <==> exists|k: int| 0 <= k < media.len() && datable(media[k]),
        newest(media) matches Some(best) ==> media.contains(best) && datable(best) && forall|k: int|
            0 <= k < media.len() && datable(#[trigger] media[k]) ==> !post_time(best).before(
                post_time(media[k]),
            ),
    decreases media.len(),
{
    if media.len() > 0 {
        let front = media.drop_last();
        law_newest_is_latest(front);
        assert(front.push(media.last()) == media);
        assert(media.last() == media[media.len() - 1]);
        if let Some(best) = newest(front) {
            lemma_push_contains(front, media.last(), best);
        }
        lemma_push_contains(front, media.last(), media.last());
        assert forall|k: int| 0 <= k < media.len() - 1 implies media[k] == #[trigger] front[k] by {}
        assert((exists|k: int| 0 <= k < media.len() && datable(media[k])) ==> datable(
            media.last(),
        ) || exists|k: int| 0 <= k < front.len() && datable(front[k])) by {
            if exists|k: int| 0 <= k < media.len() && datable(media[k]) {
                let k = choose|k: int| 0 <= k < media.len() && datable(media[k]);
                if k < front.len() {
                    assert(datable(front[k]));
                }
            }
        }
        if let Some(best) = newest(media) {
            assert forall|k: int| 0 <= k < media.len() && datable(#[trigger] media[k]) implies
                !post_time(best).before(post_time(media[k])) by {
                if k < front.len() {
                    assert(front[k] == media[k]);
                }
            }
        }
    }
}

} // verus!
