//! What holds of every look for new posts, whatever comes of the single actions.
use vstd::prelude::*;

use super::account::AccountView;
use super::media::MediaView;
use super::poll::{ActionView, CursorView, EventView, FeedPollView, PhaseView};
use super::settings::SettingsView;
use crate::clock::Instant;
use crate::notifier::NotificationView;

verus! {

/// The actions of a look that is fed the given events, each with the time it comes at.
pub open spec fn actions_of(
    cfg: SettingsView,
    poll: FeedPollView,
    inputs: Seq<(EventView, Instant)>,
) -> Seq<ActionView>
    decreases inputs.len(),
{
    if inputs.len() == 0 {
        Seq::<ActionView>::empty()
    } else {
        let (event, now) = inputs.first();
        seq![super::poll::follow(cfg, poll, event, now).1] + actions_of(
            cfg,
            super::poll::next_poll(cfg, poll, event, now),
            inputs.drop_first(),
        )
    }
}

/// The notifications that a sequence of actions sends, in order.
pub open spec fn sent_by(actions: Seq<ActionView>) -> Seq<NotificationView>
    decreases actions.len(),
{
    if actions.len() == 0 {
        Seq::<NotificationView>::empty()
    } else {
        match actions.first() {
            ActionView::Send(notice) => seq![notice] + sent_by(actions.drop_first()),
            _ => sent_by(actions.drop_first()),
        }
    }
}

/// The posts that a sequence of actions moves the cursor to, as ID and time, in order.
pub open spec fn cursors_set_by(actions: Seq<ActionView>) -> Seq<(Seq<char>, Seq<char>)>
    decreases actions.len(),
{
    if actions.len() == 0 {
        Seq::<(Seq<char>, Seq<char>)>::empty()
    } else {
        match actions.first() {
            ActionView::SaveCursor { post_id, timestamp } => seq![(post_id, timestamp)]
                + cursors_set_by(actions.drop_first()),
            _ => cursors_set_by(actions.drop_first()),
        }
    }
}

/// The notifications for a list of posts.
pub open spec fn notices(cfg: SettingsView, posts: Seq<MediaView>) -> Seq<NotificationView> {
    posts.map_values(|p: MediaView| super::poll::post_notice(cfg, p))
}

/// The cursors on a list of posts, as ID and time.
pub open spec fn cursor_marks(posts: Seq<MediaView>) -> Seq<(Seq<char>, Seq<char>)> {
    posts.map_values(|p: MediaView| (p.id, p.timestamp))
}

/// How many steps a look can still take.
pub open spec fn steps_left(phase: PhaseView) -> nat {
    match phase {
        PhaseView::Seeking => 22,
        PhaseView::Exchanging => 21,
        PhaseView::Enrolling => 20,
        PhaseView::Examining => 19,
        PhaseView::Unlocking => 18,
        PhaseView::Refreshing => 17,
        PhaseView::Renewing => 16,
        PhaseView::Reloading => 15,
        PhaseView::Opening(_) => 14,
        PhaseView::Fetching(_) => 13,
        PhaseView::Noting(_, _) => 12,
        PhaseView::Anchoring => 1,
        PhaseView::Sending(posts) => 2 * posts.len() + 1,
        PhaseView::Advancing(posts) => 2 * posts.len() + 2,
        PhaseView::Done => 0,
    }
}

/// How many notifications a look can still send.
pub open spec fn sends_left(phase: PhaseView) -> nat {
    match phase {
        PhaseView::Sending(posts) => if posts.len() == 0 {
            0
        } else {
            (posts.len() - 1) as nat
        },
        PhaseView::Advancing(posts) => posts.len(),
        PhaseView::Anchoring => 0,
        PhaseView::Done => 0,
        _ => super::poll::MAX_POSTS_PER_TICK as nat,
    }
}

pub(crate) proof fn lemma_first_action(
    cfg: SettingsView,
    poll: FeedPollView,
    inputs: Seq<(EventView, Instant)>,
)
    requires
        inputs.len() > 0,
    ensures
        ({
            let (event, now) = inputs.first();
            let actions = actions_of(cfg, poll, inputs);
            &&& actions.len() > 0
            &&& actions.first() == super::poll::follow(cfg, poll, event, now).1
            &&& actions.drop_first() == actions_of(
                cfg,
                super::poll::next_poll(cfg, poll, event, now),
                inputs.drop_first(),
            )
        }),
{
    let (event, now) = inputs.first();
    let rest = actions_of(
        cfg,
        super::poll::next_poll(cfg, poll, event, now),
        inputs.drop_first(),
    );
    assert((seq![super::poll::follow(cfg, poll, event, now).1] + rest).drop_first() == rest);
}

/// A look ends: every event brings it nearer to its end, until it is done.
pub proof fn law_look_ends(cfg: SettingsView, poll: FeedPollView, event: EventView, now: Instant)
    requires
        poll.phase !is Done,
    ensures
        steps_left(super::poll::next_poll(cfg, poll, event, now).phase) < steps_left(poll.phase),
{
}

/// A look that is done asks for nothing more.
pub proof fn law_done_is_done(cfg: SettingsView, poll: FeedPollView, event: EventView, now: Instant)
    requires
        poll.phase is Done,
    ensures
        super::poll::next_poll(cfg, poll, event, now).phase is Done,
        super::poll::follow(cfg, poll, event, now).1 is Finish,
{
}

/// A look sends no more notifications than its phase has left.
pub proof fn law_sends_are_counted(
    cfg: SettingsView,
    poll: FeedPollView,
    inputs: Seq<(EventView, Instant)>,
)
    ensures
        sent_by(actions_of(cfg, poll, inputs)).len() <= sends_left(poll.phase),
    decreases inputs.len(),
{
    if inputs.len() > 0 {
        let (event, now) = inputs.first();
        lemma_first_action(cfg, poll, inputs);
        law_sends_are_counted(
            cfg,
            super::poll::next_poll(cfg, poll, event, now),
            inputs.drop_first(),
        );
    }
}

/// One look floods nobody: from its start it sends at most
/// [`MAX_POSTS_PER_TICK`](super::poll::MAX_POSTS_PER_TICK) notifications.
pub proof fn law_look_sends_few(
    cfg: SettingsView,
    last_attempt: Option<Instant>,
    inputs: Seq<(EventView, Instant)>,
)
    ensures
        sent_by(
            actions_of(cfg, FeedPollView { phase: PhaseView::Seeking, last_attempt }, inputs),
        ).len() <= super::poll::MAX_POSTS_PER_TICK,
{
    law_sends_are_counted(cfg, FeedPollView { phase: PhaseView::Seeking, last_attempt }, inputs);
}

/// The cursor moves only to the post that was just delivered, or, where there was no cursor
/// yet, to the newest post.
pub proof fn law_cursor_follows_delivery(
    cfg: SettingsView,
    poll: FeedPollView,
    event: EventView,
    now: Instant,
)
    requires
        super::poll::follow(cfg, poll, event, now).1 is SaveCursor,
    ensures
        ({
            let action = super::poll::follow(cfg, poll, event, now).1;
            ||| (poll.phase matches PhaseView::Sending(posts) && posts.len() > 0 && event
                == EventView::Delivered(true) && action == super::poll::cursor_at(posts[0]))
            ||| (poll.phase matches PhaseView::Noting(cursor, media) && cursor.timestamp is None
                && (super::select::newest(media) matches Some(newest) && action
                == super::poll::cursor_at(newest)))
        }),
{
}

/// A delivery that failed ends the look and leaves the cursor alone.
pub proof fn law_failed_delivery_stops(
    cfg: SettingsView,
    posts: Seq<MediaView>,
    last_attempt: Option<Instant>,
    now: Instant,
    inputs: Seq<(EventView, Instant)>,
)
    requires
        inputs.len() > 0,
        inputs.first() == (EventView::Delivered(false), now),
    ensures
        ({
            let poll = FeedPollView { phase: PhaseView::Sending(posts), last_attempt };
            &&& sent_by(actions_of(cfg, poll, inputs)).len() == 0
            &&& cursors_set_by(actions_of(cfg, poll, inputs)).len() == 0
        }),
{
    let poll = FeedPollView { phase: PhaseView::Sending(posts), last_attempt };
    lemma_first_action(cfg, poll, inputs);
    lemma_done_is_silent(
        cfg,
        super::poll::next_poll(cfg, poll, EventView::Delivered(false), now),
        inputs.drop_first(),
    );
}

proof fn lemma_done_is_silent(
    cfg: SettingsView,
    poll: FeedPollView,
    inputs: Seq<(EventView, Instant)>,
)
    requires
        poll.phase is Done || poll.phase is Anchoring,
    ensures
        sent_by(actions_of(cfg, poll, inputs)).len() == 0,
        cursors_set_by(actions_of(cfg, poll, inputs)).len() == 0,
    decreases inputs.len(),
{
    if inputs.len() > 0 {
        let (event, now) = inputs.first();
        lemma_first_action(cfg, poll, inputs);
        lemma_done_is_silent(
            cfg,
            super::poll::next_poll(cfg, poll, event, now),
            inputs.drop_first(),
        );
    }
}

/// A look that finds no cursor forwards nothing and sets at most the first cursor, on the
/// newest post.
pub proof fn law_first_look_forwards_nothing(
    cfg: SettingsView,
    cursor: CursorView,
    media: Seq<MediaView>,
    last_attempt: Option<Instant>,
    inputs: Seq<(EventView, Instant)>,
)
    requires
        cursor.timestamp is None,
    ensures
        ({
            let poll = FeedPollView { phase: PhaseView::Noting(cursor, media), last_attempt };
            let marks = cursors_set_by(actions_of(cfg, poll, inputs));
            &&& sent_by(actions_of(cfg, poll, inputs)).len() == 0
            &&& marks.len() <= 1
            &&& marks.len() == 1 ==> (super::select::newest(media) matches Some(newest)
                && marks[0] == (newest.id, newest.timestamp))
        }),
{
    let poll = FeedPollView { phase: PhaseView::Noting(cursor, media), last_attempt };
    if inputs.len() > 0 {
        let (event, now) = inputs.first();
        lemma_first_action(cfg, poll, inputs);
        lemma_done_is_silent(
            cfg,
            super::poll::next_poll(cfg, poll, event, now),
            inputs.drop_first(),
        );
    }
}

/// The notifications are those of a beginning of `posts`, in order, and the cursor was set to
/// each of these posts, the last one perhaps left out.
pub open spec fn in_step(
    cfg: SettingsView,
    posts: Seq<MediaView>,
    sent: Seq<NotificationView>,
    marks: Seq<(Seq<char>, Seq<char>)>,
) -> bool {
    &&& sent.len() <= posts.len()
    &&& sent == notices(cfg, posts).take(sent.len() as int)
    &&& marks.len() <= sent.len() <= marks.len() + 1
    &&& marks == cursor_marks(posts).take(marks.len() as int)
}

proof fn lemma_posts_go_out_in_order(
    cfg: SettingsView,
    posts: Seq<MediaView>,
    last_attempt: Option<Instant>,
    inputs: Seq<(EventView, Instant)>,
)
    ensures
        ({
            let poll = FeedPollView { phase: PhaseView::Advancing(posts), last_attempt };
            let actions = actions_of(cfg, poll, inputs);
            in_step(cfg, posts, sent_by(actions), cursors_set_by(actions))
        }),
        posts.len() > 0 ==> ({
            let poll = FeedPollView { phase: PhaseView::Sending(posts), last_attempt };
            let actions = actions_of(cfg, poll, inputs);
            in_step(
                cfg,
                posts,
                seq![super::poll::post_notice(cfg, posts[0])] + sent_by(actions),
                cursors_set_by(actions),
            )
        }),
    decreases inputs.len(), posts.len(),
{
    let all = notices(cfg, posts);
    let marks = cursor_marks(posts);
    let nothing = Seq::<NotificationView>::empty();
    let unmoved = Seq::<(Seq<char>, Seq<char>)>::empty();
    let waiting = FeedPollView { phase: PhaseView::Advancing(posts), last_attempt };
    let sending = FeedPollView { phase: PhaseView::Sending(posts), last_attempt };
    assert(all.take(0) == nothing);
    assert(marks.take(0) == unmoved);
    assert(in_step(cfg, posts, nothing, unmoved));
    if posts.len() > 0 {
        let head = seq![super::poll::post_notice(cfg, posts[0])];
        assert(all.take(1) == head);
        assert(head + nothing == head);
        assert(in_step(cfg, posts, head + nothing, unmoved));
    }
    if inputs.len() > 0 {
        let (event, now) = inputs.first();
        let rest = inputs.drop_first();
        lemma_first_action(cfg, waiting, inputs);
        lemma_first_action(cfg, sending, inputs);
        let after_waiting = super::poll::next_poll(cfg, waiting, event, now);
        let after_sending = super::poll::next_poll(cfg, sending, event, now);
        if event is Stored && posts.len() > 0 {
            lemma_posts_go_out_in_order(cfg, posts, last_attempt, rest);
            assert(after_waiting == sending);
        } else {
            lemma_done_is_silent(cfg, after_waiting, rest);
            assert(sent_by(actions_of(cfg, waiting, inputs)) == nothing);
            assert(cursors_set_by(actions_of(cfg, waiting, inputs)) == unmoved);
        }
        if posts.len() > 0 {
            let head = seq![super::poll::post_notice(cfg, posts[0])];
            let tail = posts.drop_first();
            if event == EventView::Delivered(true) {
                lemma_posts_go_out_in_order(cfg, tail, last_attempt, rest);
                let later = actions_of(cfg, after_sending, rest);
                assert(after_sending == (FeedPollView {
                    phase: PhaseView::Advancing(tail),
                    last_attempt,
                }));
                let sent = sent_by(later);
                let moved = cursors_set_by(later);
                assert(notices(cfg, tail) == all.drop_first());
                assert(cursor_marks(tail) == marks.drop_first());
                assert(head + sent == all.take(1 + sent.len() as int));
                assert(seq![(posts[0].id, posts[0].timestamp)] + moved == marks.take(
                    1 + moved.len() as int,
                ));
            } else {
                lemma_done_is_silent(cfg, after_sending, rest);
                assert(sent_by(actions_of(cfg, sending, inputs)) == nothing);
                assert(cursors_set_by(actions_of(cfg, sending, inputs)) == unmoved);
            }
        }
    } else {
        assert(sent_by(actions_of(cfg, waiting, inputs)) == nothing);
        assert(cursors_set_by(actions_of(cfg, waiting, inputs)) == unmoved);
        assert(sent_by(actions_of(cfg, sending, inputs)) == nothing);
        assert(cursors_set_by(actions_of(cfg, sending, inputs)) == unmoved);
    }
}

/// Whatever happens on the way, a look that found a cursor sends a beginning of its batch in
/// order, and the cursor runs behind it: it has been set to each post that was sent, except
/// that the last one may still be open or have failed.
pub proof fn law_posts_go_out_in_order(
    cfg: SettingsView,
    cursor: CursorView,
    media: Seq<MediaView>,
    last_attempt: Option<Instant>,
    inputs: Seq<(EventView, Instant)>,
)
    requires
        cursor.timestamp is Some,
    ensures
        ({
            let poll = FeedPollView { phase: PhaseView::Noting(cursor, media), last_attempt };
            let actions = actions_of(cfg, poll, inputs);
            in_step(
                cfg,
                super::poll::batch(media, cursor),
                sent_by(actions),
                cursors_set_by(actions),
            )
        }),
{
    let poll = FeedPollView { phase: PhaseView::Noting(cursor, media), last_attempt };
    let posts = super::poll::batch(media, cursor);
    assert(notices(cfg, posts).take(0) == Seq::<NotificationView>::empty());
    assert(cursor_marks(posts).take(0) == Seq::<(Seq<char>, Seq<char>)>::empty());
    if inputs.len() > 0 {
        let (event, now) = inputs.first();
        let rest = inputs.drop_first();
        lemma_first_action(cfg, poll, inputs);
        let after = super::poll::next_poll(cfg, poll, event, now);
        if event is Stored && posts.len() > 0 {
            lemma_posts_go_out_in_order(cfg, posts, last_attempt, rest);
            assert(after == (FeedPollView { phase: PhaseView::Sending(posts), last_attempt }));
        } else {
            lemma_done_is_silent(cfg, after, rest);
            assert(sent_by(actions_of(cfg, poll, inputs)) == Seq::<NotificationView>::empty());
            assert(cursors_set_by(actions_of(cfg, poll, inputs))
                == Seq::<(Seq<char>, Seq<char>)>::empty());
        }
    }
}

/// The next look takes up where the last one stopped, after a failure as after the limit: once
/// the first `done` unsent posts are forwarded and the link's cursor was moved to the last of
/// them, the next batch is the beginning of exactly those that are left.
///
/// It holds under the conditions of
/// [`law_forwarding_resumes`](super::unsent::law_forwarding_resumes); posts of one time are no
/// exception.
pub proof fn law_next_look_takes_up(media: Seq<MediaView>, row: AccountView, done: int)
    requires
        ({
            let cursor = super::poll::cursor_of(row);
            let posts = super::unsent::unsent(media, cursor.timestamp, cursor.post_id);
            let all = super::unsent::dated(media);
            &&& 0 < done <= posts.len()
            &&& forall|k: int|
                done <= k < posts.len() ==> (#[trigger] posts[k]).id != posts[done - 1].id
            &&& forall|i: int, j: int|
                0 <= i < j < all.len() && #[trigger] all[i] == posts[done - 1] ==> Some(
                    (#[trigger] all[j]).id,
                ) != cursor.post_id
        }),
    ensures
        ({
            let cursor = super::poll::cursor_of(row);
            let posts = super::unsent::unsent(media, cursor.timestamp, cursor.post_id);
            let sent = posts[done - 1];
            let moved = super::account::cursor_moved(row, sent.id, sent.timestamp);
            let left = posts.skip(done);
            super::poll::batch(media, super::poll::cursor_of(moved)) == if left.len()
                <= super::poll::MAX_POSTS_PER_TICK {
                left
            } else {
                left.take(super::poll::MAX_POSTS_PER_TICK as int)
            }
        }),
{
    let cursor = super::poll::cursor_of(row);
    super::unsent::law_forwarding_resumes(media, cursor.timestamp, cursor.post_id, done);
}

/// The stored link after cursor moves: its cursor stands on the last of them.
pub open spec fn row_after(row: AccountView, marks: Seq<(Seq<char>, Seq<char>)>) -> AccountView {
    if marks.len() == 0 {
        row
    } else {
        super::account::cursor_moved(row, marks.last().0, marks.last().1)
    }
}

/// Two looks lose nothing and repeat nothing that the cursor was moved past. Whatever happens
/// in the first (a refused delivery, the limit, a failed write), the second finds, in the same
/// list, exactly the unsent posts behind those that the first has set the cursor to.
pub proof fn law_two_looks_lose_nothing(
    cfg: SettingsView,
    row: AccountView,
    media: Seq<MediaView>,
    last_attempt: Option<Instant>,
    inputs: Seq<(EventView, Instant)>,
)
    requires
        row.last_post_timestamp is Some,
        super::unsent::distinct_ids(super::unsent::dated(media)),
        super::unsent::cursor_is_true(media, row.last_post_timestamp, row.last_post_id),
    ensures
        ({
            let cursor = super::poll::cursor_of(row);
            let poll = FeedPollView { phase: PhaseView::Noting(cursor, media), last_attempt };
            let marks = cursors_set_by(actions_of(cfg, poll, inputs));
            let after = super::poll::cursor_of(row_after(row, marks));
            let posts = super::unsent::unsent(media, cursor.timestamp, cursor.post_id);
            &&& marks.len() <= posts.len()
            &&& marks == cursor_marks(posts).take(marks.len() as int)
            &&& super::unsent::unsent(media, after.timestamp, after.post_id) == posts.skip(
                marks.len() as int,
            )
        }),
{
    let cursor = super::poll::cursor_of(row);
    let poll = FeedPollView { phase: PhaseView::Noting(cursor, media), last_attempt };
    let marks = cursors_set_by(actions_of(cfg, poll, inputs));
    let posts = super::unsent::unsent(media, cursor.timestamp, cursor.post_id);
    law_posts_go_out_in_order(cfg, cursor, media, last_attempt, inputs);
    let done = marks.len() as int;
    let part = super::poll::batch(media, cursor);
    assert(cursor_marks(part).take(done) == cursor_marks(posts).take(done));
    if done == 0 {
        assert(posts.skip(0) == posts);
    } else {
        super::unsent::law_distinct_ids_suffice(media, cursor.timestamp, cursor.post_id, done);
        assert(marks.last() == cursor_marks(posts)[done - 1]);
    }
}

/// A token that is not due is not renewed: the look reads the link again and goes on, with no
/// request and nothing stored. Such is a token without a known expiry within a day of being
/// stored.
pub proof fn law_fresh_token_causes_no_request(
    cfg: SettingsView,
    row: AccountView,
    stored: Instant,
    now: Instant,
    last_attempt: Option<Instant>,
)
    requires
        super::account::stored_instant(row.token_expires_at) is None,
        super::account::stored_instant(row.last_refreshed_at) == Some(stored),
        now.nanos_from(stored) <= super::account::REFRESH_MIN_AGE,
    ensures
        ({
            let poll = FeedPollView { phase: PhaseView::Examining, last_attempt };
            &&& super::poll::follow(cfg, poll, EventView::Loaded(Some(row)), now) == (
                PhaseView::Reloading,
                ActionView::LoadAccount,
            )
            &&& super::poll::next_poll(cfg, poll, EventView::Loaded(Some(row)), now).last_attempt
                == last_attempt
        }),
{
}

proof fn lemma_joined_begins(lines: Seq<Seq<char>>, sep: Seq<char>)
    requires
        lines.len() > 0,
        lines[0].len() > 0,
    ensures
        crate::text::joined(lines, sep).len() > 0,
        crate::text::joined(lines, sep)[0] == lines[0][0],
    decreases lines.len(),
{
    if lines.len() > 1 {
        lemma_joined_begins(lines.drop_last(), sep);
    }
}

proof fn lemma_trim_end_keeps_first(s: Seq<char>)
    requires
        s.len() > 0,
        !crate::text::is_white_space(s[0]),
    ensures
        crate::text::trim_end(s).len() > 0,
    decreases s.len(),
{
    if s.len() > 1 && crate::text::is_white_space(s.last()) {
        lemma_trim_end_keeps_first(s.drop_last());
    }
}

/// The messenger never refuses the message of a post as blank, so no post can hold up the
/// ones behind it for that reason.
pub proof fn law_post_notice_is_deliverable(cfg: SettingsView, post: MediaView)
    ensures
        crate::notify_bridge::deliverable(super::poll::post_notice(cfg, post)),
{
    reveal_strlit("📸 新規投稿を1件確認しました。");
    let lines = super::media::post_lines(post);
    assert(lines[0] == super::media::HEADER_LINE@);
    lemma_joined_begins(lines, "\n"@);
    lemma_trim_end_keeps_first(super::media::rendered(post));
}

} // verus!
