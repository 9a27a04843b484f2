//! What each step of a look for new posts does, and what runs of steps come to.
use vstd::prelude::*;

use super::account::AccountView;
use super::graph::GraphOutcomeView;
use super::media::MediaView;
use super::poll::{
    Action, ActionView, Cursor, CursorView, Event, EventView, FeedPoll, FeedPollView, Phase,
    PhaseView, Remark, RemarkView,
};
use super::settings::SettingsView;
use crate::clock::Instant;
use crate::db::{DbError, DbErrorView};
use crate::json::Json;
use crate::notifier::{NotificationView, NotifyTargetView};

verus! {

/// At `poll`, the event leads to this phase and action, with this remark.
pub open spec fn leads_to(
    cfg: SettingsView,
    poll: FeedPollView,
    event: EventView,
    now: Instant,
    phase: PhaseView,
    action: ActionView,
    remark: Option<RemarkView>,
) -> bool {
    &&& super::poll::next_poll(cfg, poll, event, now).phase == phase
    &&& super::poll::follow(cfg, poll, event, now) == (phase, action)
    &&& super::poll::remark_on(cfg, poll.phase, event) == remark
}

/// At `poll`, the event ends the look without an error.
pub open spec fn ends(
    cfg: SettingsView,
    poll: FeedPollView,
    event: EventView,
    now: Instant,
    remark: Option<RemarkView>,
) -> bool {
    leads_to(cfg, poll, event, now, PhaseView::Done, ActionView::Finish(None), remark)
}

/// A stored link is taken up as it is: whatever token and secret are configured, nothing is
/// exchanged and nothing stored, and the link is read to be examined.
pub proof fn law_stored_link_is_taken_up(
    cfg: SettingsView,
    last_attempt: Option<Instant>,
    row: AccountView,
    now: Instant,
)
    ensures
        leads_to(
            cfg,
            FeedPollView { phase: PhaseView::Seeking, last_attempt },
            EventView::Loaded(Some(row)),
            now,
            PhaseView::Examining,
            ActionView::LoadAccount,
            None,
        ),
{
}

/// The phase lies behind the making of a link.
pub open spec fn is_linked(phase: PhaseView) -> bool {
    !(phase is Seeking) && !(phase is Exchanging) && !(phase is Enrolling)
}

/// The event is an answer of success that brings this token.
pub open spec fn brings_token(event: EventView, token: Seq<char>) -> bool {
    event matches EventView::Replied(outcome) && (outcome matches GraphOutcomeView::Answered {
        success,
        body,
    } && success && body.text_member("access_token"@) == Some(token))
}

/// The action, which answers the event, neither exchanges a token nor stores one that the
/// event does not bring.
pub open spec fn keeps_the_link(action: ActionView, event: EventView) -> bool {
    &&& action matches ActionView::Call(request) ==> request.path != "/access_token"@
    &&& action matches ActionView::SaveToken { token, .. } ==> brings_token(event, token)
}

proof fn lemma_linked_look(
    cfg: SettingsView,
    poll: FeedPollView,
    inputs: Seq<(EventView, Instant)>,
    k: int,
)
    requires
        is_linked(poll.phase),
        0 <= k < inputs.len(),
    ensures
        super::poll_laws::actions_of(cfg, poll, inputs).len() == inputs.len(),
        keeps_the_link(super::poll_laws::actions_of(cfg, poll, inputs)[k], inputs[k].0),
    decreases inputs.len(),
{
    let (event, now) = inputs.first();
    let next = super::poll::next_poll(cfg, poll, event, now);
    let rest = inputs.drop_first();
    super::poll_laws::lemma_first_action(cfg, poll, inputs);
    let actions = super::poll_laws::actions_of(cfg, poll, inputs);
    super::graph_laws::law_paths_differ(Seq::<char>::empty(), Seq::<char>::empty());
    assert(is_linked(next.phase));
    assert(keeps_the_link(super::poll::follow(cfg, poll, event, now).1, event));
    if rest.len() > 0 {
        lemma_linked_look(cfg, next, rest, if k > 0 {
            k - 1
        } else {
            0
        });
        assert(actions.drop_first().len() == rest.len());
        if k > 0 {
            assert(actions[k] == actions.drop_first()[k - 1]);
            assert(inputs[k] == rest[k - 1]);
        }
    } else {
        assert(super::poll_laws::actions_of(cfg, next, rest).len() == 0);
    }
}

/// A look that finds a stored link never makes it anew. Whatever happens on the way and
/// whatever is configured, no action is a call that exchanges a token, and a token is stored
/// only where the answer just before brought it: so the configured one is not.
pub proof fn law_stored_link_is_never_made_anew(
    cfg: SettingsView,
    last_attempt: Option<Instant>,
    row: AccountView,
    inputs: Seq<(EventView, Instant)>,
    k: int,
)
    requires
        0 <= k < inputs.len(),
        inputs[0].0 == EventView::Loaded(Some(row)),
    ensures
        ({
            let poll = FeedPollView { phase: PhaseView::Seeking, last_attempt };
            let actions = super::poll_laws::actions_of(cfg, poll, inputs);
            &&& actions.len() == inputs.len()
            &&& actions[k] matches ActionView::Call(request) ==> request.path != "/access_token"@
            &&& actions[k] matches ActionView::SaveToken { token, .. } ==> brings_token(
                inputs[k].0,
                token,
            )
            &&& actions[k] matches ActionView::SaveToken { token, .. } ==> (cfg.seed_token
                matches Some(seed) ==> (!brings_token(inputs[k].0, seed) ==> token != seed))
        }),
{
    let poll = FeedPollView { phase: PhaseView::Seeking, last_attempt };
    let now = inputs[0].1;
    let next = super::poll::next_poll(cfg, poll, EventView::Loaded(Some(row)), now);
    let rest = inputs.drop_first();
    super::poll_laws::lemma_first_action(cfg, poll, inputs);
    let actions = super::poll_laws::actions_of(cfg, poll, inputs);
    law_stored_link_is_taken_up(cfg, last_attempt, row, now);
    if rest.len() > 0 {
        lemma_linked_look(cfg, next, rest, if k > 0 {
            k - 1
        } else {
            0
        });
        assert(actions.drop_first().len() == rest.len());
        if k > 0 {
            assert(actions[k] == actions.drop_first()[k - 1]);
            assert(inputs[k] == rest[k - 1]);
        }
    } else {
        assert(super::poll_laws::actions_of(cfg, next, rest).len() == 0);
    }
}

/// Without a stored link the configured token makes one: it is exchanged where an app secret
/// is configured and stored as it is where none is; without a token there is nothing to do.
pub proof fn law_missing_link_is_made(cfg: SettingsView, last_attempt: Option<Instant>, now: Instant)
    ensures
        ({
            let poll = FeedPollView { phase: PhaseView::Seeking, last_attempt };
            let event = EventView::Loaded(None);
            &&& cfg.seed_token is None ==> ends(cfg, poll, event, now, Some(RemarkView::NoToken))
            &&& cfg.seed_token matches Some(seed) ==> (cfg.app_secret is None ==> leads_to(
                cfg,
                poll,
                event,
                now,
                PhaseView::Enrolling,
                ActionView::SaveToken { token: seed, expires_at: None },
                Some(RemarkView::NoAppSecret),
            ))
            &&& cfg.seed_token matches Some(seed) ==> (cfg.app_secret matches Some(secret)
                ==> leads_to(
                cfg,
                poll,
                event,
                now,
                PhaseView::Exchanging,
                ActionView::Call(super::graph::asks_exchange(seed, secret)),
                None,
            ))
        }),
{
}

/// The text of the end of a lifetime, given in the member `expires_in` of an answer: nothing
/// unless it is a whole number of seconds above zero.
pub open spec fn end_text(body: Json, now: Instant) -> Option<Seq<char>> {
    match body.member("expires_in"@) {
        Some(Json::Number(Some(seconds))) => if seconds > 0 {
            Some(crate::clock::rfc3339_text((now.secs + seconds) as i64, now.nanos))
        } else {
            None
        },
        _ => None,
    }
}

/// A token that the other side issues is stored with the end of its lifetime, after an
/// exchange as after a renewal.
pub proof fn law_issued_token_is_stored(
    cfg: SettingsView,
    last_attempt: Option<Instant>,
    body: Json,
    token: Seq<char>,
    now: Instant,
)
    requires
        body.text_member("access_token"@) == Some(token),
    ensures
        ({
            let event = EventView::Replied(GraphOutcomeView::Answered { success: true, body });
            let action = ActionView::SaveToken { token, expires_at: end_text(body, now) };
            &&& leads_to(
                cfg,
                FeedPollView { phase: PhaseView::Exchanging, last_attempt },
                event,
                now,
                PhaseView::Enrolling,
                action,
                None,
            )
            &&& leads_to(
                cfg,
                FeedPollView { phase: PhaseView::Refreshing, last_attempt },
                event,
                now,
                PhaseView::Renewing,
                action,
                None,
            )
        }),
{
}

/// The outcome brings no token: there is no answer, or one of failure, or one without a token.
pub open spec fn brings_none(outcome: GraphOutcomeView) -> bool {
    outcome matches GraphOutcomeView::Answered { success, body } ==> !success || body.text_member(
        "access_token"@,
    ) is None
}

/// Where an exchange brings no token, the configured one is stored as it is; where a renewal
/// brings none, the stored one stays in use and the link is read again. What went wrong is
/// told.
pub proof fn law_failed_issue_leaves_a_token_in_use(
    cfg: SettingsView,
    last_attempt: Option<Instant>,
    outcome: GraphOutcomeView,
    seed: Seq<char>,
    now: Instant,
)
    requires
        brings_none(outcome),
        cfg.seed_token == Some(seed),
    ensures
        ({
            let exchanging = FeedPollView { phase: PhaseView::Exchanging, last_attempt };
            let refreshing = FeedPollView { phase: PhaseView::Refreshing, last_attempt };
            let event = EventView::Replied(outcome);
            &&& super::poll::follow(cfg, exchanging, event, now) == (
                PhaseView::Enrolling,
                ActionView::SaveToken { token: seed, expires_at: None },
            )
            &&& super::poll::follow(cfg, refreshing, event, now) == (
                PhaseView::Reloading,
                ActionView::LoadAccount,
            )
            &&& super::poll::remark_on(cfg, PhaseView::Exchanging, event) matches Some(
                RemarkView::ExchangeFailed(text),
            ) && match outcome {
                GraphOutcomeView::Answered { success, body } => if success {
                    text == "交換応答にアクセストークンが含まれません"@
                } else {
                    text == "Instagram API エラー ("@ + "/access_token"@ + "): "@
                        + super::graph::refusal_detail(body)
                },
                GraphOutcomeView::NoClient(cause) => text == "HTTP クライアントの構築に失敗: "@ + cause,
                GraphOutcomeView::CallFailed(cause) => text == "/access_token"@ + " の呼び出しに失敗: "@
                    + cause,
                GraphOutcomeView::Unreadable(cause) => text == "/access_token"@
                    + " の応答を解析できません: "@ + cause,
            }
            &&& super::poll::remark_on(cfg, PhaseView::Refreshing, event) matches Some(
                RemarkView::RefreshFailed(text),
            ) && match outcome {
                GraphOutcomeView::Answered { success, body } => if success {
                    text == "リフレッシュ応答にアクセストークンが含まれません"@
                } else {
                    text == "Instagram API エラー ("@ + "/refresh_access_token"@ + "): "@
                        + super::graph::refusal_detail(body)
                },
                GraphOutcomeView::NoClient(cause) => text == "HTTP クライアントの構築に失敗: "@ + cause,
                GraphOutcomeView::CallFailed(cause) => text == "/refresh_access_token"@
                    + " の呼び出しに失敗: "@ + cause,
                GraphOutcomeView::Unreadable(cause) => text == "/refresh_access_token"@
                    + " の応答を解析できません: "@ + cause,
            }
        }),
{
}

/// Once a token is stored the look goes on: with examining the new link, or with reading the
/// renewed one again.
pub proof fn law_stored_token_goes_on(cfg: SettingsView, last_attempt: Option<Instant>, now: Instant)
    ensures
        leads_to(
            cfg,
            FeedPollView { phase: PhaseView::Enrolling, last_attempt },
            EventView::Stored,
            now,
            PhaseView::Examining,
            ActionView::LoadAccount,
            None,
        ),
        leads_to(
            cfg,
            FeedPollView { phase: PhaseView::Renewing, last_attempt },
            EventView::Stored,
            now,
            PhaseView::Reloading,
            ActionView::LoadAccount,
            None,
        ),
{
}

/// An examined link has its token decrypted to be renewed exactly where that is due, and is
/// read again otherwise; a link that is gone ends the look.
pub proof fn law_examined_link_is_renewed_where_due(
    cfg: SettingsView,
    last_attempt: Option<Instant>,
    row: AccountView,
    now: Instant,
)
    ensures
        ({
            let poll = FeedPollView { phase: PhaseView::Examining, last_attempt };
            let event = EventView::Loaded(Some(row));
            &&& super::account::account_refresh_due(row, now, last_attempt) ==> leads_to(
                cfg,
                poll,
                event,
                now,
                PhaseView::Unlocking,
                ActionView::Decrypt {
                    encrypted: row.token_encrypted,
                    iv: row.token_iv,
                    tag: row.token_tag,
                },
                None,
            )
            &&& !super::account::account_refresh_due(row, now, last_attempt) ==> leads_to(
                cfg,
                poll,
                event,
                now,
                PhaseView::Reloading,
                ActionView::LoadAccount,
                None,
            )
            &&& ends(cfg, poll, EventView::Loaded(None), now, None)
        }),
{
}

/// A token that could be decrypted is sent off to be renewed, and the attempt is noted with
/// the time of now; one that could not be is left alone, and no attempt is noted.
pub proof fn law_unlocked_token_is_renewed(
    cfg: SettingsView,
    last_attempt: Option<Instant>,
    token: Seq<char>,
    now: Instant,
)
    ensures
        ({
            let poll = FeedPollView { phase: PhaseView::Unlocking, last_attempt };
            &&& leads_to(
                cfg,
                poll,
                EventView::Decrypted(Some(token)),
                now,
                PhaseView::Refreshing,
                ActionView::Call(super::graph::asks_refresh(token)),
                None,
            )
            &&& super::poll::next_poll(
                cfg,
                poll,
                EventView::Decrypted(Some(token)),
                now,
            ).last_attempt == Some(now)
            &&& leads_to(
                cfg,
                poll,
                EventView::Decrypted(None),
                now,
                PhaseView::Reloading,
                ActionView::LoadAccount,
                None,
            )
            &&& super::poll::next_poll(cfg, poll, EventView::Decrypted(None), now).last_attempt
                == last_attempt
        }),
{
}

/// No other step changes the noted time of the last attempt.
pub proof fn law_attempt_is_noted_once(
    cfg: SettingsView,
    poll: FeedPollView,
    event: EventView,
    now: Instant,
)
    ensures
        super::poll::next_poll(cfg, poll, event, now).last_attempt != poll.last_attempt
            ==> poll.phase is Unlocking && (super::poll::follow(cfg, poll, event, now).1
            matches ActionView::Call(request) && request.path == "/refresh_access_token"@)
            && super::poll::next_poll(cfg, poll, event, now).last_attempt == Some(now),
{
}

/// The link that is read again gives the cursor and the token that the posts are fetched with;
/// a link that is gone, or a token that cannot be decrypted, ends the look.
pub proof fn law_posts_are_fetched_with_the_stored_token(
    cfg: SettingsView,
    last_attempt: Option<Instant>,
    row: AccountView,
    cursor: CursorView,
    token: Seq<char>,
    now: Instant,
)
    ensures
        leads_to(
            cfg,
            FeedPollView { phase: PhaseView::Reloading, last_attempt },
            EventView::Loaded(Some(row)),
            now,
            PhaseView::Opening(
                CursorView { timestamp: row.last_post_timestamp, post_id: row.last_post_id },
            ),
            ActionView::Decrypt {
                encrypted: row.token_encrypted,
                iv: row.token_iv,
                tag: row.token_tag,
            },
            None,
        ),
        ends(
            cfg,
            FeedPollView { phase: PhaseView::Reloading, last_attempt },
            EventView::Loaded(None),
            now,
            None,
        ),
        leads_to(
            cfg,
            FeedPollView { phase: PhaseView::Opening(cursor), last_attempt },
            EventView::Decrypted(Some(token)),
            now,
            PhaseView::Fetching(cursor),
            ActionView::Call(super::graph::asks_media(token)),
            None,
        ),
        ends(
            cfg,
            FeedPollView { phase: PhaseView::Opening(cursor), last_attempt },
            EventView::Decrypted(None),
            now,
            None,
        ),
{
}

/// An answer of success to the request for posts has the check noted, with all posts in it; any
/// other outcome ends the look, and what went wrong is told.
pub proof fn law_fetched_posts_are_noted(
    cfg: SettingsView,
    last_attempt: Option<Instant>,
    cursor: CursorView,
    body: Json,
    cause: Seq<char>,
    now: Instant,
)
    ensures
        ({
            let poll = FeedPollView { phase: PhaseView::Fetching(cursor), last_attempt };
            &&& leads_to(
                cfg,
                poll,
                EventView::Replied(GraphOutcomeView::Answered { success: true, body }),
                now,
                PhaseView::Noting(cursor, super::graph::media_in(body)),
                ActionView::MarkChecked,
                None,
            )
            &&& ends(
                cfg,
                poll,
                EventView::Replied(GraphOutcomeView::Answered { success: false, body }),
                now,
                Some(
                    RemarkView::FetchFailed(
                        "Instagram API エラー ("@ + "/me/media"@ + "): "@
                            + super::graph::refusal_detail(body),
                    ),
                ),
            )
            &&& ends(
                cfg,
                poll,
                EventView::Replied(GraphOutcomeView::NoClient(cause)),
                now,
                Some(RemarkView::FetchFailed("HTTP クライアントの構築に失敗: "@ + cause)),
            )
            &&& ends(
                cfg,
                poll,
                EventView::Replied(GraphOutcomeView::CallFailed(cause)),
                now,
                Some(RemarkView::FetchFailed("/me/media"@ + " の呼び出しに失敗: "@ + cause)),
            )
            &&& ends(
                cfg,
                poll,
                EventView::Replied(GraphOutcomeView::Unreadable(cause)),
                now,
                Some(RemarkView::FetchFailed("/me/media"@ + " の応答を解析できません: "@ + cause)),
            )
        }),
{
}

/// Without a cursor the first one is put on the newest post, and nothing is forwarded; where no
/// post can be dated there is nothing to do. The step behind it ends the look.
pub proof fn law_first_cursor_is_put_on_the_newest(
    cfg: SettingsView,
    last_attempt: Option<Instant>,
    post_id: Option<Seq<char>>,
    media: Seq<MediaView>,
    event: EventView,
    now: Instant,
)
    ensures
        ({
            let cursor = CursorView { timestamp: None, post_id };
            let poll = FeedPollView { phase: PhaseView::Noting(cursor, media), last_attempt };
            &&& super::select::newest(media) matches Some(newest) ==> leads_to(
                cfg,
                poll,
                EventView::Stored,
                now,
                PhaseView::Anchoring,
                ActionView::SaveCursor { post_id: newest.id, timestamp: newest.timestamp },
                None,
            )
            &&& super::select::newest(media) is None ==> ends(
                cfg,
                poll,
                EventView::Stored,
                now,
                None,
            )
            &&& !(event is DbFailed) ==> ends(
                cfg,
                FeedPollView { phase: PhaseView::Anchoring, last_attempt },
                event,
                now,
                None,
            )
        }),
{
}

/// One look takes the first five of the posts that are still to be sent, or all where there are
/// fewer.
pub proof fn law_batch_is_the_beginning(media: Seq<MediaView>, cursor: CursorView, k: int)
    ensures
        ({
            let all = super::unsent::unsent(media, cursor.timestamp, cursor.post_id);
            let posts = super::poll::batch(media, cursor);
            &&& posts.len() == (if all.len() < 5 {
                all.len()
            } else {
                5
            })
            &&& 0 <= k < posts.len() ==> posts[k] == all[k]
        }),
{
}

/// With a cursor the noted check is followed by sending the first of these posts, and ends the
/// look where there are none.
pub proof fn law_noted_check_sends_the_first(
    cfg: SettingsView,
    last_attempt: Option<Instant>,
    cursor: CursorView,
    media: Seq<MediaView>,
    now: Instant,
)
    requires
        cursor.timestamp is Some,
    ensures
        ({
            let poll = FeedPollView { phase: PhaseView::Noting(cursor, media), last_attempt };
            let all = super::unsent::unsent(media, cursor.timestamp, cursor.post_id);
            let posts = super::poll::batch(media, cursor);
            &&& all.len() == 0 ==> ends(cfg, poll, EventView::Stored, now, None)
            &&& all.len() > 0 ==> leads_to(
                cfg,
                poll,
                EventView::Stored,
                now,
                PhaseView::Sending(posts),
                ActionView::Send(super::poll::post_notice(cfg, all[0])),
                None,
            )
        }),
{
}

/// The notification of a post goes to the configured channel, for the owner, from the
/// configured bot, with the message of the post and no file.
pub proof fn law_notice_goes_to_the_channel(cfg: SettingsView, post: MediaView)
    ensures
        ({
            let notice = super::poll::post_notice(cfg, post);
            &&& notice.user_id == cfg.owner_user_id
            &&& notice.bot_id == cfg.bot_id
            &&& notice.target == NotifyTargetView::Channel(cfg.channel_id)
            &&& notice.content == super::media::rendered(post)
            &&& notice.files.len() == 0
        }),
{
}

/// A delivered post has the cursor moved to it, and the rest waits; one that was not delivered
/// ends the look and is named.
pub proof fn law_delivery_moves_the_cursor(
    cfg: SettingsView,
    last_attempt: Option<Instant>,
    posts: Seq<MediaView>,
    now: Instant,
)
    requires
        posts.len() > 0,
    ensures
        ({
            let poll = FeedPollView { phase: PhaseView::Sending(posts), last_attempt };
            &&& leads_to(
                cfg,
                poll,
                EventView::Delivered(true),
                now,
                PhaseView::Advancing(posts.skip(1)),
                ActionView::SaveCursor { post_id: posts[0].id, timestamp: posts[0].timestamp },
                None,
            )
            &&& ends(
                cfg,
                poll,
                EventView::Delivered(false),
                now,
                Some(RemarkView::Undelivered(posts[0].id)),
            )
        }),
{
    assert(posts.drop_first() == posts.skip(1));
}

/// A moved cursor is followed by sending the next post, until none is left.
pub proof fn law_moved_cursor_sends_the_next(
    cfg: SettingsView,
    last_attempt: Option<Instant>,
    posts: Seq<MediaView>,
    now: Instant,
)
    ensures
        ({
            let poll = FeedPollView { phase: PhaseView::Advancing(posts), last_attempt };
            &&& posts.len() == 0 ==> ends(cfg, poll, EventView::Stored, now, None)
            &&& posts.len() > 0 ==> leads_to(
                cfg,
                poll,
                EventView::Stored,
                now,
                PhaseView::Sending(posts),
                ActionView::Send(super::poll::post_notice(cfg, posts[0])),
                None,
            )
        }),
{
}

/// A failure of the database ends the look with that error, wherever it stands.
pub proof fn law_database_failure_ends_the_look(
    cfg: SettingsView,
    poll: FeedPollView,
    error: DbErrorView,
    now: Instant,
)
    ensures
        leads_to(
            cfg,
            poll,
            EventView::DbFailed(error),
            now,
            PhaseView::Done,
            ActionView::Finish(Some(error)),
            None,
        ),
{
}

/// The event answers what was asked for in the phase.
pub open spec fn answers(phase: PhaseView, event: EventView) -> bool {
    match phase {
        PhaseView::Seeking => event is Loaded,
        PhaseView::Exchanging => event is Replied,
        PhaseView::Enrolling => event is Stored,
        PhaseView::Examining => event is Loaded,
        PhaseView::Unlocking => event is Decrypted,
        PhaseView::Refreshing => event is Replied,
        PhaseView::Renewing => event is Stored,
        PhaseView::Reloading => event is Loaded,
        PhaseView::Opening(_) => event is Decrypted,
        PhaseView::Fetching(_) => event is Replied,
        PhaseView::Noting(_, _) => event is Stored,
        PhaseView::Anchoring => event is Stored,
        PhaseView::Sending(_) => event is Delivered,
        PhaseView::Advancing(_) => event is Stored,
        PhaseView::Done => false,
    }
}

/// An event that does not answer what was asked for ends the look without an error and without
/// a remark.
pub proof fn law_stray_event_ends_the_look(
    cfg: SettingsView,
    poll: FeedPollView,
    event: EventView,
    now: Instant,
)
    requires
        !answers(poll.phase, event),
        !(event is DbFailed),
    ensures
        ends(cfg, poll, event, now, None),
{
}

/// A step can be refused only for the end of a lifetime that no date can name: the event
/// brings a token with a lifetime above zero where one is asked for, and the clock and the
/// lifetime together leave the calendar.
pub proof fn law_step_is_refused_for_the_calendar_alone(
    poll: FeedPollView,
    event: EventView,
    now: Instant,
    body: Json,
    token: Seq<char>,
    seconds: i64,
)
    ensures
        !(poll.phase is Exchanging) && !(poll.phase is Refreshing) ==> super::poll::expiry_writable(
            poll,
            event,
            now,
        ),
        !(event is Replied) ==> super::poll::expiry_writable(poll, event, now),
        event matches EventView::Replied(outcome) ==> (brings_none(outcome)
            ==> super::poll::expiry_writable(poll, event, now)),
        (poll.phase is Exchanging || poll.phase is Refreshing) && event == EventView::Replied(
            GraphOutcomeView::Answered { success: true, body },
        ) && body.text_member("access_token"@) == Some(token) && body.member("expires_in"@) == Some(
            Json::Number(Some(seconds)),
        ) ==> (super::poll::expiry_writable(poll, event, now) <==> seconds <= 0 || (now.secs >= 0
            && now.nanos < 1_000_000_000 && now.secs + seconds <= 8_210_266_876_799)),
{
}

/// Deliveries that all succeed, each followed by a cursor that is stored.
pub open spec fn smooth_deliveries(inputs: Seq<(EventView, Instant)>, count: nat) -> bool {
    &&& inputs.len() == 2 * count
    &&& forall|k: int|
        0 <= k < inputs.len() ==> (#[trigger] inputs[k]).0 == if k % 2 == 0 {
            EventView::Delivered(true)
        } else {
            EventView::Stored
        }
}

proof fn lemma_first_effect(actions: Seq<ActionView>)
    requires
        actions.len() > 0,
    ensures
        ({
            let rest = actions.drop_first();
            let sent = super::poll_laws::sent_by(rest);
            let moved = super::poll_laws::cursors_set_by(rest);
            &&& super::poll_laws::sent_by(actions) == match actions.first() {
                ActionView::Send(notice) => seq![notice] + sent,
                _ => sent,
            }
            &&& super::poll_laws::cursors_set_by(actions) == match actions.first() {
                ActionView::SaveCursor { post_id, timestamp } => seq![(post_id, timestamp)] + moved,
                _ => moved,
            }
        }),
{
}

proof fn lemma_smooth_deliveries(
    cfg: SettingsView,
    posts: Seq<MediaView>,
    last_attempt: Option<Instant>,
    inputs: Seq<(EventView, Instant)>,
)
    requires
        posts.len() > 0,
        smooth_deliveries(inputs, posts.len()),
    ensures
        ({
            let poll = FeedPollView { phase: PhaseView::Sending(posts), last_attempt };
            let actions = super::poll_laws::actions_of(cfg, poll, inputs);
            &&& seq![super::poll::post_notice(cfg, posts[0])] + super::poll_laws::sent_by(actions)
                == super::poll_laws::notices(cfg, posts)
            &&& super::poll_laws::cursors_set_by(actions) == super::poll_laws::cursor_marks(posts)
            &&& actions.len() > 0
            &&& actions.last() == ActionView::Finish(None)
        }),
    decreases posts.len(),
{
    let sending = FeedPollView { phase: PhaseView::Sending(posts), last_attempt };
    let tail = posts.drop_first();
    let advancing = FeedPollView { phase: PhaseView::Advancing(tail), last_attempt };
    let after = inputs.drop_first();
    let rest = after.drop_first();
    assert(inputs[0].0 == EventView::Delivered(true));
    assert(inputs[1].0 == EventView::Stored);
    super::poll_laws::lemma_first_action(cfg, sending, inputs);
    super::poll_laws::lemma_first_action(cfg, advancing, after);
    let actions = super::poll_laws::actions_of(cfg, sending, inputs);
    let later = super::poll_laws::actions_of(cfg, advancing, after);
    assert(actions.drop_first() == later);
    lemma_first_effect(actions);
    lemma_first_effect(later);
    assert(super::poll_laws::notices(cfg, posts) == seq![super::poll::post_notice(cfg, posts[0])]
        + super::poll_laws::notices(cfg, tail));
    assert(super::poll_laws::cursor_marks(posts) == seq![(posts[0].id, posts[0].timestamp)]
        + super::poll_laws::cursor_marks(tail));
    if tail.len() == 0 {
        assert(rest.len() == 0);
        let done = FeedPollView { phase: PhaseView::Done, last_attempt };
        assert(super::poll_laws::actions_of(cfg, done, rest) == Seq::<ActionView>::empty());
        assert(later.drop_first() == Seq::<ActionView>::empty());
        assert(super::poll_laws::sent_by(Seq::<ActionView>::empty()) == Seq::<
            NotificationView,
        >::empty());
        assert(super::poll_laws::cursors_set_by(Seq::<ActionView>::empty()) == Seq::<
            (Seq<char>, Seq<char>),
        >::empty());
        assert(super::poll_laws::sent_by(later) == Seq::<NotificationView>::empty());
        assert(super::poll_laws::cursors_set_by(later) == Seq::<(Seq<char>, Seq<char>)>::empty());
        assert(later.len() == 1);
        assert(actions.last() == later.last());
    } else {
        assert forall|k: int| 0 <= k < rest.len() implies (#[trigger] rest[k]).0 == if k % 2 == 0 {
            EventView::Delivered(true)
        } else {
            EventView::Stored
        } by {
            assert(rest[k] == inputs[k + 2]);
        }
        lemma_smooth_deliveries(cfg, tail, last_attempt, rest);
        let last = super::poll_laws::actions_of(
            cfg,
            FeedPollView { phase: PhaseView::Sending(tail), last_attempt },
            rest,
        );
        assert(later.drop_first() == last);
        assert(later.last() == last.last());
        assert(actions.last() == later.last());
    }
}

/// Where every delivery succeeds the whole batch goes out: the notifications are those of the
/// first five unsent posts, in order, the cursor is set to each of them in turn, and the look
/// ends without an error.
pub proof fn law_smooth_look_sends_the_whole_batch(
    cfg: SettingsView,
    cursor: CursorView,
    media: Seq<MediaView>,
    last_attempt: Option<Instant>,
    inputs: Seq<(EventView, Instant)>,
)
    requires
        cursor.timestamp is Some,
        super::poll::batch(media, cursor).len() > 0,
        inputs.len() > 0,
        inputs[0].0 == EventView::Stored,
        smooth_deliveries(inputs.skip(1), super::poll::batch(media, cursor).len()),
    ensures
        ({
            let poll = FeedPollView { phase: PhaseView::Noting(cursor, media), last_attempt };
            let actions = super::poll_laws::actions_of(cfg, poll, inputs);
            let posts = super::poll::batch(media, cursor);
            &&& super::poll_laws::sent_by(actions) == super::poll_laws::notices(cfg, posts)
            &&& super::poll_laws::cursors_set_by(actions) == super::poll_laws::cursor_marks(posts)
            &&& actions.last() == ActionView::Finish(None)
        }),
{
    let poll = FeedPollView { phase: PhaseView::Noting(cursor, media), last_attempt };
    let posts = super::poll::batch(media, cursor);
    assert(inputs.skip(1) == inputs.drop_first());
    super::poll_laws::lemma_first_action(cfg, poll, inputs);
    lemma_smooth_deliveries(cfg, posts, last_attempt, inputs.drop_first());
    let actions = super::poll_laws::actions_of(cfg, poll, inputs);
    assert(actions.last() == actions.drop_first().last());
}

/// A whole look with a stored link that is not due, in which nothing fails, fetches the posts
/// with the stored token, and forwards the first five of those that the answer lists behind the
/// stored cursor.
pub proof fn law_smooth_look_forwards_what_is_new(
    cfg: SettingsView,
    last_attempt: Option<Instant>,
    row: AccountView,
    token: Seq<char>,
    body: Json,
    inputs: Seq<(EventView, Instant)>,
)
    requires
        inputs.len() > 5,
        inputs[0].0 == EventView::Loaded(Some(row)),
        inputs[1].0 == EventView::Loaded(Some(row)),
        !super::account::account_refresh_due(row, inputs[1].1, last_attempt),
        inputs[2].0 == EventView::Loaded(Some(row)),
        inputs[3].0 == EventView::Decrypted(Some(token)),
        inputs[4].0 == EventView::Replied(GraphOutcomeView::Answered { success: true, body }),
        inputs[5].0 == EventView::Stored,
        row.last_post_timestamp is Some,
        ({
            let posts = super::unsent::unsent(
                super::graph::media_in(body),
                row.last_post_timestamp,
                row.last_post_id,
            );
            &&& 0 < posts.len() <= 5
            &&& smooth_deliveries(inputs.skip(6), posts.len())
        }),
    ensures
        ({
            let poll = FeedPollView { phase: PhaseView::Seeking, last_attempt };
            let actions = super::poll_laws::actions_of(cfg, poll, inputs);
            let posts = super::unsent::unsent(
                super::graph::media_in(body),
                row.last_post_timestamp,
                row.last_post_id,
            );
            &&& actions[0] == ActionView::LoadAccount
            &&& actions[1] == ActionView::LoadAccount
            &&& actions[2] == ActionView::Decrypt {
                encrypted: row.token_encrypted,
                iv: row.token_iv,
                tag: row.token_tag,
            }
            &&& actions[3] == ActionView::Call(super::graph::asks_media(token))
            &&& actions[4] == ActionView::MarkChecked
            &&& super::poll_laws::sent_by(actions) == super::poll_laws::notices(cfg, posts)
            &&& super::poll_laws::cursors_set_by(actions) == super::poll_laws::cursor_marks(posts)
        }),
{
    let seeking = FeedPollView { phase: PhaseView::Seeking, last_attempt };
    let examining = FeedPollView { phase: PhaseView::Examining, last_attempt };
    let reloading = FeedPollView { phase: PhaseView::Reloading, last_attempt };
    let cursor = CursorView { timestamp: row.last_post_timestamp, post_id: row.last_post_id };
    let opening = FeedPollView { phase: PhaseView::Opening(cursor), last_attempt };
    let fetching = FeedPollView { phase: PhaseView::Fetching(cursor), last_attempt };
    let media = super::graph::media_in(body);
    let noting = FeedPollView { phase: PhaseView::Noting(cursor, media), last_attempt };
    let i1 = inputs.drop_first();
    let i2 = i1.drop_first();
    let i3 = i2.drop_first();
    let i4 = i3.drop_first();
    let i5 = i4.drop_first();
    assert(i5.skip(1) == inputs.skip(6));
    super::poll_laws::lemma_first_action(cfg, seeking, inputs);
    super::poll_laws::lemma_first_action(cfg, examining, i1);
    super::poll_laws::lemma_first_action(cfg, reloading, i2);
    super::poll_laws::lemma_first_action(cfg, opening, i3);
    super::poll_laws::lemma_first_action(cfg, fetching, i4);
    law_smooth_look_sends_the_whole_batch(cfg, cursor, media, last_attempt, i5);
    let a0 = super::poll_laws::actions_of(cfg, seeking, inputs);
    let a1 = super::poll_laws::actions_of(cfg, examining, i1);
    let a2 = super::poll_laws::actions_of(cfg, reloading, i2);
    let a3 = super::poll_laws::actions_of(cfg, opening, i3);
    let a4 = super::poll_laws::actions_of(cfg, fetching, i4);
    let a5 = super::poll_laws::actions_of(cfg, noting, i5);
    assert(a0.drop_first() == a1);
    assert(a1.drop_first() == a2);
    assert(a2.drop_first() == a3);
    assert(a3.drop_first() == a4);
    assert(a4.drop_first() == a5);
    lemma_first_effect(a0);
    lemma_first_effect(a1);
    lemma_first_effect(a2);
    lemma_first_effect(a3);
    lemma_first_effect(a4);
    assert(a0[1] == a1[0] && a0[2] == a2[0] && a0[3] == a3[0] && a0[4] == a4[0]);
}

/// The views of a look, of its phase and of its cursor hold what they hold.
pub proof fn law_look_view_is_faithful(poll: FeedPoll, cursor: Cursor)
    ensures
        poll@.last_attempt == poll.last_attempt,
        poll@.phase == poll.phase@,
        cursor@.timestamp == crate::text::opt_text(cursor.timestamp),
        cursor@.post_id == crate::text::opt_text(cursor.post_id),
        poll.phase is Seeking <==> poll@.phase is Seeking,
        poll.phase is Exchanging <==> poll@.phase is Exchanging,
        poll.phase is Enrolling <==> poll@.phase is Enrolling,
        poll.phase is Examining <==> poll@.phase is Examining,
        poll.phase is Unlocking <==> poll@.phase is Unlocking,
        poll.phase is Refreshing <==> poll@.phase is Refreshing,
        poll.phase is Renewing <==> poll@.phase is Renewing,
        poll.phase is Reloading <==> poll@.phase is Reloading,
        poll.phase is Anchoring <==> poll@.phase is Anchoring,
        poll.phase is Done <==> poll@.phase is Done,
        poll.phase matches Phase::Opening(at) ==> poll@.phase == PhaseView::Opening(at@),
        poll.phase matches Phase::Fetching(at) ==> poll@.phase == PhaseView::Fetching(at@),
        poll.phase matches Phase::Noting(at, media) ==> poll@.phase == PhaseView::Noting(
            at@,
            super::media::media_views(media@),
        ),
        poll.phase matches Phase::Sending(posts) ==> poll@.phase == PhaseView::Sending(
            super::media::media_views(posts@),
        ),
        poll.phase matches Phase::Advancing(posts) ==> poll@.phase == PhaseView::Advancing(
            super::media::media_views(posts@),
        ),
{
}

/// The view of an event holds what it brings.
pub proof fn law_event_view_is_faithful(event: Event)
    ensures
        event matches Event::Loaded(row) ==> event@ == EventView::Loaded(
            super::account::opt_account(row),
        ),
        event matches Event::Replied(outcome) ==> event@ == EventView::Replied(outcome@),
        event matches Event::Decrypted(token) ==> event@ == EventView::Decrypted(
            crate::text::opt_text(token),
        ),
        event is Stored <==> event@ is Stored,
        event matches Event::Delivered(ok) ==> event@ == EventView::Delivered(ok),
        event matches Event::DbFailed(error) ==> event@ == EventView::DbFailed(error@),
{
}

/// The view of an action holds what is to be done.
pub proof fn law_action_view_is_faithful(action: Action)
    ensures
        action is LoadAccount <==> action@ is LoadAccount,
        action matches Action::Call(request) ==> action@ == ActionView::Call(request@),
        action matches Action::SaveToken { token, expires_at } ==> action@
            == (ActionView::SaveToken {
            token: token@,
            expires_at: crate::text::opt_text(expires_at),
        }),
        action matches Action::Decrypt { encrypted, iv, tag } ==> action@ == (ActionView::Decrypt {
            encrypted: encrypted@,
            iv: iv@,
            tag: tag@,
        }),
        action is MarkChecked <==> action@ is MarkChecked,
        action matches Action::Send(notice) ==> action@ == ActionView::Send(notice@),
        action matches Action::SaveCursor { post_id, timestamp } ==> action@
            == (ActionView::SaveCursor { post_id: post_id@, timestamp: timestamp@ }),
        action matches Action::Finish(Ok(_)) ==> action@ == ActionView::Finish(None),
        action matches Action::Finish(Err(error)) ==> action@ == ActionView::Finish(Some(error@)),
{
}

/// The view of a remark and of a database error hold what they tell.
pub proof fn law_remark_view_is_faithful(remark: Remark, error: DbError)
    ensures
        super::poll::opt_remark(None) is None,
        super::poll::opt_remark(Some(remark)) == Some(remark@),
        remark is NoToken <==> remark@ is NoToken,
        remark is NoAppSecret <==> remark@ is NoAppSecret,
        remark matches Remark::ExchangeFailed(text) ==> remark@ == RemarkView::ExchangeFailed(text@),
        remark matches Remark::RefreshFailed(text) ==> remark@ == RemarkView::RefreshFailed(text@),
        remark matches Remark::FetchFailed(text) ==> remark@ == RemarkView::FetchFailed(text@),
        remark matches Remark::Undelivered(id) ==> remark@ == RemarkView::Undelivered(id@),
        error is Busy <==> error@ is Busy,
        error is WriterGone <==> error@ is WriterGone,
        error matches DbError::Operation(message) ==> error@ == DbErrorView::Operation(message@),
{
}

} // verus!
