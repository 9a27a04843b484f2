//! One look for new posts, as a machine: it says what to do next, and is told what came of it.
//!
//! The order of work is: make sure that a link is stored, renew its token where that is due,
//! fetch the latest posts, note the check, and forward the new posts one by one. The cursor
//! moves only behind a post that was delivered, and what stands behind it is still to be sent,
//! so a delivery that fails on the way repeats nothing and loses nothing.
use vstd::prelude::*;

use super::account::{needs_refresh, AccountRow, AccountView};
use super::graph::{
    exchange_request, exchanged_token, lifetime_brought, media_request, recent_media,
    refresh_request, refreshed_token, GraphOutcome, GraphOutcomeView, GraphRequest, GraphRequestView,
};
use super::media::{render_post, Media, MediaView};
use super::select::newest_media;
use super::settings::{InstagramSettings, SettingsView};
use super::unsent::unsent_posts;
use crate::clock::{expiry_fits, expiry_from, Instant};
use crate::db::{DbError, DbErrorView};
use crate::ids::{BotId, SecretString, UserId};
use crate::notifier::{Notification, NotificationView, NotifyTarget, NotifyTargetView};

verus! {

/// The most posts that are forwarded in one go; the rest wait for the next look.
pub const MAX_POSTS_PER_TICK: usize = 5;

/// Where the stored link says that forwarding stopped.
pub struct Cursor {
    /// The time of the last forwarded post.
    pub timestamp: Option<String>,
    /// The ID of the last forwarded post.
    pub post_id: Option<String>,
}

/// How far one look has come: the work that was asked for last.
pub enum Phase {
    /// The link is being looked up for the first time.
    Seeking,
    /// The configured token is being exchanged for a long-lived one.
    Exchanging,
    /// The first token is being stored.
    Enrolling,
    /// The link is being read to see whether its token is due.
    Examining,
    /// The token is being decrypted to renew it.
    Unlocking,
    /// The token is being renewed.
    Refreshing,
    /// The renewed token is being stored.
    Renewing,
    /// The link is being read again, since its token may be new.
    Reloading,
    /// The token is being decrypted to fetch the posts.
    Opening(Cursor),
    /// The posts are being fetched.
    Fetching(Cursor),
    /// The check is being noted.
    Noting(Cursor, Vec<Media>),
    /// The first cursor is being set; nothing is forwarded.
    Anchoring,
    /// The first of these posts is being sent.
    Sending(Vec<Media>),
    /// The cursor is being moved; these posts are left.
    Advancing(Vec<Media>),
    /// Nothing is left to do.
    Done,
}

/// A cursor with its texts as characters.
pub struct CursorView {
    /// The time of the last forwarded post.
    pub timestamp: Option<Seq<char>>,
    /// The ID of the last forwarded post.
    pub post_id: Option<Seq<char>>,
}

/// A phase with its contents as sequences.
pub enum PhaseView {
    /// See [`Phase::Seeking`].
    Seeking,
    /// See [`Phase::Exchanging`].
    Exchanging,
    /// See [`Phase::Enrolling`].
    Enrolling,
    /// See [`Phase::Examining`].
    Examining,
    /// See [`Phase::Unlocking`].
    Unlocking,
    /// See [`Phase::Refreshing`].
    Refreshing,
    /// See [`Phase::Renewing`].
    Renewing,
    /// See [`Phase::Reloading`].
    Reloading,
    /// See [`Phase::Opening`].
    Opening(CursorView),
    /// See [`Phase::Fetching`].
    Fetching(CursorView),
    /// See [`Phase::Noting`].
    Noting(CursorView, Seq<MediaView>),
    /// See [`Phase::Anchoring`].
    Anchoring,
    /// See [`Phase::Sending`].
    Sending(Seq<MediaView>),
    /// See [`Phase::Advancing`].
    Advancing(Seq<MediaView>),
    /// See [`Phase::Done`].
    Done,
}

impl View for Cursor {
    type V = CursorView;

    open spec fn view(&self) -> CursorView {
        CursorView {
            timestamp: crate::text::opt_text(self.timestamp),
            post_id: crate::text::opt_text(self.post_id),
        }
    }
}

impl View for Phase {
    type V = PhaseView;

    open spec fn view(&self) -> PhaseView {
        match self {
            Phase::Seeking => PhaseView::Seeking,
            Phase::Exchanging => PhaseView::Exchanging,
            Phase::Enrolling => PhaseView::Enrolling,
            Phase::Examining => PhaseView::Examining,
            Phase::Unlocking => PhaseView::Unlocking,
            Phase::Refreshing => PhaseView::Refreshing,
            Phase::Renewing => PhaseView::Renewing,
            Phase::Reloading => PhaseView::Reloading,
            Phase::Opening(cursor) => PhaseView::Opening(cursor@),
            Phase::Fetching(cursor) => PhaseView::Fetching(cursor@),
            Phase::Noting(cursor, media) => PhaseView::Noting(
                cursor@,
                super::media::media_views(media@),
            ),
            Phase::Anchoring => PhaseView::Anchoring,
            Phase::Sending(posts) => PhaseView::Sending(super::media::media_views(posts@)),
            Phase::Advancing(posts) => PhaseView::Advancing(super::media::media_views(posts@)),
            Phase::Done => PhaseView::Done,
        }
    }
}

/// One look for new posts. The time of the last attempt to renew the token outlives it.
pub struct FeedPoll {
    /// How far it has come.
    pub phase: Phase,
    /// When renewing the token was last tried, as far as is known.
    pub last_attempt: Option<Instant>,
}

/// A look with its phase by view.
pub struct FeedPollView {
    /// How far it has come.
    pub phase: PhaseView,
    /// When renewing the token was last tried.
    pub last_attempt: Option<Instant>,
}

impl View for FeedPoll {
    type V = FeedPollView;

    open spec fn view(&self) -> FeedPollView {
        FeedPollView { phase: self.phase@, last_attempt: self.last_attempt }
    }
}

/// What came of the work that was asked for.
pub enum Event {
    /// The stored link, where there is one.
    Loaded(Option<AccountRow>),
    /// What became of a request.
    Replied(GraphOutcome),
    /// The token in clear, where it could be decrypted.
    Decrypted(Option<String>),
    /// What was to be written is written; a token that could not be encrypted counts as
    /// written, and the stored one stays.
    Stored,
    /// Whether the notification was delivered.
    Delivered(bool),
    /// The database failed.
    DbFailed(DbError),
}

/// An event with its contents by view.
pub enum EventView {
    /// See [`Event::Loaded`].
    Loaded(Option<AccountView>),
    /// See [`Event::Replied`].
    Replied(GraphOutcomeView),
    /// See [`Event::Decrypted`].
    Decrypted(Option<Seq<char>>),
    /// See [`Event::Stored`].
    Stored,
    /// See [`Event::Delivered`].
    Delivered(bool),
    /// See [`Event::DbFailed`].
    DbFailed(DbErrorView),
}

impl View for Event {
    type V = EventView;

    open spec fn view(&self) -> EventView {
        match self {
            Event::Loaded(row) => EventView::Loaded(super::account::opt_account(*row)),
            Event::Replied(outcome) => EventView::Replied(outcome@),
            Event::Decrypted(token) => EventView::Decrypted(crate::text::opt_text(*token)),
            Event::Stored => EventView::Stored,
            Event::Delivered(ok) => EventView::Delivered(*ok),
            Event::DbFailed(error) => EventView::DbFailed(error@),
        }
    }
}

/// What to do next.
pub enum Action {
    /// Read the stored link.
    LoadAccount,
    /// Make this request.
    Call(GraphRequest),
    /// Encrypt this token and store it with its expiry; the cursor stays.
    SaveToken {
        /// The token in clear.
        token: SecretString,
        /// When it expires, where that is known.
        expires_at: Option<String>,
    },
    /// Decrypt this token.
    Decrypt {
        /// The cipher text.
        encrypted: String,
        /// The initialisation vector.
        iv: String,
        /// The authentication tag.
        tag: String,
    },
    /// Note that the posts were checked.
    MarkChecked,
    /// Deliver this notification.
    Send(Notification),
    /// Move the cursor to this post.
    SaveCursor {
        /// The post's ID.
        post_id: String,
        /// The post's time.
        timestamp: String,
    },
    /// Stop, with this result.
    Finish(Result<(), DbError>),
}

/// An action with its contents by view.
pub enum ActionView {
    /// See [`Action::LoadAccount`].
    LoadAccount,
    /// See [`Action::Call`].
    Call(GraphRequestView),
    /// See [`Action::SaveToken`].
    SaveToken {
        /// The token in clear.
        token: Seq<char>,
        /// When it expires.
        expires_at: Option<Seq<char>>,
    },
    /// See [`Action::Decrypt`].
    Decrypt {
        /// The cipher text.
        encrypted: Seq<char>,
        /// The initialisation vector.
        iv: Seq<char>,
        /// The authentication tag.
        tag: Seq<char>,
    },
    /// See [`Action::MarkChecked`].
    MarkChecked,
    /// See [`Action::Send`].
    Send(NotificationView),
    /// See [`Action::SaveCursor`].
    SaveCursor {
        /// The post's ID.
        post_id: Seq<char>,
        /// The post's time.
        timestamp: Seq<char>,
    },
    /// See [`Action::Finish`].
    Finish(Option<DbErrorView>),
}

impl View for Action {
    type V = ActionView;

    open spec fn view(&self) -> ActionView {
        match self {
            Action::LoadAccount => ActionView::LoadAccount,
            Action::Call(request) => ActionView::Call(request@),
            Action::SaveToken { token, expires_at } => ActionView::SaveToken {
                token: token@,
                expires_at: crate::text::opt_text(*expires_at),
            },
            Action::Decrypt { encrypted, iv, tag } => ActionView::Decrypt {
                encrypted: encrypted@,
                iv: iv@,
                tag: tag@,
            },
            Action::MarkChecked => ActionView::MarkChecked,
            Action::Send(notification) => ActionView::Send(notification@),
            Action::SaveCursor { post_id, timestamp } => ActionView::SaveCursor {
                post_id: post_id@,
                timestamp: timestamp@,
            },
            Action::Finish(result) => ActionView::Finish(
                match result {
                    Ok(_) => None,
                    Err(error) => Some(error@),
                },
            ),
        }
    }
}

/// What went otherwise than hoped in a step, for the log.
#[derive(Debug, PartialEq, Eq)]
pub enum Remark {
    /// No link is stored, and no token is configured to make one.
    NoToken,
    /// The configured token is stored as it is, since no app secret is configured.
    NoAppSecret,
    /// The exchange failed; why. The configured token is stored as it is.
    ExchangeFailed(String),
    /// The renewal failed; why. The token stays in use.
    RefreshFailed(String),
    /// The posts could not be fetched; why.
    FetchFailed(String),
    /// The post of this ID was not delivered, and is tried again at the next look.
    Undelivered(String),
}

/// A remark with its texts as characters.
pub enum RemarkView {
    /// See [`Remark::NoToken`].
    NoToken,
    /// See [`Remark::NoAppSecret`].
    NoAppSecret,
    /// See [`Remark::ExchangeFailed`].
    ExchangeFailed(Seq<char>),
    /// See [`Remark::RefreshFailed`].
    RefreshFailed(Seq<char>),
    /// See [`Remark::FetchFailed`].
    FetchFailed(Seq<char>),
    /// See [`Remark::Undelivered`].
    Undelivered(Seq<char>),
}

impl View for Remark {
    type V = RemarkView;

    open spec fn view(&self) -> RemarkView {
        match self {
            Remark::NoToken => RemarkView::NoToken,
            Remark::NoAppSecret => RemarkView::NoAppSecret,
            Remark::ExchangeFailed(message) => RemarkView::ExchangeFailed(message@),
            Remark::RefreshFailed(message) => RemarkView::RefreshFailed(message@),
            Remark::FetchFailed(message) => RemarkView::FetchFailed(message@),
            Remark::Undelivered(id) => RemarkView::Undelivered(id@),
        }
    }
}

/// The view of an optional remark.
pub open spec fn opt_remark(remark: Option<Remark>) -> Option<RemarkView> {
    match remark {
        Some(r) => Some(r@),
        None => None,
    }
}

/// The notification that forwards a post: its message, from the configured bot, for the
/// owner, to the configured channel.
pub open spec fn post_notice(cfg: SettingsView, post: MediaView) -> NotificationView {
    NotificationView {
        target: NotifyTargetView::Channel(cfg.channel_id),
        ..crate::notifier::text_notification(
            cfg.owner_user_id,
            cfg.bot_id,
            super::media::rendered(post),
        )
    }
}

/// The text of the expiry of a token whose lifetime starts now.
pub open spec fn expiry_text(now: Instant, expires_in: Option<i64>) -> Option<Seq<char>> {
    match crate::clock::expiry_instant(now, expires_in) {
        Some(end) => Some(crate::clock::rfc3339_text(end.secs, end.nanos)),
        None => None,
    }
}

/// The cursor of a stored link.
pub open spec fn cursor_of(row: AccountView) -> CursorView {
    CursorView { timestamp: row.last_post_timestamp, post_id: row.last_post_id }
}

/// The decryption of the token of a stored link.
pub open spec fn decryption_of(row: AccountView) -> ActionView {
    ActionView::Decrypt {
        encrypted: row.token_encrypted,
        iv: row.token_iv,
        tag: row.token_tag,
    }
}

/// The cursor that stands on a post.
pub open spec fn cursor_at(post: MediaView) -> ActionView {
    ActionView::SaveCursor { post_id: post.id, timestamp: post.timestamp }
}

/// The posts that one look forwards.
pub open spec fn batch(media: Seq<MediaView>, cursor: CursorView) -> Seq<MediaView> {
    let posts = super::unsent::unsent(media, cursor.timestamp, cursor.post_id);
    if posts.len() <= MAX_POSTS_PER_TICK {
        posts
    } else {
        posts.take(MAX_POSTS_PER_TICK as int)
    }
}

/// Nothing is left to do, and nothing went wrong.
pub open spec fn finished() -> (PhaseView, ActionView) {
    (PhaseView::Done, ActionView::Finish(None))
}

/// Sends the first of the posts, or stops where none is left.
pub open spec fn send_next(cfg: SettingsView, posts: Seq<MediaView>) -> (PhaseView, ActionView) {
    if posts.len() == 0 {
        finished()
    } else {
        (PhaseView::Sending(posts), ActionView::Send(post_notice(cfg, posts[0])))
    }
}

/// What follows the first look at the stored link.
pub open spec fn after_seeking(cfg: SettingsView, row: Option<AccountView>) -> (
    PhaseView,
    ActionView,
) {
    match (row, cfg.seed_token, cfg.app_secret) {
        (Some(_), _, _) => (PhaseView::Examining, ActionView::LoadAccount),
        (None, None, _) => finished(),
        (None, Some(seed), Some(secret)) => (
            PhaseView::Exchanging,
            ActionView::Call(super::graph::asks_exchange(seed, secret)),
        ),
        (None, Some(seed), None) => (
            PhaseView::Enrolling,
            ActionView::SaveToken { token: seed, expires_at: None },
        ),
    }
}

/// What follows the exchange: the long-lived token is stored, or the configured one as it
/// is where the exchange failed (as it does for a token that is long-lived already).
pub open spec fn after_exchange(
    cfg: SettingsView,
    issued: Result<(Seq<char>, Option<i64>), Seq<char>>,
    now: Instant,
) -> (PhaseView, ActionView) {
    match (issued, cfg.seed_token) {
        (Ok((token, expires_in)), _) => (
            PhaseView::Enrolling,
            ActionView::SaveToken { token, expires_at: expiry_text(now, expires_in) },
        ),
        (Err(_), Some(seed)) => (
            PhaseView::Enrolling,
            ActionView::SaveToken { token: seed, expires_at: None },
        ),
        (Err(_), None) => finished(),
    }
}

/// What follows the second look at the stored link.
pub open spec fn after_examining(
    row: Option<AccountView>,
    now: Instant,
    last_attempt: Option<Instant>,
) -> (PhaseView, ActionView) {
    match row {
        None => finished(),
        Some(account) => if super::account::account_refresh_due(account, now, last_attempt) {
            (PhaseView::Unlocking, decryption_of(account))
        } else {
            (PhaseView::Reloading, ActionView::LoadAccount)
        },
    }
}

/// What follows the renewal: the new token is stored; a failure leaves the old one in use.
pub open spec fn after_refresh(
    issued: Result<(Seq<char>, Option<i64>), Seq<char>>,
    now: Instant,
) -> (PhaseView, ActionView) {
    match issued {
        Ok((token, expires_in)) => (
            PhaseView::Renewing,
            ActionView::SaveToken { token, expires_at: expiry_text(now, expires_in) },
        ),
        Err(_) => (PhaseView::Reloading, ActionView::LoadAccount),
    }
}

/// What follows the noted check: the first cursor where there was none, otherwise the new
/// posts.
pub open spec fn after_noting(cfg: SettingsView, cursor: CursorView, media: Seq<MediaView>) -> (
    PhaseView,
    ActionView,
) {
    if cursor.timestamp is None {
        match super::select::newest(media) {
            Some(newest) => (PhaseView::Anchoring, cursor_at(newest)),
            None => finished(),
        }
    } else {
        send_next(cfg, batch(media, cursor))
    }
}

/// The issued token in what became of a request made in the given phase.
pub open spec fn issued_in(phase: PhaseView, outcome: GraphOutcomeView) -> Result<
    (Seq<char>, Option<i64>),
    Seq<char>,
> {
    if phase is Exchanging {
        super::graph::token_of_reply(
            super::graph::reply_to(super::graph::EXCHANGE_PATH@, outcome),
            super::graph::NO_EXCHANGED_TOKEN@,
        )
    } else {
        super::graph::token_of_reply(
            super::graph::reply_to(super::graph::REFRESH_PATH@, outcome),
            super::graph::NO_REFRESHED_TOKEN@,
        )
    }
}

/// The posts in what became of the request for them.
pub open spec fn fetched(outcome: GraphOutcomeView) -> Result<Seq<MediaView>, Seq<char>> {
    super::graph::media_of_reply(super::graph::reply_to(super::graph::MEDIA_PATH@, outcome))
}

/// The phase and the action that follow an event. A database failure ends the look with
/// that error; an event that does not answer what was asked for ends it without one.
pub open spec fn follow(
    cfg: SettingsView,
    poll: FeedPollView,
    event: EventView,
    now: Instant,
) -> (PhaseView, ActionView) {
    match (poll.phase, event) {
        (_, EventView::DbFailed(error)) => (PhaseView::Done, ActionView::Finish(Some(error))),
        (PhaseView::Seeking, EventView::Loaded(row)) => after_seeking(cfg, row),
        (PhaseView::Exchanging, EventView::Replied(outcome)) => after_exchange(
            cfg,
            issued_in(poll.phase, outcome),
            now,
        ),
        (PhaseView::Enrolling, EventView::Stored) => (
            PhaseView::Examining,
            ActionView::LoadAccount,
        ),
        (PhaseView::Examining, EventView::Loaded(row)) => after_examining(
            row,
            now,
            poll.last_attempt,
        ),
        (PhaseView::Unlocking, EventView::Decrypted(Some(token))) => (
            PhaseView::Refreshing,
            ActionView::Call(super::graph::asks_refresh(token)),
        ),
        (PhaseView::Unlocking, EventView::Decrypted(None)) => (
            PhaseView::Reloading,
            ActionView::LoadAccount,
        ),
        (PhaseView::Refreshing, EventView::Replied(outcome)) => after_refresh(
            issued_in(poll.phase, outcome),
            now,
        ),
        (PhaseView::Renewing, EventView::Stored) => (
            PhaseView::Reloading,
            ActionView::LoadAccount,
        ),
        (PhaseView::Reloading, EventView::Loaded(Some(account))) => (
            PhaseView::Opening(cursor_of(account)),
            decryption_of(account),
        ),
        (PhaseView::Opening(cursor), EventView::Decrypted(Some(token))) => (
            PhaseView::Fetching(cursor),
            ActionView::Call(super::graph::asks_media(token)),
        ),
        (PhaseView::Fetching(cursor), EventView::Replied(outcome)) => match fetched(outcome) {
            Ok(media) => (PhaseView::Noting(cursor, media), ActionView::MarkChecked),
            Err(_) => finished(),
        },
        (PhaseView::Noting(cursor, media), EventView::Stored) => after_noting(
            cfg,
            cursor,
            media,
        ),
        (PhaseView::Sending(posts), EventView::Delivered(true)) => if posts.len() == 0 {
            finished()
        } else {
            (PhaseView::Advancing(posts.drop_first()), cursor_at(posts[0]))
        },
        (PhaseView::Advancing(posts), EventView::Stored) => send_next(cfg, posts),
        _ => finished(),
    }
}

/// The remark on the first look at the stored link.
pub open spec fn remark_on_seeking(cfg: SettingsView, row: Option<AccountView>) -> Option<
    RemarkView,
> {
    match (row, cfg.seed_token, cfg.app_secret) {
        (None, None, _) => Some(RemarkView::NoToken),
        (None, Some(_), None) => Some(RemarkView::NoAppSecret),
        _ => None,
    }
}

/// The remark on an event: what failed, with the reason.
pub open spec fn remark_on(cfg: SettingsView, phase: PhaseView, event: EventView) -> Option<
    RemarkView,
> {
    match (phase, event) {
        (PhaseView::Seeking, EventView::Loaded(row)) => remark_on_seeking(cfg, row),
        (PhaseView::Exchanging, EventView::Replied(outcome)) => match issued_in(phase, outcome) {
            Ok(_) => None,
            Err(message) => Some(RemarkView::ExchangeFailed(message)),
        },
        (PhaseView::Refreshing, EventView::Replied(outcome)) => match issued_in(phase, outcome) {
            Ok(_) => None,
            Err(message) => Some(RemarkView::RefreshFailed(message)),
        },
        (PhaseView::Fetching(_), EventView::Replied(outcome)) => match fetched(outcome) {
            Ok(_) => None,
            Err(message) => Some(RemarkView::FetchFailed(message)),
        },
        (PhaseView::Sending(posts), EventView::Delivered(false)) => if posts.len() == 0 {
            None
        } else {
            Some(RemarkView::Undelivered(posts[0].id))
        },
        _ => None,
    }
}

/// The time of the last attempt after an event: now, where the token is sent off to be
/// renewed.
pub open spec fn attempt_after(poll: FeedPollView, event: EventView, now: Instant) -> Option<
    Instant,
> {
    if poll.phase is Unlocking && event matches EventView::Decrypted(Some(_)) {
        Some(now)
    } else {
        poll.last_attempt
    }
}

/// The look after an event.
pub open spec fn next_poll(
    cfg: SettingsView,
    poll: FeedPollView,
    event: EventView,
    now: Instant,
) -> FeedPollView {
    FeedPollView {
        phase: follow(cfg, poll, event, now).0,
        last_attempt: attempt_after(poll, event, now),
    }
}

/// The expiry of a token that the event brings can be written.
pub open spec fn expiry_writable(poll: FeedPollView, event: EventView, now: Instant) -> bool {
    (poll.phase is Exchanging || poll.phase is Refreshing) && event is Replied
        ==> crate::clock::expiry_in_range(
        now,
        super::graph::brought_lifetime(event->Replied_0),
    )
}

/// An expiry that is to be stored for a token that the event brings names, read back, the end
/// of its lifetime, up to the year 9999: what [`account_refresh_due`] later goes by.
///
/// [`account_refresh_due`]: super::account::account_refresh_due
pub open spec fn expiry_reads_back(event: EventView, now: Instant, action: ActionView) -> bool {
    match (event, action) {
        (EventView::Replied(outcome), ActionView::SaveToken { expires_at: Some(text), .. }) => {
            let end = crate::clock::expiry_instant(now, super::graph::brought_lifetime(outcome));
            end matches Some(end) && (end.secs <= crate::clock::LAST_FOUR_DIGIT_SECOND
                ==> crate::clock::rfc3339_instant(text) == Some(end))
        },
        _ => true,
    }
}

/// The notification that forwards a post.
fn notice_for(cfg: &InstagramSettings, post: &Media) -> (r: Notification)
    ensures
        r@ == post_notice(cfg@, post@),
{
    Notification::text(
        UserId::new(cfg.owner_user_id.clone()),
        BotId::new(cfg.bot_id.clone()),
        render_post(post),
    ).with_target(NotifyTarget::Channel(cfg.channel_id.clone()))
}

/// Stops without an error.
fn stop() -> (r: (Phase, Action))
    ensures
        (r.0@, r.1@) == finished(),
{
    (Phase::Done, Action::Finish(Ok(())))
}

/// Sends the first of the posts, or stops where none is left.
fn send_first(cfg: &InstagramSettings, posts: Vec<Media>) -> (r: (Phase, Action))
    ensures
        (r.0@, r.1@) == send_next(cfg@, super::media::media_views(posts@)),
{
    if posts.len() == 0 {
        return stop();
    }
    let notice: Notification = notice_for(cfg, &posts[0]);
    (Phase::Sending(posts), Action::Send(notice))
}

/// Decrypts the token of a stored link.
fn decrypt(account: &AccountRow) -> (r: Action)
    ensures
        r@ == decryption_of(account@),
{
    Action::Decrypt {
        encrypted: account.token_encrypted.clone(),
        iv: account.token_iv.clone(),
        tag: account.token_tag.clone(),
    }
}

/// Stores a token that was just issued.
fn save_issued(token: String, expires_in: Option<i64>, now: &Instant) -> (r: Action)
    requires
        crate::clock::expiry_in_range(*now, expires_in),
    ensures
        r@ == (ActionView::SaveToken { token: token@, expires_at: expiry_text(*now, expires_in) }),
        crate::clock::expiry_instant(*now, expires_in) matches Some(end) ==> (end.secs
            <= crate::clock::LAST_FOUR_DIGIT_SECOND ==> crate::clock::rfc3339_instant(
            crate::clock::rfc3339_text(end.secs, end.nanos),
        ) == Some(end)),
{
    Action::SaveToken { token: SecretString::new(token), expires_at: expiry_from(now, expires_in) }
}

/// The first look at the stored link is answered.
fn on_sought(cfg: &InstagramSettings, row: Option<AccountRow>) -> (r: (
    Phase,
    Action,
    Option<Remark>,
))
    ensures
        (r.0@, r.1@) == after_seeking(cfg@, super::account::opt_account(row)),
        opt_remark(r.2) == remark_on_seeking(cfg@, super::account::opt_account(row)),
{
    if row.is_some() {
        return (Phase::Examining, Action::LoadAccount, None);
    }
    match (&cfg.seed_token, &cfg.app_secret) {
        (None, _) => {
            let (phase, action): (Phase, Action) = stop();
            (phase, action, Some(Remark::NoToken))
        },
        (Some(seed), Some(secret)) => (
            Phase::Exchanging,
            Action::Call(exchange_request(seed.expose_secret(), secret.expose_secret())),
            None,
        ),
        (Some(seed), None) => (
            Phase::Enrolling,
            Action::SaveToken { token: seed.duplicate(), expires_at: None },
            Some(Remark::NoAppSecret),
        ),
    }
}

/// The exchange is answered.
fn on_exchanged(cfg: &InstagramSettings, outcome: GraphOutcome, now: &Instant) -> (r: (
    Phase,
    Action,
    Option<Remark>,
))
    requires
        crate::clock::expiry_in_range(*now, super::graph::brought_lifetime(outcome@)),
    ensures
        (r.0@, r.1@) == after_exchange(cfg@, issued_in(PhaseView::Exchanging, outcome@), *now),
        opt_remark(r.2) == remark_on(
            cfg@,
            PhaseView::Exchanging,
            EventView::Replied(outcome@),
        ),
        expiry_reads_back(EventView::Replied(outcome@), *now, r.1@),
{
    match exchanged_token(outcome) {
        Ok((token, expires_in)) => (Phase::Enrolling, save_issued(token, expires_in, now), None),
        Err(message) => {
            let (phase, action): (Phase, Action) = match &cfg.seed_token {
                Some(seed) => (
                    Phase::Enrolling,
                    Action::SaveToken { token: seed.duplicate(), expires_at: None },
                ),
                None => stop(),
            };
            (phase, action, Some(Remark::ExchangeFailed(message)))
        },
    }
}

/// The stored link is there to be examined.
fn on_examined(row: Option<AccountRow>, now: &Instant, last_attempt: Option<Instant>) -> (r: (
    Phase,
    Action,
))
    ensures
        (r.0@, r.1@) == after_examining(super::account::opt_account(row), *now, last_attempt),
{
    match row {
        None => stop(),
        Some(account) => {
            if needs_refresh(&account, now, last_attempt) {
                (Phase::Unlocking, decrypt(&account))
            } else {
                (Phase::Reloading, Action::LoadAccount)
            }
        },
    }
}

/// The renewal is answered.
fn on_refreshed(outcome: GraphOutcome, now: &Instant) -> (r: (Phase, Action, Option<Remark>))
    requires
        crate::clock::expiry_in_range(*now, super::graph::brought_lifetime(outcome@)),
    ensures
        (r.0@, r.1@) == after_refresh(issued_in(PhaseView::Refreshing, outcome@), *now),
        opt_remark(r.2) == (match issued_in(PhaseView::Refreshing, outcome@) {
            Ok(_) => None,
            Err(message) => Some(RemarkView::RefreshFailed(message)),
        }),
        expiry_reads_back(EventView::Replied(outcome@), *now, r.1@),
{
    match refreshed_token(outcome) {
        Ok((token, expires_in)) => (Phase::Renewing, save_issued(token, expires_in, now), None),
        Err(message) => (
            Phase::Reloading,
            Action::LoadAccount,
            Some(Remark::RefreshFailed(message)),
        ),
    }
}

/// The posts that one look forwards.
fn take_batch(media: &Vec<Media>, cursor: &Cursor) -> (r: Vec<Media>)
    ensures
        super::media::media_views(r@) == batch(super::media::media_views(media@), cursor@),
{
    let timestamp: Option<&str> = match &cursor.timestamp {
        Some(t) => Some(t.as_str()),
        None => None,
    };
    let post_id: Option<&str> = match &cursor.post_id {
        Some(id) => Some(id.as_str()),
        None => None,
    };
    let mut posts: Vec<Media> = unsent_posts(media.as_slice(), timestamp, post_id);
    if posts.len() > MAX_POSTS_PER_TICK {
        let ghost all = super::media::media_views(posts@);
        posts.truncate(MAX_POSTS_PER_TICK);
        assert(super::media::media_views(posts@) == all.take(MAX_POSTS_PER_TICK as int));
    }
    posts
}

/// The check is noted.
fn on_noted(cfg: &InstagramSettings, cursor: Cursor, media: Vec<Media>) -> (r: (Phase, Action))
    ensures
        (r.0@, r.1@) == after_noting(cfg@, cursor@, super::media::media_views(media@)),
{
    if cursor.timestamp.is_none() {
        return match newest_media(media.as_slice()) {
            Some(newest) => (
                Phase::Anchoring,
                Action::SaveCursor { post_id: newest.id, timestamp: newest.timestamp },
            ),
            None => stop(),
        };
    }
    send_first(cfg, take_batch(&media, &cursor))
}

/// The first of the posts is delivered.
fn on_delivered(posts: Vec<Media>) -> (r: (Phase, Action))
    ensures
        ({
            let views = super::media::media_views(posts@);
            (r.0@, r.1@) == if views.len() == 0 {
                finished()
            } else {
                (PhaseView::Advancing(views.drop_first()), cursor_at(views[0]))
            }
        }),
{
    let mut posts: Vec<Media> = posts;
    if posts.len() == 0 {
        return stop();
    }
    let ghost views = super::media::media_views(posts@);
    let sent: Media = posts.remove(0);
    assert(super::media::media_views(posts@) == views.drop_first());
    (
        Phase::Advancing(posts),
        Action::SaveCursor { post_id: sent.id, timestamp: sent.timestamp },
    )
}

impl FeedPoll {
    /// A new look and the first thing to do.
    pub fn start(last_attempt: Option<Instant>) -> (r: (FeedPoll, Action))
        ensures
            r.0@ == (FeedPollView { phase: PhaseView::Seeking, last_attempt }),
            r.1@ == ActionView::LoadAccount,
    {
        (FeedPoll { phase: Phase::Seeking, last_attempt }, Action::LoadAccount)
    }

    /// Takes in what came of the last action and says what to do next, and what went wrong.
    pub fn step(self, cfg: &InstagramSettings, event: Event, now: &Instant) -> (r: (
        FeedPoll,
        Action,
        Option<Remark>,
    ))
        requires
            expiry_writable(self@, event@, *now),
        ensures
            r.0@ == next_poll(cfg@, self@, event@, *now),
            r.1@ == follow(cfg@, self@, event@, *now).1,
            opt_remark(r.2) == remark_on(cfg@, self@.phase, event@),
            expiry_reads_back(event@, *now, r.1@),
            self.phase is Seeking && (event matches Event::Loaded(Some(_))) ==> r.0.phase
                is Examining && r.1 is LoadAccount && r.2 is None,
    {
        let mut last_attempt: Option<Instant> = self.last_attempt;
        let mut remark: Option<Remark> = None;
        let (phase, action): (Phase, Action) = match (self.phase, event) {
            (_, Event::DbFailed(error)) => (Phase::Done, Action::Finish(Err(error))),
            (Phase::Seeking, Event::Loaded(row)) => {
                let (phase, action, failed): (Phase, Action, Option<Remark>) = on_sought(cfg, row);
                remark = failed;
                (phase, action)
            },
            (Phase::Exchanging, Event::Replied(outcome)) => {
                let (phase, action, failed): (Phase, Action, Option<Remark>) = on_exchanged(
                    cfg,
                    outcome,
                    now,
                );
                remark = failed;
                (phase, action)
            },
            (Phase::Enrolling, Event::Stored) => (Phase::Examining, Action::LoadAccount),
            (Phase::Examining, Event::Loaded(row)) => on_examined(row, now, last_attempt),
            (Phase::Unlocking, Event::Decrypted(Some(token))) => {
                last_attempt = Some(*now);
                (Phase::Refreshing, Action::Call(refresh_request(token.as_str())))
            },
            (Phase::Unlocking, Event::Decrypted(None)) => (
                Phase::Reloading,
                Action::LoadAccount,
            ),
            (Phase::Refreshing, Event::Replied(outcome)) => {
                let (phase, action, failed): (Phase, Action, Option<Remark>) = on_refreshed(
                    outcome,
                    now,
                );
                remark = failed;
                (phase, action)
            },
            (Phase::Renewing, Event::Stored) => (Phase::Reloading, Action::LoadAccount),
            (Phase::Reloading, Event::Loaded(Some(account))) => {
                let action: Action = decrypt(&account);
                let cursor: Cursor = Cursor {
                    timestamp: account.last_post_timestamp,
                    post_id: account.last_post_id,
                };
                (Phase::Opening(cursor), action)
            },
            (Phase::Opening(cursor), Event::Decrypted(Some(token))) => (
                Phase::Fetching(cursor),
                Action::Call(media_request(token.as_str())),
            ),
            (Phase::Fetching(cursor), Event::Replied(outcome)) => match recent_media(outcome) {
                Ok(media) => (Phase::Noting(cursor, media), Action::MarkChecked),
                Err(message) => {
                    remark = Some(Remark::FetchFailed(message));
                    stop()
                },
            },
            (Phase::Noting(cursor, media), Event::Stored) => on_noted(cfg, cursor, media),
            (Phase::Sending(posts), Event::Delivered(true)) => on_delivered(posts),
            (Phase::Sending(posts), Event::Delivered(false)) => {
                if posts.len() > 0 {
                    remark = Some(Remark::Undelivered(posts[0].id.clone()));
                }
                stop()
            },
            (Phase::Advancing(posts), Event::Stored) => send_first(cfg, posts),
            _ => stop(),
        };
        (FeedPoll { phase, last_attempt }, action, remark)
    }

    /// Whether the expiry of a token that the event brings can be written.
    pub fn can_take(&self, event: &Event, now: &Instant) -> (r: bool)
        ensures
            r == expiry_writable(self@, event@, *now),
    {
        match (&self.phase, event) {
            (Phase::Exchanging, Event::Replied(outcome)) => expiry_fits(
                now,
                lifetime_brought(outcome),
            ),
            (Phase::Refreshing, Event::Replied(outcome)) => expiry_fits(
                now,
                lifetime_brought(outcome),
            ),
            _ => true,
        }
    }

    /// [`FeedPoll::step`] for any event; nothing where a token comes with a lifetime whose
    /// end no date can name.
    pub fn try_step(self, cfg: &InstagramSettings, event: Event, now: &Instant) -> (r: Option<
        (FeedPoll, Action, Option<Remark>),
    >)
        ensures
            r is Some <==> expiry_writable(self@, event@, *now),
            r matches Some(next) ==> next.0@ == next_poll(cfg@, self@, event@, *now) && next.1@
                == follow(cfg@, self@, event@, *now).1 && opt_remark(next.2) == remark_on(
                cfg@,
                self@.phase,
                event@,
            ) && expiry_reads_back(event@, *now, next.1@),
    {
        if self.can_take(&event, now) {
            Some(self.step(cfg, event, now))
        } else {
            None
        }
    }
}

} // verus!
