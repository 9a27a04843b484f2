//! The stored link to the Instagram account, and when its token is renewed.
use vstd::prelude::*;

use super::media::copy_opt;
use crate::clock::{parse_rfc3339, stamp, Instant};

verus! {

/// A token that expires in less than this many nanoseconds (ten days) is renewed.
pub const REFRESH_THRESHOLD: i128 = 864_000_000_000_000;

/// A token without a known expiry is renewed once it is older than this (one day): a fresh
/// token cannot be renewed.
pub const REFRESH_MIN_AGE: i128 = 86_400_000_000_000;

/// The least time between two attempts to renew a token without a known expiry (one hour).
pub const REFRESH_RETRY_INTERVAL: i128 = 3_600_000_000_000;

/// An encrypted token.
pub struct SealedToken {
    /// The cipher text.
    pub encrypted: String,
    /// The initialisation vector.
    pub iv: String,
    /// The authentication tag.
    pub auth_tag: String,
}

/// The stored link: the encrypted token, its times, and the cursor of the last forwarded post.
#[derive(Debug)]
pub struct AccountRow {
    /// The cipher text of the token.
    pub token_encrypted: String,
    /// The initialisation vector of the token.
    pub token_iv: String,
    /// The authentication tag of the token.
    pub token_tag: String,
    /// When the token expires, where that is known.
    pub token_expires_at: Option<String>,
    /// When the token was stored.
    pub last_refreshed_at: Option<String>,
    /// The ID of the last forwarded post.
    pub last_post_id: Option<String>,
    /// The time of the last forwarded post.
    pub last_post_timestamp: Option<String>,
}

/// An encrypted token with its texts as characters.
pub struct SealedTokenView {
    /// The cipher text.
    pub encrypted: Seq<char>,
    /// The initialisation vector.
    pub iv: Seq<char>,
    /// The authentication tag.
    pub auth_tag: Seq<char>,
}

/// A stored link with its texts as characters.
pub struct AccountView {
    /// The cipher text of the token.
    pub token_encrypted: Seq<char>,
    /// The initialisation vector of the token.
    pub token_iv: Seq<char>,
    /// The authentication tag of the token.
    pub token_tag: Seq<char>,
    /// When the token expires, where that is known.
    pub token_expires_at: Option<Seq<char>>,
    /// When the token was stored.
    pub last_refreshed_at: Option<Seq<char>>,
    /// The ID of the last forwarded post.
    pub last_post_id: Option<Seq<char>>,
    /// The time of the last forwarded post.
    pub last_post_timestamp: Option<Seq<char>>,
}

impl View for SealedToken {
    type V = SealedTokenView;

    open spec fn view(&self) -> SealedTokenView {
        SealedTokenView { encrypted: self.encrypted@, iv: self.iv@, auth_tag: self.auth_tag@ }
    }
}

impl View for AccountRow {
    type V = AccountView;

    open spec fn view(&self) -> AccountView {
        AccountView {
            token_encrypted: self.token_encrypted@,
            token_iv: self.token_iv@,
            token_tag: self.token_tag@,
            token_expires_at: crate::text::opt_text(self.token_expires_at),
            last_refreshed_at: crate::text::opt_text(self.last_refreshed_at),
            last_post_id: crate::text::opt_text(self.last_post_id),
            last_post_timestamp: crate::text::opt_text(self.last_post_timestamp),
        }
    }
}

/// The view of an optional link.
pub open spec fn opt_account(row: Option<AccountRow>) -> Option<AccountView> {
    match row {
        Some(r) => Some(r@),
        None => None,
    }
}

impl Clone for AccountRow {
    fn clone(&self) -> (r: Self)
        ensures
            r@ == self@,
    {
        AccountRow {
            token_encrypted: self.token_encrypted.clone(),
            token_iv: self.token_iv.clone(),
            token_tag: self.token_tag.clone(),
            token_expires_at: copy_opt(&self.token_expires_at),
            last_refreshed_at: copy_opt(&self.last_refreshed_at),
            last_post_id: copy_opt(&self.last_post_id),
            last_post_timestamp: copy_opt(&self.last_post_timestamp),
        }
    }
}

impl Default for AccountRow {
    fn default() -> (r: Self)
        ensures
            r@ == (AccountView {
                token_encrypted: Seq::<char>::empty(),
                token_iv: Seq::<char>::empty(),
                token_tag: Seq::<char>::empty(),
                token_expires_at: None,
                last_refreshed_at: None,
                last_post_id: None,
                last_post_timestamp: None,
            }),
    {
        AccountRow {
            token_encrypted: String::new(),
            token_iv: String::new(),
            token_tag: String::new(),
            token_expires_at: None,
            last_refreshed_at: None,
            last_post_id: None,
            last_post_timestamp: None,
        }
    }
}

/// The link after a token was stored: the token and its times are new, the cursor is that of
/// the link before, if there was one.
pub open spec fn token_stored(
    before: Option<AccountView>,
    sealed: SealedTokenView,
    expires_at: Option<Seq<char>>,
    stored_at: Seq<char>,
) -> AccountView {
    AccountView {
        token_encrypted: sealed.encrypted,
        token_iv: sealed.iv,
        token_tag: sealed.auth_tag,
        token_expires_at: expires_at,
        last_refreshed_at: Some(stored_at),
        last_post_id: match before {
            Some(row) => row.last_post_id,
            None => None,
        },
        last_post_timestamp: match before {
            Some(row) => row.last_post_timestamp,
            None => None,
        },
    }
}

/// The link after the cursor was moved: nothing but the cursor is new.
pub open spec fn cursor_moved(
    before: AccountView,
    post_id: Seq<char>,
    timestamp: Seq<char>,
) -> AccountView {
    AccountView { last_post_id: Some(post_id), last_post_timestamp: Some(timestamp), ..before }
}

impl AccountRow {
    /// The link with a token stored into it now. The cursor stays. A token whose expiry is not
    /// known is then left alone for a day.
    pub fn with_token(
        before: Option<AccountRow>,
        sealed: SealedToken,
        expires_at: Option<String>,
        now: &Instant,
    ) -> (r: AccountRow)
        requires
            crate::clock::clock_reading(*now),
        ensures
            r@ == token_stored(
                opt_account(before),
                sealed@,
                crate::text::opt_text(expires_at),
                crate::clock::rfc3339_text(now.secs, now.nanos),
            ),
            now.secs <= crate::clock::LAST_FOUR_DIGIT_SECOND ==> stored_instant(
                r@.last_refreshed_at,
            ) == Some(*now),
            forall|later: Instant, last_attempt: Option<Instant>|
                now.secs <= crate::clock::LAST_FOUR_DIGIT_SECOND && stored_instant(
                    crate::text::opt_text(expires_at),
                ) is None && later.nanos_from(*now) <= REFRESH_MIN_AGE
                    ==> !#[trigger] account_refresh_due(r@, later, last_attempt),
    {
        let (last_post_id, last_post_timestamp): (Option<String>, Option<String>) = match before {
            Some(row) => (row.last_post_id, row.last_post_timestamp),
            None => (None, None),
        };
        AccountRow {
            token_encrypted: sealed.encrypted,
            token_iv: sealed.iv,
            token_tag: sealed.auth_tag,
            token_expires_at: expires_at,
            last_refreshed_at: Some(stamp(now)),
            last_post_id,
            last_post_timestamp,
        }
    }

    /// The link with its cursor on the given post.
    pub fn with_cursor(self, post_id: String, timestamp: String) -> (r: AccountRow)
        ensures
            r@ == cursor_moved(self@, post_id@, timestamp@),
    {
        AccountRow {
            last_post_id: Some(post_id),
            last_post_timestamp: Some(timestamp),
            ..self
        }
    }
}

/// The instant of an optional RFC 3339 text, where there is one and it can be read.
pub open spec fn stored_instant(text: Option<Seq<char>>) -> Option<Instant> {
    match text {
        Some(t) => crate::clock::rfc3339_instant(t),
        None => None,
    }
}

/// The token is to be renewed now: it expires within the threshold, or, where nothing is
/// known of its expiry, it is old enough and the last attempt is not too recent.
pub open spec fn refresh_due(
    expires_at: Option<Instant>,
    stored_at: Option<Instant>,
    now: Instant,
    last_attempt: Option<Instant>,
) -> bool {
    match expires_at {
        Some(end) => end.nanos_from(now) < REFRESH_THRESHOLD,
        None => {
            &&& stored_at matches Some(t) ==> now.nanos_from(t) > REFRESH_MIN_AGE
            &&& last_attempt matches Some(t) ==> now.nanos_from(t) >= REFRESH_RETRY_INTERVAL
        },
    }
}

/// [`refresh_due`] of a stored link.
pub open spec fn account_refresh_due(
    account: AccountView,
    now: Instant,
    last_attempt: Option<Instant>,
) -> bool {
    refresh_due(
        stored_instant(account.token_expires_at),
        stored_instant(account.last_refreshed_at),
        now,
        last_attempt,
    )
}

/// The instant of an optional RFC 3339 text.
fn read_instant(text: &Option<String>) -> (r: Option<Instant>)
    ensures
        r == stored_instant(crate::text::opt_text(*text)),
{
    match text {
        Some(t) => parse_rfc3339(t.as_str()),
        None => None,
    }
}

/// Whether a token with these times is to be renewed now.
pub fn is_refresh_due(
    expires_at: Option<Instant>,
    stored_at: Option<Instant>,
    now: &Instant,
    last_attempt: Option<Instant>,
) -> (r: bool)
    ensures
        r == refresh_due(expires_at, stored_at, *now, last_attempt),
        expires_at is None && (stored_at is None || now.nanos_from(stored_at->0) > 24 * 3_600
            * 1_000_000_000) && (last_attempt is None || now.nanos_from(last_attempt->0) >= 3_600
            * 1_000_000_000) ==> r,
        expires_at matches Some(end) ==> (r <==> end.nanos_from(*now) < 10 * 24 * 3_600
            * 1_000_000_000),
{
    match expires_at {
        Some(end) => end.since(now) < REFRESH_THRESHOLD,
        None => {
            let old_enough: bool = match stored_at {
                Some(t) => now.since(&t) > REFRESH_MIN_AGE,
                None => true,
            };
            let not_too_soon: bool = match last_attempt {
                Some(t) => now.since(&t) >= REFRESH_RETRY_INTERVAL,
                None => true,
            };
            old_enough && not_too_soon
        },
    }
}

/// Whether the token of a stored link is to be renewed now.
pub fn needs_refresh(account: &AccountRow, now: &Instant, last_attempt: Option<Instant>) -> (r:
    bool)
    ensures
        r == account_refresh_due(account@, *now, last_attempt),
{
    is_refresh_due(
        read_instant(&account.token_expires_at),
        read_instant(&account.last_refreshed_at),
        now,
        last_attempt,
    )
}

/// Storing a token leaves the cursor where it was, and moving the cursor leaves the token
/// and its times as they were.
pub proof fn law_token_and_cursor_are_independent(
    before: AccountView,
    sealed: SealedTokenView,
    expires_at: Option<Seq<char>>,
    stored_at: Seq<char>,
    post_id: Seq<char>,
    timestamp: Seq<char>,
)
    ensures
        token_stored(Some(before), sealed, expires_at, stored_at).last_post_id
            == before.last_post_id,
        token_stored(Some(before), sealed, expires_at, stored_at).last_post_timestamp
            == before.last_post_timestamp,
        token_stored(
            Some(cursor_moved(before, post_id, timestamp)),
            sealed,
            expires_at,
            stored_at,
        ) == cursor_moved(
            token_stored(Some(before), sealed, expires_at, stored_at),
            post_id,
            timestamp,
        ),
        cursor_moved(before, post_id, timestamp).token_encrypted == before.token_encrypted,
        cursor_moved(before, post_id, timestamp).token_iv == before.token_iv,
        cursor_moved(before, post_id, timestamp).token_tag == before.token_tag,
        cursor_moved(before, post_id, timestamp).token_expires_at == before.token_expires_at,
        cursor_moved(before, post_id, timestamp).last_refreshed_at == before.last_refreshed_at,
{
}

/// A token whose expiry is not known is left alone for a day from the time that it was stored
/// at, and so is one that the cursor was moved beside.
pub proof fn law_fresh_token_is_left_alone(
    before: Option<AccountView>,
    sealed: SealedTokenView,
    expires_at: Option<Seq<char>>,
    stored_at: Seq<char>,
    stored: Instant,
    now: Instant,
    last_attempt: Option<Instant>,
    post_id: Seq<char>,
    timestamp: Seq<char>,
)
    requires
        stored_instant(expires_at) is None,
        crate::clock::rfc3339_instant(stored_at) == Some(stored),
        now.nanos_from(stored) <= REFRESH_MIN_AGE,
    ensures
        ({
            let row = token_stored(before, sealed, expires_at, stored_at);
            &&& !account_refresh_due(row, now, last_attempt)
            &&& !account_refresh_due(cursor_moved(row, post_id, timestamp), now, last_attempt)
        }),
{
}

/// Two attempts to renew a token without a known expiry are at least
/// [`REFRESH_RETRY_INTERVAL`] apart.
pub proof fn law_attempts_keep_their_distance(
    stored_at: Option<Instant>,
    now: Instant,
    last_attempt: Instant,
)
    requires
        refresh_due(None, stored_at, now, Some(last_attempt)),
    ensures
        now.nanos_from(last_attempt) >= REFRESH_RETRY_INTERVAL,
{
}

/// Once a token with a known expiry is due it stays due: the time left only shrinks.
pub proof fn law_due_token_stays_due(
    expires_at: Instant,
    stored_at: Option<Instant>,
    now: Instant,
    later: Instant,
    last_attempt: Option<Instant>,
)
    requires
        now.nanos < crate::clock::SECOND_NANOS,
        later.nanos < crate::clock::SECOND_NANOS,
        expires_at.nanos < crate::clock::SECOND_NANOS,
        now.before(later),
        refresh_due(Some(expires_at), stored_at, now, last_attempt),
    ensures
        refresh_due(Some(expires_at), stored_at, later, last_attempt),
{
}

/// A stored expiry that can be read decides alone when the token is renewed, whatever came
/// before and however recent the last attempt is.
pub proof fn law_stored_expiry_decides(
    before: Option<AccountView>,
    sealed: SealedTokenView,
    expires_at: Seq<char>,
    stored_at: Seq<char>,
    end: Instant,
    now: Instant,
    last_attempt: Option<Instant>,
)
    requires
        crate::clock::rfc3339_instant(expires_at) == Some(end),
    ensures
        account_refresh_due(
            token_stored(before, sealed, Some(expires_at), stored_at),
            now,
            last_attempt,
        ) <==> end.nanos_from(now) < REFRESH_THRESHOLD,
{
}

/// A token without a known expiry is renewed exactly where more than a day has passed since it
/// was stored, or that time is not known, and at least an hour since the last attempt, or there
/// was none. So one failed attempt does not end the attempts.
pub proof fn law_token_without_expiry_is_tried_again(
    stored_at: Option<Instant>,
    now: Instant,
    last_attempt: Option<Instant>,
)
    ensures
        (stored_at is None || now.nanos_from(stored_at->0) > 24 * 3_600 * 1_000_000_000) && (
        last_attempt is None || now.nanos_from(last_attempt->0) >= 3_600 * 1_000_000_000)
            ==> refresh_due(None, stored_at, now, last_attempt),
        refresh_due(None, stored_at, now, last_attempt) ==> (stored_at is None || now.nanos_from(
            stored_at->0,
        ) > 24 * 3_600 * 1_000_000_000) && (last_attempt is None || now.nanos_from(last_attempt->0)
            >= 3_600 * 1_000_000_000),
{
}

/// A token with a known expiry is renewed exactly where it has less than ten days left, or none
/// at all, whenever it was stored and tried.
pub proof fn law_token_with_expiry_is_renewed_in_time(
    expires_at: Instant,
    stored_at: Option<Instant>,
    now: Instant,
    last_attempt: Option<Instant>,
)
    ensures
        refresh_due(Some(expires_at), stored_at, now, last_attempt) <==> expires_at.nanos_from(now)
            < 10 * 24 * 3_600 * 1_000_000_000,
{
}

/// A stored link goes by its own times: by its expiry where that can be read as RFC 3339, and
/// otherwise by the time that its token was stored at.
pub proof fn law_link_goes_by_its_own_times(
    account: AccountView,
    now: Instant,
    last_attempt: Option<Instant>,
)
    ensures
        account.token_expires_at matches Some(text) ==> (crate::clock::rfc3339_instant(text)
            matches Some(end) ==> (account_refresh_due(account, now, last_attempt)
            <==> end.nanos_from(now) < 10 * 24 * 3_600 * 1_000_000_000)),
        (account.token_expires_at is None || crate::clock::rfc3339_instant(
            account.token_expires_at->0,
        ) is None) ==> (account_refresh_due(account, now, last_attempt) <==> ({
            let stored = if account.last_refreshed_at is Some {
                crate::clock::rfc3339_instant(account.last_refreshed_at->0)
            } else {
                None
            };
            &&& stored is None || now.nanos_from(stored->0) > 24 * 3_600 * 1_000_000_000
            &&& last_attempt is None || now.nanos_from(last_attempt->0) >= 3_600 * 1_000_000_000
        })),
{
}

/// Storing a token stores each of its parts and the two times as they are given; a link that
/// was not there before has no cursor.
pub proof fn law_stored_token_is_the_given_one(
    before: Option<AccountView>,
    sealed: SealedTokenView,
    expires_at: Option<Seq<char>>,
    stored_at: Seq<char>,
)
    ensures
        ({
            let row = token_stored(before, sealed, expires_at, stored_at);
            &&& row.token_encrypted == sealed.encrypted
            &&& row.token_iv == sealed.iv
            &&& row.token_tag == sealed.auth_tag
            &&& row.token_expires_at == expires_at
            &&& row.last_refreshed_at == Some(stored_at)
            &&& before is None ==> row.last_post_id is None && row.last_post_timestamp is None
            &&& before matches Some(old_row) ==> row.last_post_id == old_row.last_post_id
                && row.last_post_timestamp == old_row.last_post_timestamp
        }),
{
}

/// Moving the cursor puts it on the given post, and the last move wins.
pub proof fn law_cursor_is_where_it_was_moved(
    before: AccountView,
    post_id: Seq<char>,
    timestamp: Seq<char>,
    later_id: Seq<char>,
    later_timestamp: Seq<char>,
)
    ensures
        cursor_moved(before, post_id, timestamp).last_post_id == Some(post_id),
        cursor_moved(before, post_id, timestamp).last_post_timestamp == Some(timestamp),
        cursor_moved(cursor_moved(before, post_id, timestamp), later_id, later_timestamp)
            == cursor_moved(before, later_id, later_timestamp),
{
}

/// The view of a stored link holds each of its fields.
pub proof fn law_link_view_is_faithful(row: AccountRow, sealed: SealedToken)
    ensures
        row@.token_encrypted == row.token_encrypted@,
        row@.token_iv == row.token_iv@,
        row@.token_tag == row.token_tag@,
        row.token_expires_at matches Some(s) ==> row@.token_expires_at == Some(s@),
        row.token_expires_at is None ==> row@.token_expires_at is None,
        row.last_refreshed_at matches Some(s) ==> row@.last_refreshed_at == Some(s@),
        row.last_refreshed_at is None ==> row@.last_refreshed_at is None,
        row.last_post_id matches Some(s) ==> row@.last_post_id == Some(s@),
        row.last_post_id is None ==> row@.last_post_id is None,
        row.last_post_timestamp matches Some(s) ==> row@.last_post_timestamp == Some(s@),
        row.last_post_timestamp is None ==> row@.last_post_timestamp is None,
        opt_account(Some(row)) == Some(row@),
        opt_account(None) is None,
        sealed@.encrypted == sealed.encrypted@,
        sealed@.iv == sealed.iv@,
        sealed@.auth_tag == sealed.auth_tag@,
{
}

} // verus!
