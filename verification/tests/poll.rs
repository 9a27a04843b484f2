use yuuka::clock::{parse_ts, Instant};
use yuuka::db::DbError;
use yuuka::ids::SecretString;
use yuuka::instagram::account::{AccountRow, SealedToken};
use yuuka::instagram::graph::GraphOutcome;
use yuuka::instagram::poll::{Action, Event, FeedPoll, Remark, MAX_POSTS_PER_TICK};
use yuuka::instagram::settings::InstagramSettings;
use yuuka::notifier::{Notification, NotifyTarget};

const NOW: &str = "2026-09-20T00:00:00Z";

fn settings(seed: Option<&str>, app_secret: Option<&str>) -> InstagramSettings {
    let secret = |s: &str| SecretString::new(s.to_owned());
    InstagramSettings {
        channel_id: "123".to_owned(),
        poll_cron: "*/20 * * * *".to_owned(),
        owner_user_id: "owner".to_owned(),
        bot_id: "system_default".to_owned(),
        seed_token: seed.map(secret),
        app_secret: app_secret.map(secret),
    }
}

fn now() -> Instant {
    parse_ts(NOW).unwrap()
}

fn answer(body: &str) -> GraphOutcome {
    GraphOutcome::Answered { success: true, body: serde_json::from_str(body).unwrap() }
}

fn refusal() -> GraphOutcome {
    GraphOutcome::Answered { success: false, body: serde_json::Value::Null }
}

/// A stand-in for the outside: one stored row, scripted answers, and a log of what was done.
struct World {
    row: Option<AccountRow>,
    exchange: fn() -> GraphOutcome,
    refresh: fn() -> GraphOutcome,
    media: String,
    deliveries: usize,
    locked: bool,
    fail_on: &'static str,
    log: Vec<String>,
    sent: Vec<Notification>,
    remarks: Vec<Remark>,
}

fn world(row: Option<AccountRow>, media: &str) -> World {
    World {
        row,
        exchange: refusal,
        refresh: refusal,
        media: media.to_owned(),
        deliveries: usize::MAX,
        locked: false,
        fail_on: "",
        log: Vec::new(),
        sent: Vec::new(),
        remarks: Vec::new(),
    }
}

impl World {
    fn note(&mut self, what: &str, event: Event) -> Event {
        self.log.push(what.to_owned());
        if self.fail_on == what {
            Event::DbFailed(DbError::Busy)
        } else {
            event
        }
    }

    fn perform(&mut self, action: Action) -> Result<Event, Result<(), DbError>> {
        let event = match action {
            Action::Finish(result) => return Err(result),
            Action::LoadAccount => {
                let row = self.row.clone();
                self.note("load", Event::Loaded(row))
            }
            Action::Call(request) => {
                self.log.push(request.path.clone());
                Event::Replied(match request.path.as_str() {
                    "/access_token" => (self.exchange)(),
                    "/refresh_access_token" => (self.refresh)(),
                    _ => answer(&self.media),
                })
            }
            Action::SaveToken { token, expires_at } => {
                let token = token.expose_secret().to_owned();
                let sealed = SealedToken {
                    encrypted: token.clone(),
                    iv: "iv".to_owned(),
                    auth_tag: "tag".to_owned(),
                };
                self.row =
                    Some(AccountRow::with_token(self.row.take(), sealed, expires_at, &now()));
                self.note(&format!("token {token}"), Event::Stored)
            }
            Action::Decrypt { encrypted, iv, tag } => {
                assert_eq!((iv.as_str(), tag.as_str()), ("iv", "tag"));
                self.log.push("decrypt".to_owned());
                Event::Decrypted(if self.locked { None } else { Some(encrypted) })
            }
            Action::MarkChecked => self.note("checked", Event::Stored),
            Action::Send(notification) => {
                self.log.push("send".to_owned());
                let ok = self.deliveries > 0;
                if ok {
                    self.deliveries -= 1;
                    self.sent.push(notification);
                }
                Event::Delivered(ok)
            }
            Action::SaveCursor { post_id, timestamp } => {
                let what = format!("cursor {post_id}");
                self.row = self.row.take().map(|r| r.with_cursor(post_id, timestamp));
                self.note(&what, Event::Stored)
            }
        };
        Ok(event)
    }

    fn look_at(&mut self, cfg: &InstagramSettings, at: &Instant, tried: Option<Instant>) -> (
        Result<(), DbError>,
        Option<Instant>,
    ) {
        self.log.clear();
        self.remarks.clear();
        let (mut poll, mut action) = FeedPoll::start(tried);
        loop {
            match self.perform(action) {
                Ok(event) => {
                    let remark;
                    (poll, action, remark) = poll.try_step(cfg, event, at).expect("expiry");
                    self.remarks.extend(remark);
                }
                Err(result) => return (result, poll.last_attempt),
            }
        }
    }

    fn look(&mut self, cfg: &InstagramSettings) -> Result<(), DbError> {
        self.look_at(cfg, &now(), None).0
    }
}

fn linked(cursor: Option<(&str, &str)>) -> AccountRow {
    let row = AccountRow {
        token_encrypted: "TOKEN".to_owned(),
        token_iv: "iv".to_owned(),
        token_tag: "tag".to_owned(),
        token_expires_at: Some("2026-11-18T00:00:00+00:00".to_owned()),
        ..AccountRow::default()
    };
    match cursor {
        Some((id, ts)) => row.with_cursor(id.to_owned(), ts.to_owned()),
        None => row,
    }
}

fn posts(days: &[u32]) -> String {
    let items: Vec<String> = days
        .iter()
        .map(|d| format!(r#"{{"id":"P{d}","timestamp":"2026-09-{d:02}T12:00:00+0000"}}"#))
        .collect();
    format!(r#"{{"data":[{}]}}"#, items.join(","))
}

#[test]
fn first_look_links_and_sets_the_cursor() {
    let cfg = settings(Some("SHORT"), Some("APP"));
    let mut w = world(None, &posts(&[3, 9, 1]));
    w.exchange = || answer(r#"{"access_token":"LONG","expires_in":5184000}"#);
    assert!(w.look(&cfg).is_ok());
    assert_eq!(
        w.log,
        [
            "load",
            "/access_token",
            "token LONG",
            "load",
            "load",
            "decrypt",
            "/me/media",
            "checked",
            "cursor P9",
        ]
    );
    assert!(w.sent.is_empty());
    let row = w.row.unwrap();
    assert_eq!(row.token_expires_at.as_deref(), Some("2026-11-19T00:00:00+00:00"));
    assert_eq!(row.last_post_timestamp.as_deref(), Some("2026-09-09T12:00:00+0000"));
}

#[test]
fn failed_exchange_stores_the_configured_token() {
    let mut w = world(None, r#"{"data":[]}"#);
    assert!(w.look(&settings(Some("SEED"), Some("APP"))).is_ok());
    assert_eq!(w.log[..3], ["load", "/access_token", "token SEED"]);
    assert_eq!(
        w.remarks,
        [Remark::ExchangeFailed("Instagram API エラー (/access_token): 詳細不明".to_owned())]
    );
    assert_eq!(w.row.unwrap().token_expires_at, None);
}

#[test]
fn without_app_secret_nothing_is_exchanged() {
    let mut w = world(None, r#"{"data":[]}"#);
    assert!(w.look(&settings(Some("SEED"), None)).is_ok());
    assert_eq!(w.log[..2], ["load", "token SEED"]);
    assert_eq!(w.remarks, [Remark::NoAppSecret]);
    assert_eq!(w.log.last().unwrap(), "checked");
}

#[test]
fn without_any_token_nothing_happens() {
    let mut w = world(None, &posts(&[1]));
    assert!(w.look(&settings(None, Some("APP"))).is_ok());
    assert_eq!(w.log, ["load"]);
    assert_eq!(w.remarks, [Remark::NoToken]);
}

#[test]
fn new_posts_go_out_oldest_first_with_the_cursor_behind() {
    let cfg = settings(None, None);
    let mut w = world(Some(linked(Some(("P1", "2026-09-01T12:00:00+0000")))), &posts(&[3, 2, 1]));
    assert!(w.look(&cfg).is_ok());
    assert_eq!(
        w.log,
        [
            "load",
            "load",
            "load",
            "decrypt",
            "/me/media",
            "checked",
            "send",
            "cursor P2",
            "send",
            "cursor P3",
        ]
    );
    assert_eq!(w.sent[0].user_id.as_str(), "owner");
    assert_eq!(w.sent[0].bot_id.as_str(), "system_default");
    assert_eq!(w.sent[0].target, NotifyTarget::Channel("123".to_owned()));
    assert_eq!(
        w.sent[0].content,
        "📸 新規投稿を1件確認しました。\n\n内容は以上です。共有しておきますね。"
    );
    assert!(w.look(&cfg).is_ok());
    assert_eq!(w.log.last().unwrap(), "checked");
}

#[test]
fn many_posts_wait_for_the_next_look() {
    let cfg = settings(None, None);
    let days: Vec<u32> = (2..=9).rev().collect();
    let mut w = world(Some(linked(Some(("P1", "2026-09-01T12:00:00+0000")))), &posts(&days));
    assert!(w.look(&cfg).is_ok());
    assert_eq!(w.sent.len(), MAX_POSTS_PER_TICK);
    assert_eq!(w.log.last().unwrap(), "cursor P6");
    assert!(w.look(&cfg).is_ok());
    assert_eq!(w.sent.len(), 8);
    assert_eq!(w.log.last().unwrap(), "cursor P9");
}

#[test]
fn failed_delivery_is_tried_again() {
    let cfg = settings(None, None);
    let mut w = world(Some(linked(Some(("P1", "2026-09-01T12:00:00+0000")))), &posts(&[4, 3, 2]));
    w.deliveries = 1;
    assert!(w.look(&cfg).is_ok());
    assert_eq!(w.log[6..], ["send", "cursor P2", "send"]);
    assert_eq!(w.remarks, [Remark::Undelivered("P3".to_owned())]);
    w.deliveries = 10;
    assert!(w.look(&cfg).is_ok());
    assert_eq!(w.log[6..], ["send", "cursor P3", "send", "cursor P4"]);
    assert_eq!(w.sent.len(), 3);
}

#[test]
fn token_near_its_end_is_renewed() {
    let cfg = settings(None, None);
    let mut row = linked(Some(("P1", "2026-09-01T12:00:00+0000")));
    row.token_expires_at = Some("2026-09-25T00:00:00+00:00".to_owned());
    let mut w = world(Some(row), r#"{"data":[]}"#);
    w.refresh = || answer(r#"{"access_token":"RENEWED","expires_in":86400}"#);
    assert!(w.look(&cfg).is_ok());
    assert_eq!(
        w.log,
        [
            "load",
            "load",
            "decrypt",
            "/refresh_access_token",
            "token RENEWED",
            "load",
            "decrypt",
            "/me/media",
            "checked",
        ]
    );
    let row = w.row.unwrap();
    assert_eq!(row.token_expires_at.as_deref(), Some("2026-09-21T00:00:00+00:00"));
    assert_eq!(row.last_post_id.as_deref(), Some("P1"));
}

#[test]
fn failed_renewal_goes_on_and_backs_off() {
    let cfg = settings(None, None);
    let mut row = linked(None);
    row.token_expires_at = None;
    let mut w = world(Some(row), r#"{"data":[]}"#);
    let (result, tried) = w.look_at(&cfg, &now(), None);
    assert!(result.is_ok());
    assert_eq!(tried, Some(now()));
    assert_eq!(
        w.remarks,
        [Remark::RefreshFailed("Instagram API エラー (/refresh_access_token): 詳細不明".to_owned())]
    );
    assert!(w.log.contains(&"/refresh_access_token".to_owned()));
    assert_eq!(w.log.last().unwrap(), "checked");

    let soon = parse_ts("2026-09-20T00:59:59Z").unwrap();
    let (_, still) = w.look_at(&cfg, &soon, tried);
    assert_eq!(still, tried);
    assert!(!w.log.contains(&"/refresh_access_token".to_owned()));

    let later = parse_ts("2026-09-20T01:00:00Z").unwrap();
    let (_, again) = w.look_at(&cfg, &later, tried);
    assert_eq!(again, Some(later));
    assert!(w.log.contains(&"/refresh_access_token".to_owned()));
}

#[test]
fn locked_token_stops_before_fetching() {
    let cfg = settings(None, None);
    let mut row = linked(None);
    row.token_expires_at = None;
    let mut w = world(Some(row), &posts(&[1]));
    w.locked = true;
    assert!(w.look(&cfg).is_ok());
    assert_eq!(w.log, ["load", "load", "decrypt", "load", "decrypt"]);
}

#[test]
fn refused_fetch_ends_the_look_quietly() {
    let cfg = settings(None, None);
    let (poll, _) = FeedPoll::start(None);
    let (poll, _, _) = poll.try_step(&cfg, Event::Loaded(Some(linked(None))), &now()).unwrap();
    let (poll, _, _) = poll.try_step(&cfg, Event::Loaded(Some(linked(None))), &now()).unwrap();
    let (poll, _, _) = poll.try_step(&cfg, Event::Loaded(Some(linked(None))), &now()).unwrap();
    let (poll, action, _) =
        poll.try_step(&cfg, Event::Decrypted(Some("T".to_owned())), &now()).unwrap();
    assert!(matches!(&action, Action::Call(r) if r.path == "/me/media"));
    let (_, action, remark) = poll.try_step(&cfg, Event::Replied(refusal()), &now()).unwrap();
    assert!(matches!(action, Action::Finish(Ok(()))));
    assert_eq!(
        remark,
        Some(Remark::FetchFailed("Instagram API エラー (/me/media): 詳細不明".to_owned()))
    );
}

#[test]
fn database_failures_end_the_look_with_the_error() {
    for fail_on in ["load", "checked", "cursor P2"] {
        let cfg = settings(None, None);
        let mut w =
            world(Some(linked(Some(("P1", "2026-09-01T12:00:00+0000")))), &posts(&[3, 2]));
        w.fail_on = fail_on;
        assert!(matches!(w.look(&cfg), Err(DbError::Busy)));
        assert_eq!(w.log.last().unwrap(), fail_on);
    }
}

#[test]
fn row_that_vanishes_ends_the_look() {
    let cfg = settings(None, None);
    let (poll, _) = FeedPoll::start(None);
    let (poll, _, _) = poll.try_step(&cfg, Event::Loaded(Some(linked(None))), &now()).unwrap();
    let (_, action, _) = poll.try_step(&cfg, Event::Loaded(None), &now()).unwrap();
    assert!(matches!(action, Action::Finish(Ok(()))));
}

#[test]
fn event_out_of_turn_ends_the_look() {
    let cfg = settings(None, None);
    let (poll, _) = FeedPoll::start(None);
    let (poll, action, _) = poll.try_step(&cfg, Event::Delivered(true), &now()).unwrap();
    assert!(matches!(action, Action::Finish(Ok(()))));
    let (_, action, _) = poll.try_step(&cfg, Event::Stored, &now()).unwrap();
    assert!(matches!(action, Action::Finish(Ok(()))));
}

#[test]
fn lifetime_without_a_date_is_not_taken() {
    let cfg = settings(Some("SHORT"), Some("APP"));
    let (poll, _) = FeedPoll::start(None);
    let (poll, action, _) = poll.try_step(&cfg, Event::Loaded(None), &now()).unwrap();
    assert!(matches!(&action, Action::Call(r) if r.path == "/access_token"));
    let absurd = r#"{"access_token":"LONG","expires_in":9223372036854775807}"#;
    let event = Event::Replied(answer(absurd));
    assert!(!poll.can_take(&event, &now()));
    assert!(poll.try_step(&cfg, event, &now()).is_none());
}

#[test]
fn posts_of_one_instant_each_go_out_once() {
    let cfg = settings(None, None);
    let media = r#"{"data":[{"id":"A","timestamp":"2026-09-19T12:00:00+0000"},
                            {"id":"B","timestamp":"2026-09-19T12:00:00+0000"}]}"#;
    let mut w = world(Some(linked(Some(("OLD", "2026-09-18T00:00:00+0000")))), media);
    w.deliveries = 1;
    assert!(w.look(&cfg).is_ok());
    assert_eq!(w.log[6..], ["send", "cursor A", "send"]);
    assert_eq!(w.remarks, [Remark::Undelivered("B".to_owned())]);
    w.deliveries = 10;
    assert!(w.look(&cfg).is_ok());
    assert_eq!(w.log[6..], ["send", "cursor B"]);
    assert!(w.look(&cfg).is_ok());
    assert_eq!(w.log.last().unwrap(), "checked");
    assert_eq!(w.sent.len(), 2);
}

#[test]
fn limit_cuts_through_one_instant_without_loss() {
    let cfg = settings(None, None);
    let items: Vec<String> = (0..8)
        .map(|n| format!(r#"{{"id":"Q{n}","timestamp":"2026-09-19T12:00:00+0000"}}"#))
        .collect();
    let media = format!(r#"{{"data":[{}]}}"#, items.join(","));
    let mut w = world(Some(linked(Some(("OLD", "2026-09-18T00:00:00+0000")))), &media);
    assert!(w.look(&cfg).is_ok());
    assert_eq!(w.log.last().unwrap(), "cursor Q4");
    assert!(w.look(&cfg).is_ok());
    assert_eq!(w.log[6..], ["send", "cursor Q5", "send", "cursor Q6", "send", "cursor Q7"]);
    assert_eq!(w.sent.len(), 8);
}

#[test]
fn token_just_stored_is_not_renewed() {
    let cfg = settings(Some("SEED"), None);
    let mut w = world(None, r#"{"data":[]}"#);
    assert!(w.look(&cfg).is_ok());
    let soon = parse_ts("2026-09-20T00:30:00Z").unwrap();
    assert!(w.look_at(&cfg, &soon, None).0.is_ok());
    assert!(!w.log.contains(&"/refresh_access_token".to_owned()));
    assert!(w.remarks.is_empty());
    let next_day = parse_ts("2026-09-21T00:00:01Z").unwrap();
    assert!(w.look_at(&cfg, &next_day, None).0.is_ok());
    assert!(w.log.contains(&"/refresh_access_token".to_owned()));
}
