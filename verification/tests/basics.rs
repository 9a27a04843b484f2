use yuuka::clock::{
    expiry_fits, expiry_from, is_clock_reading, parse_ts, stamp, Instant, LAST_SECOND,
};
use yuuka::db::{classify_sqlite, map_sqlite, DbError, SqliteCode};
use yuuka::instagram::account::{is_refresh_due, needs_refresh, AccountRow, SealedToken};
use yuuka::json::str_field;
use yuuka::text::{
    comma_list, decimal_text, has_prefix, join, parse_unsigned, same_text, split, to_lower, trim,
    trim_trailing, truncate_chars,
};
use yuuka::turns::{clean_mime, playbook_turn, receipt_answer, receipt_turn, ReceiptError};

fn at(secs: i64, nanos: u32) -> Instant {
    Instant { secs, nanos }
}

#[test]
fn text_functions_agree_with_std() {
    for s in ["", " ", "a", "\u{85}x\u{a0}", "\u{2003}あ い\u{3000}\n", "\u{200b}z"] {
        assert_eq!(trim(s), s.trim());
    }
    for s in ["", ",", "a,b", ",a,,b,"] {
        assert_eq!(split(s, ','), s.split(',').collect::<Vec<_>>());
    }
    for s in ["", "/", "a//", "//a/b"] {
        assert_eq!(trim_trailing(s, '/'), s.trim_end_matches('/'));
    }
    for n in [0, 9, 10, 1_234_567_890, u64::MAX] {
        assert_eq!(decimal_text(n), n.to_string());
    }
    for s in ["", "+", "0", "+7", "007", "4294967295", "4294967296", "-1", "1_0", "１"] {
        assert_eq!(parse_unsigned(s, u32::MAX), s.parse::<u32>().ok());
    }
    assert_eq!(to_lower("HtTpS://Ä"), "HtTpS://Ä".to_ascii_lowercase());
    assert!(has_prefix("abc", "ab") && has_prefix("abc", "") && !has_prefix("ab", "abc"));
    assert!(same_text("あ", "あ") && !same_text("a", "A"));
}

#[test]
fn lists_and_lines() {
    assert_eq!(comma_list(" a ,, b,"), vec!["a".to_owned(), "b".to_owned()]);
    let lines = vec!["a".to_owned(), String::new(), "b".to_owned()];
    assert_eq!(join(&lines, "\n"), "a\n\nb");
    assert_eq!(join(&Vec::new(), "\n"), "");
}

#[test]
fn truncation_counts_characters() {
    assert_eq!(truncate_chars("あいう", 3), "あいう");
    assert_eq!(truncate_chars("あいう", 2), "あい…");
    assert_eq!(truncate_chars("あ", 0), "…");
}

#[test]
fn times_are_read_in_both_layouts() {
    assert_eq!(parse_ts("1970-01-01T00:00:01Z"), Some(at(1, 0)));
    assert_eq!(parse_ts("1970-01-01T09:00:00.5+09:00"), Some(at(0, 500_000_000)));
    assert_eq!(parse_ts("1970-01-01T01:00:00+0100"), Some(at(0, 0)));
    assert_eq!(parse_ts("1969-12-31T23:59:59+0000"), Some(at(-1, 0)));
    assert_eq!(parse_ts("1970-01-01"), None);
    assert_eq!(parse_ts(""), None);
}

#[test]
fn instants_compare_and_subtract() {
    assert!(at(1, 0).is_before(&at(1, 1)));
    assert!(!at(1, 1).is_before(&at(1, 1)));
    assert!(at(-5, 9).is_before(&at(-4, 0)));
    assert_eq!(at(10, 0).since(&at(8, 500_000_000)), 1_500_000_000);
    assert_eq!(at(8, 0).since(&at(10, 0)), -2_000_000_000);
    assert_eq!(at(86_400, 0).since(&at(86_399, 1_500_000_000)), -500_000_000);
    assert_eq!(at(86_401, 0).since(&at(-1, 0)), 86_402_000_000_000);
}

#[test]
fn leap_seconds_are_subtracted_as_chrono_does() {
    let texts = [
        "2015-06-30T23:59:60.25Z",
        "2015-06-30T23:59:59Z",
        "2015-07-01T00:00:00Z",
        "2015-07-02T12:00:00Z",
        "2015-06-28T10:00:00.125Z",
    ];
    for a in texts {
        for b in texts {
            let x = chrono::DateTime::parse_from_rfc3339(a).unwrap();
            let y = chrono::DateTime::parse_from_rfc3339(b).unwrap();
            let expected = (x - y).num_nanoseconds().unwrap() as i128;
            assert_eq!(parse_ts(a).unwrap().since(&parse_ts(b).unwrap()), expected);
        }
    }
}

#[test]
fn expiry_is_written_and_read_back() {
    let now = at(1_700_000_000, 5);
    assert_eq!(
        expiry_from(&at(0, 0), Some(60)).as_deref(),
        Some("1970-01-01T00:01:00+00:00")
    );
    let text = expiry_from(&now, Some(5_184_000)).expect("granted");
    assert_eq!(parse_ts(&text), Some(at(1_705_184_000, 5)));
    assert_eq!(expiry_from(&now, None), None);
    assert_eq!(expiry_from(&now, Some(0)), None);
    assert_eq!(expiry_from(&now, Some(-9)), None);
}

#[test]
fn expiry_must_have_a_date() {
    let now = at(100, 0);
    assert!(expiry_fits(&now, Some(LAST_SECOND - 100)));
    assert!(!expiry_fits(&now, Some(LAST_SECOND - 99)));
    assert!(!expiry_fits(&now, Some(i64::MAX)));
    assert!(expiry_fits(&now, Some(i64::MIN)));
    assert!(expiry_fits(&now, None));
    assert!(!expiry_fits(&at(-1, 0), Some(1)));
    assert!(expiry_from(&now, Some(LAST_SECOND - 100)).expect("last").starts_with("+262142-12-31"));
}

const DAY: i64 = 86_400;

#[test]
fn known_expiry_decides_alone() {
    let now = at(1_000 * DAY, 0);
    let due = |end: Instant| is_refresh_due(Some(end), None, &now, Some(now));
    assert!(due(at(1_009 * DAY, 0)));
    assert!(due(at(1_010 * DAY - 1, 999_999_999)));
    assert!(!due(at(1_010 * DAY, 0)));
    assert!(due(at(0, 0)));
}

#[test]
fn unknown_expiry_waits_for_age_and_distance() {
    let now = at(1_000 * DAY, 0);
    let due = |stored, attempt| is_refresh_due(None, stored, &now, attempt);
    assert!(due(None, None));
    assert!(!due(Some(at(999 * DAY, 0)), None));
    assert!(due(Some(at(999 * DAY - 1, 0)), None));
    assert!(!due(None, Some(at(1_000 * DAY - 3_599, 0))));
    assert!(due(None, Some(at(1_000 * DAY - 3_600, 0))));
    assert!(!due(Some(at(999 * DAY + 1, 0)), Some(at(0, 0))));
}

#[test]
fn stored_link_is_judged_by_its_texts() {
    let now = parse_ts("2026-09-20T00:00:00Z").unwrap();
    let mut row = AccountRow::default();
    assert!(needs_refresh(&row, &now, None));
    row.token_expires_at = Some("2026-11-18T00:00:00+00:00".to_owned());
    assert!(!needs_refresh(&row, &now, None));
    row.token_expires_at = Some("2026-09-29T00:00:00+00:00".to_owned());
    assert!(needs_refresh(&row, &now, None));
    row.token_expires_at = Some("soon".to_owned());
    row.last_refreshed_at = Some("2026-09-19T12:00:00+00:00".to_owned());
    assert!(!needs_refresh(&row, &now, None));
    row.last_refreshed_at = Some("2026-09-18T12:00:00+00:00".to_owned());
    assert!(needs_refresh(&row, &now, None));
}

fn sealed(mark: &str) -> SealedToken {
    SealedToken {
        encrypted: format!("{mark}-enc"),
        iv: format!("{mark}-iv"),
        auth_tag: format!("{mark}-tag"),
    }
}

#[test]
fn storing_a_token_keeps_the_cursor() {
    let first = at(1_700_000_000, 0);
    let row = AccountRow::with_token(None, sealed("one"), Some("e".to_owned()), &first);
    assert_eq!(row.last_post_id, None);
    assert_eq!(row.token_expires_at.as_deref(), Some("e"));
    let row = row.with_cursor("POST_A".to_owned(), "2026-09-18T10:00:00+0000".to_owned());
    assert_eq!(row.token_encrypted, "one-enc");
    let second = at(1_700_000_060, 5);
    let row = AccountRow::with_token(Some(row), sealed("two"), None, &second);
    assert_eq!(row.token_encrypted, "two-enc");
    assert_eq!(row.token_iv, "two-iv");
    assert_eq!(row.token_tag, "two-tag");
    assert_eq!(row.token_expires_at, None);
    assert_eq!(row.last_refreshed_at.as_deref(), Some("2023-11-14T22:14:20.000000005+00:00"));
    assert_eq!(parse_ts(row.last_refreshed_at.as_deref().unwrap()), Some(second));
    assert_eq!(row.last_post_id.as_deref(), Some("POST_A"));
    assert_eq!(row.last_post_timestamp.as_deref(), Some("2026-09-18T10:00:00+0000"));
}

#[test]
fn driver_errors_are_told_apart() {
    let failure = |code| {
        rusqlite::Error::SqliteFailure(rusqlite::ffi::Error::new(code), Some("why".to_owned()))
    };
    assert!(matches!(map_sqlite(failure(5)), DbError::Busy));
    assert!(matches!(map_sqlite(failure(6)), DbError::Busy));
    assert!(matches!(map_sqlite(failure(19)), DbError::Operation(m) if m == "why"));
    let other = rusqlite::Error::QueryReturnedNoRows;
    let text = other.to_string();
    assert!(matches!(map_sqlite(other), DbError::Operation(m) if m == text));
    assert!(matches!(
        classify_sqlite(Some(SqliteCode::Other), "m".to_owned()),
        DbError::Operation(m) if m == "m"
    ));
}

#[test]
fn real_driver_failure_is_mapped() {
    let conn = rusqlite::Connection::open_in_memory().unwrap();
    let error = conn.execute("INSERT INTO missing VALUES (1)", []).unwrap_err();
    assert!(matches!(map_sqlite(error), DbError::Operation(m) if m.contains("missing")));
}

#[test]
fn string_members_are_read() {
    let v: serde_json::Value = serde_json::from_str(r#"{"a":"x","b":1}"#).unwrap();
    assert_eq!(str_field(&v, "a").as_deref(), Some("x"));
    assert_eq!(str_field(&v, "b"), None);
    assert_eq!(str_field(&v, "c"), None);
    assert_eq!(str_field(&serde_json::Value::Null, "a"), None);
}

#[test]
fn mime_types_lose_their_parameters() {
    assert_eq!(clean_mime("image/png"), "image/png");
    assert_eq!(clean_mime(" image/jpeg ; charset=x;y"), "image/jpeg");
    assert_eq!(clean_mime(";x"), "");
}

#[test]
fn receipts_become_turns_unless_limited() {
    let turn = receipt_turn(None, "QUJD", "image/png; q=1", Some("lunch")).expect("turn");
    assert_eq!(turn.text, "lunch");
    let image = turn.image.expect("image");
    assert_eq!(image.data_base64, "QUJD");
    assert_eq!(image.mime_type, "image/png");
    assert_eq!(receipt_turn(None, "", "", None).ok().expect("turn").text, "");
    assert_eq!(
        receipt_turn(Some("slow down".to_owned()), "QUJD", "image/png", None).err(),
        Some(ReceiptError::RateLimited("slow down".to_owned()))
    );
}

#[test]
fn receipt_answers_are_json_strings() {
    assert_eq!(
        receipt_answer(Ok("done".to_owned())).unwrap(),
        serde_json::Value::String("done".to_owned())
    );
    assert_eq!(
        receipt_answer(Err("down".to_owned())).unwrap_err(),
        ReceiptError::Unavailable
    );
}

#[test]
fn playbooks_are_turns_without_pictures() {
    let turn = playbook_turn("go".to_owned());
    assert_eq!(turn.text, "go");
    assert!(turn.image.is_none());
}

#[test]
fn token_of_unknown_expiry_is_left_alone_for_a_day() {
    let saved = parse_ts("2026-09-20T00:00:00.25Z").unwrap();
    let row = AccountRow::with_token(None, sealed("one"), None, &saved);
    let after = |secs: i64| at(saved.secs + secs, saved.nanos);
    assert!(!needs_refresh(&row, &after(30 * 60), None));
    assert!(!needs_refresh(&row, &after(DAY), None));
    assert!(needs_refresh(&row, &after(DAY + 1), None));
    let row = row.with_cursor("P".to_owned(), "2026-09-19T00:00:00Z".to_owned());
    assert!(!needs_refresh(&row, &after(DAY), None));
}

#[test]
fn clock_readings_are_stamped_and_read_back() {
    let now = at(1_700_000_000, 123_000_000);
    assert!(is_clock_reading(&now));
    assert_eq!(stamp(&now), "2023-11-14T22:13:20.123+00:00");
    assert_eq!(parse_ts(&stamp(&now)), Some(now));
    assert!(!is_clock_reading(&at(-1, 0)));
    assert!(!is_clock_reading(&at(0, 1_000_000_000)));
    assert!(!is_clock_reading(&at(LAST_SECOND + 1, 0)));
}
