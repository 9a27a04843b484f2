use yuuka::instagram::graph::{
    exchange_request, exchanged_token, graph_reply, lifetime_brought, media_request, parse_media,
    parse_media_list, recent_media, refresh_request, refreshed_token, GraphOutcome, MEDIA_FIELDS,
    MEDIA_PATH, NO_EXCHANGED_TOKEN, NO_REFRESHED_TOKEN,
};
use yuuka::instagram::media::{
    child_image_url, primary_image_url, render_post, Media, MediaChild, MAX_CAPTION_CHARS,
};
use yuuka::instagram::select::{newest_media, select_new_posts};
use yuuka::instagram::unsent::unsent_posts;

fn post(id: &str, ts: &str) -> Media {
    Media {
        id: id.to_owned(),
        timestamp: ts.to_owned(),
        media_type: "IMAGE".to_owned(),
        media_url: Some(format!("https://cdn.example/{id}.jpg")),
        permalink: Some(format!("https://instagram.com/p/{id}")),
        caption: Some(format!("投稿 {id}")),
        username: Some("yanas".to_owned()),
        ..Media::default()
    }
}

fn sample() -> Vec<Media> {
    vec![
        post("P3", "2026-09-18T12:00:00+0000"),
        post("P2", "2026-09-17T12:00:00+0000"),
        post("P1", "2026-09-16T12:00:00+0000"),
    ]
}

fn ids(v: &[Media]) -> Vec<&str> {
    v.iter().map(|m| m.id.as_str()).collect()
}

fn json(text: &str) -> serde_json::Value {
    serde_json::from_str(text).expect("json")
}

fn image_child(url: &str) -> MediaChild {
    MediaChild {
        media_type: "IMAGE".to_owned(),
        media_url: Some(url.to_owned()),
        thumbnail_url: None,
    }
}

#[test]
fn cursor_unset_selects_nothing() {
    assert!(select_new_posts(&sample(), None, None).is_empty());
}

#[test]
fn selects_newer_than_cursor_oldest_first() {
    let got = select_new_posts(&sample(), Some("2026-09-16T12:00:00+0000"), Some("P1"));
    assert_eq!(ids(&got), ["P2", "P3"]);
}

#[test]
fn no_new_posts_selects_nothing() {
    let got = select_new_posts(&sample(), Some("2026-09-18T12:00:00+0000"), Some("P3"));
    assert!(got.is_empty());
}

#[test]
fn deleted_cursor_post_still_selects_only_new() {
    let mut media = vec![post("P4", "2026-09-19T12:00:00+0000")];
    media.extend(sample());
    let got = select_new_posts(&media, Some("2026-09-18T18:00:00+0000"), Some("DELETED"));
    assert_eq!(ids(&got), ["P4"]);
}

#[test]
fn cursor_id_is_excluded_at_boundary() {
    let got = select_new_posts(&sample(), Some("2026-09-17T12:00:00+0000"), Some("P2"));
    assert_eq!(ids(&got), ["P3"]);
}

#[test]
fn unparsable_timestamp_is_ignored() {
    let media = vec![
        post("OK", "2026-09-19T12:00:00+0000"),
        post("BAD", "not-a-date"),
    ];
    let got = select_new_posts(&media, Some("2026-09-18T00:00:00+0000"), None);
    assert_eq!(ids(&got), ["OK"]);
}

#[test]
fn newest_media_ignores_fetch_order() {
    let media = vec![
        post("B", "2026-09-17T12:00:00+0000"),
        post("C", "2026-09-19T12:00:00+0000"),
        post("A", "2026-09-16T12:00:00+0000"),
    ];
    assert_eq!(newest_media(&media).unwrap().id, "C");
    assert!(newest_media(&[]).is_none());
}

#[test]
fn image_uses_media_url() {
    let p = post("P", "2026-09-19T12:00:00+0000");
    assert_eq!(
        primary_image_url(&p).as_deref(),
        Some("https://cdn.example/P.jpg")
    );
}

#[test]
fn video_uses_thumbnail_not_mp4() {
    let mut p = post("V", "2026-09-19T12:00:00+0000");
    p.media_type = "VIDEO".to_owned();
    p.media_url = Some("https://cdn.example/V.mp4".to_owned());
    p.thumbnail_url = Some("https://cdn.example/V.jpg".to_owned());
    assert_eq!(
        primary_image_url(&p).as_deref(),
        Some("https://cdn.example/V.jpg")
    );
}

#[test]
fn carousel_uses_first_child() {
    let mut p = post("C", "2026-09-19T12:00:00+0000");
    p.media_type = "CAROUSEL_ALBUM".to_owned();
    p.media_url = None;
    p.children = vec![
        MediaChild {
            media_type: "IMAGE".to_owned(),
            media_url: Some("https://cdn.example/c1.jpg".to_owned()),
            thumbnail_url: None,
        },
        MediaChild {
            media_type: "IMAGE".to_owned(),
            media_url: Some("https://cdn.example/c2.jpg".to_owned()),
            thumbnail_url: None,
        },
    ];
    assert_eq!(
        primary_image_url(&p).as_deref(),
        Some("https://cdn.example/c1.jpg")
    );
}

#[test]
fn carousel_first_video_uses_its_thumbnail() {
    let mut p = post("C", "2026-09-19T12:00:00+0000");
    p.media_type = "CAROUSEL_ALBUM".to_owned();
    p.media_url = None;
    p.children = vec![MediaChild {
        media_type: "VIDEO".to_owned(),
        media_url: Some("https://cdn.example/c1.mp4".to_owned()),
        thumbnail_url: Some("https://cdn.example/c1.jpg".to_owned()),
    }];
    assert_eq!(
        primary_image_url(&p).as_deref(),
        Some("https://cdn.example/c1.jpg")
    );
}

#[test]
fn video_without_thumbnail_has_no_image() {
    let mut p = post("N", "2026-09-19T12:00:00+0000");
    p.media_type = "VIDEO".to_owned();
    p.media_url = Some("https://cdn.example/N.mp4".to_owned());
    p.thumbnail_url = None;
    assert!(primary_image_url(&p).is_none());
}

#[test]
fn rendered_post_carries_caption_permalink_and_image() {
    let body = render_post(&post("P", "2026-09-19T12:00:00+0000"));
    assert!(body.starts_with("📸 新規投稿を1件確認しました。"));
    assert!(body.contains("投稿 P"));
    assert!(body.contains("内容は以上です。共有しておきますね。"));
    assert!(body.contains("https://instagram.com/p/P"));
    assert!(body.contains("https://cdn.example/P.jpg"));
}

#[test]
fn rendered_video_notes_media_type() {
    let mut p = post("V", "2026-09-19T12:00:00+0000");
    p.media_type = "VIDEO".to_owned();
    p.thumbnail_url = Some("https://cdn.example/V.jpg".to_owned());
    let body = render_post(&p);
    assert!(body.contains("🎬 動画です。"));
    assert!(body.contains("https://cdn.example/V.jpg"));
}

#[test]
fn rendered_carousel_notes_image_count() {
    let mut p = post("C", "2026-09-19T12:00:00+0000");
    p.media_type = "CAROUSEL_ALBUM".to_owned();
    p.children = vec![
        MediaChild {
            media_type: "IMAGE".to_owned(),
            media_url: Some("https://cdn.example/c1.jpg".to_owned()),
            thumbnail_url: None,
        },
        MediaChild {
            media_type: "IMAGE".to_owned(),
            media_url: Some("https://cdn.example/c2.jpg".to_owned()),
            thumbnail_url: None,
        },
    ];
    assert!(render_post(&p).contains("🖼 写真2枚の投稿です。"));
}

#[test]
fn long_caption_is_truncated() {
    let mut p = post("L", "2026-09-19T12:00:00+0000");
    p.caption = Some("あ".repeat(MAX_CAPTION_CHARS + 500));
    let body = render_post(&p);
    assert!(body.contains('…'));
    assert!(body.contains("https://instagram.com/p/L"));
}

#[test]
fn parses_media_list_and_drops_broken_entries() {
    let body = json(
        r#"{
            "data": [
                {
                    "id": "A", "timestamp": "2026-09-19T12:00:00+0000",
                    "media_type": "CAROUSEL_ALBUM", "permalink": "https://instagram.com/p/A",
                    "children": { "data": [
                        { "id": "c1", "media_type": "IMAGE", "media_url": "https://cdn.example/c1.jpg" }
                    ]}
                },
                { "id": "NO_TS", "media_type": "IMAGE" },
                { "timestamp": "2026-09-19T13:00:00+0000", "media_type": "IMAGE" }
            ]
        }"#,
    );
    let media = parse_media_list(&body);
    assert_eq!(ids(&media), ["A"]);
    assert_eq!(media[0].children.len(), 1);
}

#[test]
fn parses_empty_payload() {
    assert!(parse_media_list(&json("{}")).is_empty());
}

#[test]
fn rendered_image_post_is_exact() {
    let body = render_post(&post("P", "2026-09-19T12:00:00+0000"));
    assert_eq!(
        body,
        "📸 新規投稿を1件確認しました。\n\n投稿 P\n\n内容は以上です。共有しておきますね。\n\n\
         https://instagram.com/p/P\nhttps://cdn.example/P.jpg"
    );
}

#[test]
fn rendered_album_is_exact() {
    let mut p = Media::default();
    p.media_type = "CAROUSEL_ALBUM".to_owned();
    p.caption = Some("  \n ".to_owned());
    p.children = (0..12).map(|n| image_child(&format!("u{n}"))).collect();
    assert_eq!(
        render_post(&p),
        "📸 新規投稿を1件確認しました。\n\n🖼 写真12枚の投稿です。先頭の1枚のみ載せておきますね。\nu0"
    );
}

#[test]
fn album_with_one_picture_has_the_plain_remark() {
    let mut p = Media::default();
    p.media_type = "CAROUSEL_ALBUM".to_owned();
    p.children = vec![image_child("only")];
    assert_eq!(
        render_post(&p),
        "📸 新規投稿を1件確認しました。\n\n内容は以上です。共有しておきますね。\nonly"
    );
}

#[test]
fn caption_is_trimmed_and_cut_by_characters() {
    let mut p = post("L", "2026-09-19T12:00:00+0000");
    let full = "あ".repeat(MAX_CAPTION_CHARS);
    p.caption = Some(format!("\u{3000} {full} \n"));
    assert!(!render_post(&p).contains('…'));
    p.caption = Some(format!("{full}い"));
    assert!(render_post(&p).contains(&format!("\n{full}…\n")));
    assert!(!render_post(&p).contains('い'));
}

#[test]
fn empty_album_falls_back_to_its_own_picture() {
    let mut p = post("C", "2026-09-19T12:00:00+0000");
    p.media_type = "CAROUSEL_ALBUM".to_owned();
    assert_eq!(primary_image_url(&p).as_deref(), Some("https://cdn.example/C.jpg"));
    p.media_url = None;
    p.thumbnail_url = Some("thumb".to_owned());
    assert_eq!(primary_image_url(&p).as_deref(), Some("thumb"));
}

#[test]
fn child_picture_falls_back_to_its_preview() {
    let mut child = MediaChild::default();
    child.thumbnail_url = Some("thumb".to_owned());
    assert_eq!(child_image_url(&child).as_deref(), Some("thumb"));
    child.media_url = Some("picture".to_owned());
    assert_eq!(child_image_url(&child).as_deref(), Some("picture"));
    child.media_type = "VIDEO".to_owned();
    assert_eq!(child_image_url(&child).as_deref(), Some("thumb"));
}

#[test]
fn both_time_layouts_and_offsets_are_compared_as_instants() {
    let media = vec![
        post("NOON_TOKYO", "2026-09-18T12:00:00+09:00"),
        post("NOON_UTC", "2026-09-18T12:00:00Z"),
        post("NOON_PLAIN", "2026-09-18T12:00:00+0000"),
    ];
    let got = select_new_posts(&media, Some("2026-09-18T11:59:59+00:00"), None);
    assert_eq!(ids(&got), ["NOON_UTC", "NOON_PLAIN"]);
    let got = select_new_posts(&media, Some("2026-09-18T02:00:00Z"), None);
    assert_eq!(ids(&got), ["NOON_TOKYO", "NOON_UTC", "NOON_PLAIN"]);
}

#[test]
fn fractions_of_a_second_order_posts() {
    let media = vec![
        post("LATE", "2026-09-18T12:00:00.750Z"),
        post("EARLY", "2026-09-18T12:00:00.250Z"),
    ];
    let got = select_new_posts(&media, Some("2026-09-18T12:00:00Z"), None);
    assert_eq!(ids(&got), ["EARLY", "LATE"]);
    assert_eq!(newest_media(&media).unwrap().id, "LATE");
}

#[test]
fn posts_of_one_time_keep_their_order() {
    let at = "2026-09-18T12:00:00+0000";
    let media = vec![post("X", at), post("A", at), post("M", at)];
    let got = select_new_posts(&media, Some("2026-09-18T11:00:00+0000"), Some("A"));
    assert_eq!(ids(&got), ["X", "M"]);
    assert_eq!(newest_media(&media).unwrap().id, "M");
}

#[test]
fn posts_without_an_id_are_left_out() {
    let media = vec![post("", "2026-09-19T12:00:00+0000")];
    assert!(select_new_posts(&media, Some("2026-09-18T00:00:00+0000"), None).is_empty());
    assert!(newest_media(&media).is_none());
}

#[test]
fn unreadable_cursor_selects_nothing() {
    assert!(select_new_posts(&sample(), Some("yesterday"), None).is_empty());
}

#[test]
fn forwarding_takes_up_behind_each_post() {
    let media = sample();
    let all = select_new_posts(&media, Some("2026-09-01T00:00:00+0000"), None);
    assert_eq!(ids(&all), ["P1", "P2", "P3"]);
    for done in 1..=all.len() {
        let last = &all[done - 1];
        let rest = select_new_posts(&media, Some(&last.timestamp), Some(&last.id));
        assert_eq!(rest, all[done..].to_vec());
    }
}

#[test]
fn selected_posts_are_whole_copies() {
    let got = select_new_posts(&sample(), Some("2026-09-17T12:00:00+0000"), None);
    assert_eq!(got, vec![post("P3", "2026-09-18T12:00:00+0000")]);
}

#[test]
fn media_request_is_exact() {
    let request = media_request("TOKEN");
    assert_eq!(request.url(), "https://graph.instagram.com/me/media");
    assert_eq!(
        request.params,
        vec![
            ("fields".to_owned(), MEDIA_FIELDS.to_owned()),
            ("limit".to_owned(), "25".to_owned()),
            ("access_token".to_owned(), "TOKEN".to_owned()),
        ]
    );
    assert_eq!(
        MEDIA_FIELDS,
        "id,caption,media_type,media_url,thumbnail_url,permalink,timestamp,\
         username,children{id,media_type,media_url,thumbnail_url}"
    );
}

#[test]
fn token_requests_are_exact() {
    let request = exchange_request("SHORT", "APP");
    assert_eq!(request.url(), "https://graph.instagram.com/access_token");
    assert_eq!(
        request.params,
        vec![
            ("grant_type".to_owned(), "ig_exchange_token".to_owned()),
            ("client_secret".to_owned(), "APP".to_owned()),
            ("access_token".to_owned(), "SHORT".to_owned()),
        ]
    );
    let request = refresh_request("LONG");
    assert_eq!(request.url(), "https://graph.instagram.com/refresh_access_token");
    assert_eq!(
        request.params,
        vec![
            ("grant_type".to_owned(), "ig_refresh_token".to_owned()),
            ("access_token".to_owned(), "LONG".to_owned()),
        ]
    );
}

fn answered(success: bool, body: &str) -> GraphOutcome {
    GraphOutcome::Answered { success, body: json(body) }
}

/// A failure that holds the URL of its call, with the token in it.
fn call_error() -> reqwest::Error {
    let url = reqwest::Url::parse("https://graph.instagram.com/me/media?access_token=SECRET");
    reqwest::Client::new()
        .get("no url")
        .build()
        .unwrap_err()
        .with_url(url.unwrap())
}

#[test]
fn error_texts_hold_no_url() {
    assert!(call_error().to_string().contains("SECRET"));
    let outcomes: [fn(reqwest::Error) -> GraphOutcome; 3] =
        [GraphOutcome::NoClient, GraphOutcome::CallFailed, GraphOutcome::Unreadable];
    for outcome in outcomes {
        let text = recent_media(outcome(call_error())).unwrap_err();
        assert!(!text.contains("SECRET") && !text.contains("https"));
        assert!(text.ends_with(": builder error"));
    }
}

#[test]
fn failed_requests_give_the_error_texts() {
    let text = |outcome| graph_reply(MEDIA_PATH, outcome).unwrap_err();
    assert_eq!(
        text(GraphOutcome::NoClient(call_error())),
        "HTTP クライアントの構築に失敗: builder error"
    );
    assert_eq!(
        text(GraphOutcome::CallFailed(call_error())),
        "/me/media の呼び出しに失敗: builder error"
    );
    assert_eq!(
        text(GraphOutcome::Unreadable(call_error())),
        "/me/media の応答を解析できません: builder error"
    );
    assert_eq!(
        text(answered(false, r#"{"error":{"message":"Invalid token"}}"#)),
        "Instagram API エラー (/me/media): Invalid token"
    );
    assert_eq!(
        text(answered(false, r#"{"error":{"message":17}}"#)),
        "Instagram API エラー (/me/media): 詳細不明"
    );
    assert_eq!(
        text(answered(false, "[]")),
        "Instagram API エラー (/me/media): 詳細不明"
    );
}

#[test]
fn successful_reply_is_handed_on() {
    let body = graph_reply(MEDIA_PATH, answered(true, r#"{"a":[1,2]}"#)).unwrap();
    assert_eq!(body, json(r#"{"a":[1,2]}"#));
}

#[test]
fn recent_media_reads_the_posts_or_the_error() {
    let media = recent_media(answered(
        true,
        r#"{"data":[{"id":"A","timestamp":"2026-09-19T12:00:00+0000"}]}"#,
    ))
    .unwrap();
    assert_eq!(ids(&media), ["A"]);
    assert_eq!(media[0].media_type, "");
    assert_eq!(
        recent_media(answered(false, "{}")).unwrap_err(),
        "Instagram API エラー (/me/media): 詳細不明"
    );
}

#[test]
fn tokens_are_read_with_their_lifetime() {
    let full = r#"{"access_token":"NEW","expires_in":5184000}"#;
    assert_eq!(
        exchanged_token(answered(true, full)),
        Ok(("NEW".to_owned(), Some(5_184_000)))
    );
    assert_eq!(
        refreshed_token(answered(true, r#"{"access_token":"NEW"}"#)),
        Ok(("NEW".to_owned(), None))
    );
    assert_eq!(
        refreshed_token(answered(true, r#"{"access_token":"NEW","expires_in":1.5}"#)),
        Ok(("NEW".to_owned(), None))
    );
    assert_eq!(
        exchanged_token(answered(true, "{}")),
        Err(NO_EXCHANGED_TOKEN.to_owned())
    );
    assert_eq!(
        refreshed_token(answered(true, r#"{"access_token":null}"#)),
        Err(NO_REFRESHED_TOKEN.to_owned())
    );
    assert_eq!(
        refreshed_token(answered(false, full)),
        Err("Instagram API エラー (/refresh_access_token): 詳細不明".to_owned())
    );
}

#[test]
fn only_a_token_brings_a_lifetime() {
    let full = r#"{"access_token":"NEW","expires_in":60}"#;
    assert_eq!(lifetime_brought(&answered(true, full)), Some(60));
    assert_eq!(lifetime_brought(&answered(false, full)), None);
    assert_eq!(lifetime_brought(&answered(true, r#"{"expires_in":60}"#)), None);
    assert_eq!(lifetime_brought(&GraphOutcome::CallFailed(call_error())), None);
}

#[test]
fn every_member_of_a_post_is_read() {
    let full = parse_media(&json(
        r#"{"id":"A","timestamp":"2026-09-19T12:00:00+0000","media_type":"VIDEO",
            "media_url":"m","thumbnail_url":"t","permalink":"p","caption":"c","username":"u",
            "children":{"data":[{"media_type":"IMAGE","media_url":"cm","thumbnail_url":"ct"},{}]}}"#,
    ))
    .unwrap();
    assert_eq!(
        full,
        Media {
            id: "A".to_owned(),
            timestamp: "2026-09-19T12:00:00+0000".to_owned(),
            media_type: "VIDEO".to_owned(),
            media_url: Some("m".to_owned()),
            thumbnail_url: Some("t".to_owned()),
            permalink: Some("p".to_owned()),
            caption: Some("c".to_owned()),
            username: Some("u".to_owned()),
            children: vec![
                MediaChild {
                    media_type: "IMAGE".to_owned(),
                    media_url: Some("cm".to_owned()),
                    thumbnail_url: Some("ct".to_owned()),
                },
                MediaChild::default(),
            ],
        }
    );
    assert!(parse_media(&json(r#"{"id":"A","timestamp":"soon"}"#)).is_none());
    assert!(parse_media(&json(r#"{"id":7,"timestamp":"2026-09-19T12:00:00Z"}"#)).is_none());
}

#[test]
fn dropping_a_broken_element_keeps_the_others() {
    let with = json(
        r#"{"data":[{"id":"A","timestamp":"2026-09-19T12:00:00Z"},3,
                    {"id":"B","timestamp":"2026-09-20T12:00:00Z"}]}"#,
    );
    let without = json(
        r#"{"data":[{"id":"A","timestamp":"2026-09-19T12:00:00Z"},
                    {"id":"B","timestamp":"2026-09-20T12:00:00Z"}]}"#,
    );
    assert_eq!(parse_media_list(&with), parse_media_list(&without));
    assert_eq!(ids(&parse_media_list(&with)), ["A", "B"]);
    assert!(parse_media_list(&json(r#"{"data":{"id":"A"}}"#)).is_empty());
}

#[test]
fn longest_message_leaves_room_for_links() {
    let mut p = post("L", "2026-09-19T12:00:00+0000");
    p.caption = Some("字".repeat(5000));
    p.media_type = "CAROUSEL_ALBUM".to_owned();
    p.children = (0..20).map(|n| image_child(&format!("https://cdn.example/{n}.jpg"))).collect();
    let body = render_post(&p);
    let links = "https://instagram.com/p/L".len() + "https://cdn.example/0.jpg".len();
    assert!(body.chars().count() <= 1600 + links);
    assert!(body.chars().count() <= 2000);
    assert!(body.ends_with("https://instagram.com/p/L\nhttps://cdn.example/0.jpg"));
}

#[test]
fn posts_of_one_instant_are_unsent_behind_the_cursor() {
    let at = "2026-09-19T12:00:00+0000";
    let media = vec![
        post("D", "2026-09-20T12:00:00+0000"),
        post("A", at),
        post("B", at),
        post("C", "2026-09-19T21:00:00+09:00"),
        post("OLD", "2026-09-18T12:00:00+0000"),
    ];
    let left = |ts: &str, id: Option<&str>| {
        unsent_posts(&media, Some(ts), id).iter().map(|m| m.id.clone()).collect::<Vec<_>>()
    };
    assert_eq!(left("2026-09-18T12:00:00+0000", Some("OLD")), ["A", "B", "C", "D"]);
    assert_eq!(left(at, Some("A")), ["B", "C", "D"]);
    assert_eq!(left(at, Some("B")), ["C", "D"]);
    assert_eq!(left(at, Some("C")), ["D"]);
    assert!(left("2026-09-20T12:00:00+0000", Some("D")).is_empty());
    // A cursor whose post is gone goes by its time.
    assert_eq!(left(at, Some("GONE")), ["D"]);
    assert_eq!(left("2026-09-19T00:00:00+0000", Some("GONE")), ["A", "B", "C", "D"]);
    assert_eq!(left(at, None), ["D"]);
    assert!(unsent_posts(&media, None, Some("A")).is_empty());
    assert!(unsent_posts(&media, Some("soon"), Some("A")).is_empty());
}

#[test]
fn post_listed_twice_is_not_sent_again() {
    let at = "2026-09-19T12:00:00+0000";
    let media = vec![post("A", at), post("B", at), post("A", at)];
    assert!(unsent_posts(&media, Some(at), Some("A")).is_empty());
    let later = vec![post("A", at), post("A", "2026-09-20T12:00:00+0000")];
    assert!(unsent_posts(&later, Some(at), Some("A")).is_empty());
}

#[test]
fn newest_post_leaves_nothing_unsent() {
    let at = "2026-09-19T12:00:00+0000";
    let media = vec![post("A", at), post("B", at), post("OLD", "2026-09-18T12:00:00+0000")];
    let newest = newest_media(&media).unwrap();
    assert_eq!(newest.id, "B");
    assert!(unsent_posts(&media, Some(&newest.timestamp), Some(&newest.id)).is_empty());
}

#[test]
fn every_cursor_leaves_exactly_what_is_behind() {
    let at = "2026-09-19T12:00:00+0000";
    let media = vec![
        post("E", "2026-09-21T12:00:00+0000"),
        post("B", at),
        post("C", at),
        post("D", at),
        post("A", "2026-09-18T12:00:00+0000"),
    ];
    let all = unsent_posts(&media, Some("2026-09-01T00:00:00+0000"), None);
    assert_eq!(ids(&all), ["A", "B", "C", "D", "E"]);
    for done in 1..=all.len() {
        let last = &all[done - 1];
        let rest = unsent_posts(&media, Some(&last.timestamp), Some(&last.id));
        assert_eq!(rest, all[done..].to_vec());
    }
}

#[test]
fn failed_calls_are_told_in_fixed_texts() {
    assert_eq!(yuuka::http::fault_text(call_error()), "builder error");
    let url = reqwest::Url::parse("https://graph.instagram.com/me?access_token=SECRET").unwrap();
    let proxy = reqwest::Proxy::all("no url").unwrap_err().with_url(url);
    assert_eq!(yuuka::http::fault_text(proxy), "builder error");
}

#[test]
fn status_failures_are_told_by_their_number() {
    let answer = axum::http::Response::builder().status(404).body("gone").unwrap();
    let url = reqwest::Url::parse("https://graph.instagram.com/me?access_token=SECRET").unwrap();
    let error = reqwest::Response::from(answer).error_for_status().unwrap_err().with_url(url);
    assert!(error.to_string().contains("SECRET"));
    assert_eq!(
        graph_reply(MEDIA_PATH, GraphOutcome::CallFailed(error)).unwrap_err(),
        "/me/media の呼び出しに失敗: HTTP status 404"
    );
}
