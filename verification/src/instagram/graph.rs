//! The Graph API: what is asked, and what an answer means.
//!
//! A request carries the access token among its parameters, so neither the parameters nor
//! the full URL may reach a log line or an error text.
use vstd::prelude::*;
use vstd::string::StringExecFns;

use super::media::{Media, MediaChild, MediaChildView, MediaView};
use crate::clock::parse_ts;
use crate::http::fault_text;
use crate::json::{json_get, json_integer, json_list, str_field, Json};

verus! {

/// The address that every path is appended to.
pub const GRAPH_BASE: &'static str = "https://graph.instagram.com";

/// The path of the list of posts.
pub const MEDIA_PATH: &'static str = "/me/media";

/// The path that exchanges a short-lived token for a long-lived one.
pub const EXCHANGE_PATH: &'static str = "/access_token";

/// The path that renews a long-lived token.
pub const REFRESH_PATH: &'static str = "/refresh_access_token";

/// What is asked of each post, and of each child of an album.
pub const MEDIA_FIELDS: &'static str = "id,caption,media_type,media_url,thumbnail_url,permalink,timestamp,username,children{id,media_type,media_url,thumbnail_url}";

/// How many posts are asked for.
pub const MEDIA_LIMIT: &'static str = "25";

/// The message that stands in for one that the answer does not give.
pub const UNKNOWN_DETAIL: &'static str = "詳細不明";

/// The error of an exchange whose answer holds no token.
pub const NO_EXCHANGED_TOKEN: &'static str = "交換応答にアクセストークンが含まれません";

/// The error of a renewal whose answer holds no token.
pub const NO_REFRESHED_TOKEN: &'static str = "リフレッシュ応答にアクセストークンが含まれません";

/// One GET request.
pub struct GraphRequest {
    /// The path below [`GRAPH_BASE`].
    pub path: String,
    /// The query parameters, in order.
    pub params: Vec<(String, String)>,
}

/// A request with its texts as characters.
pub struct GraphRequestView {
    /// The path below [`GRAPH_BASE`].
    pub path: Seq<char>,
    /// The query parameters, in order.
    pub params: Seq<(Seq<char>, Seq<char>)>,
}

/// The views of a list of parameters.
pub open spec fn param_views(params: Seq<(String, String)>) -> Seq<(Seq<char>, Seq<char>)> {
    params.map_values(|p: (String, String)| (p.0@, p.1@))
}

impl View for GraphRequest {
    type V = GraphRequestView;

    open spec fn view(&self) -> GraphRequestView {
        GraphRequestView { path: self.path@, params: param_views(self.params@) }
    }
}

/// The request for the latest posts.
pub open spec fn asks_media(token: Seq<char>) -> GraphRequestView {
    GraphRequestView {
        path: MEDIA_PATH@,
        params: seq![
            ("fields"@, MEDIA_FIELDS@),
            ("limit"@, MEDIA_LIMIT@),
            ("access_token"@, token),
        ],
    }
}

/// The request for a long-lived token.
pub open spec fn asks_exchange(token: Seq<char>, app_secret: Seq<char>) -> GraphRequestView {
    GraphRequestView {
        path: EXCHANGE_PATH@,
        params: seq![
            ("grant_type"@, "ig_exchange_token"@),
            ("client_secret"@, app_secret),
            ("access_token"@, token),
        ],
    }
}

/// The request to renew a long-lived token.
pub open spec fn asks_refresh(token: Seq<char>) -> GraphRequestView {
    GraphRequestView {
        path: REFRESH_PATH@,
        params: seq![("grant_type"@, "ig_refresh_token"@), ("access_token"@, token)],
    }
}

impl GraphRequest {
    /// The address of the request, without its parameters.
    pub fn url(&self) -> (r: String)
        ensures
            r@ == GRAPH_BASE@ + self@.path,
    {
        let mut url: String = GRAPH_BASE.to_owned();
        url.append(self.path.as_str());
        url
    }
}

/// Adds a parameter at the end.
fn push_param(params: &mut Vec<(String, String)>, name: &str, value: &str)
    ensures
        param_views(final(params)@) == param_views(old(params)@).push((name@, value@)),
{
    params.push((name.to_owned(), value.to_owned()));
    assert(param_views(params@) == param_views(old(params)@).push((name@, value@)));
}

/// A request for a path, without parameters yet.
fn bare_request(path: &str) -> (r: GraphRequest)
    ensures
        r@ == (GraphRequestView { path: path@, params: Seq::<(Seq<char>, Seq<char>)>::empty() }),
{
    let params: Vec<(String, String)> = Vec::new();
    assert(param_views(params@) == Seq::<(Seq<char>, Seq<char>)>::empty());
    GraphRequest { path: path.to_owned(), params }
}

/// The request for the latest posts.
pub fn media_request(token: &str) -> (r: GraphRequest)
    ensures
        r@ == asks_media(token@),
{
    let mut request: GraphRequest = bare_request(MEDIA_PATH);
    push_param(&mut request.params, "fields", MEDIA_FIELDS);
    push_param(&mut request.params, "limit", MEDIA_LIMIT);
    push_param(&mut request.params, "access_token", token);
    assert(request@.params == asks_media(token@).params);
    request
}

/// The request for a long-lived token.
pub fn exchange_request(token: &str, app_secret: &str) -> (r: GraphRequest)
    ensures
        r@ == asks_exchange(token@, app_secret@),
{
    let mut request: GraphRequest = bare_request(EXCHANGE_PATH);
    push_param(&mut request.params, "grant_type", "ig_exchange_token");
    push_param(&mut request.params, "client_secret", app_secret);
    push_param(&mut request.params, "access_token", token);
    assert(request@.params == asks_exchange(token@, app_secret@).params);
    request
}

/// The request to renew a long-lived token.
pub fn refresh_request(token: &str) -> (r: GraphRequest)
    ensures
        r@ == asks_refresh(token@),
{
    let mut request: GraphRequest = bare_request(REFRESH_PATH);
    push_param(&mut request.params, "grant_type", "ig_refresh_token");
    push_param(&mut request.params, "access_token", token);
    assert(request@.params == asks_refresh(token@).params);
    request
}

/// What became of a request.
pub enum GraphOutcome {
    /// No client could be built; why.
    NoClient(reqwest::Error),
    /// The call did not come through; why.
    CallFailed(reqwest::Error),
    /// The answer is no JSON; why.
    Unreadable(reqwest::Error),
    /// The answer, and whether its status is one of success.
    Answered {
        /// Whether the status is one of success.
        success: bool,
        /// The answer.
        body: serde_json::Value,
    },
}

/// An outcome with its failures by their texts, without the URL, and its answer by content.
pub enum GraphOutcomeView {
    /// See [`GraphOutcome::NoClient`].
    NoClient(Seq<char>),
    /// See [`GraphOutcome::CallFailed`].
    CallFailed(Seq<char>),
    /// See [`GraphOutcome::Unreadable`].
    Unreadable(Seq<char>),
    /// See [`GraphOutcome::Answered`].
    Answered {
        /// Whether the status is one of success.
        success: bool,
        /// The answer.
        body: Json,
    },
}

impl View for GraphOutcome {
    type V = GraphOutcomeView;

    open spec fn view(&self) -> GraphOutcomeView {
        match self {
            GraphOutcome::NoClient(cause) => GraphOutcomeView::NoClient(
                crate::http::call_fault(*cause),
            ),
            GraphOutcome::CallFailed(cause) => GraphOutcomeView::CallFailed(
                crate::http::call_fault(*cause),
            ),
            GraphOutcome::Unreadable(cause) => GraphOutcomeView::Unreadable(
                crate::http::call_fault(*cause),
            ),
            GraphOutcome::Answered { success, body } => GraphOutcomeView::Answered {
                success: *success,
                body: crate::json::json_content(*body),
            },
        }
    }
}

/// The message that the API gives for a refusal.
pub open spec fn refusal_detail(body: Json) -> Seq<char> {
    match body.member("error"@) {
        Some(error) => match error.text_member("message"@) {
            Some(message) => message,
            None => UNKNOWN_DETAIL@,
        },
        None => UNKNOWN_DETAIL@,
    }
}

/// The answer to a request for `path`, or the error text. The text speaks of the path and
/// of what the other side said, never of the parameters.
pub open spec fn reply_to(path: Seq<char>, outcome: GraphOutcomeView) -> Result<Json, Seq<char>> {
    match outcome {
        GraphOutcomeView::NoClient(cause) => Err("HTTP クライアントの構築に失敗: "@ + cause),
        GraphOutcomeView::CallFailed(cause) => Err(path + " の呼び出しに失敗: "@ + cause),
        GraphOutcomeView::Unreadable(cause) => Err(path + " の応答を解析できません: "@ + cause),
        GraphOutcomeView::Answered { success, body } => if success {
            Ok(body)
        } else {
            Err("Instagram API エラー ("@ + path + "): "@ + refusal_detail(body))
        },
    }
}

/// The content of an answer, or the error text.
pub open spec fn reply_content(reply: Result<serde_json::Value, String>) -> Result<
    Json,
    Seq<char>,
> {
    match reply {
        Ok(body) => Ok(crate::json::json_content(body)),
        Err(message) => Err(message@),
    }
}

/// The message that the API gives for a refusal.
fn detail_of(body: &serde_json::Value) -> (r: String)
    ensures
        r@ == refusal_detail(crate::json::json_content(*body)),
{
    let message: Option<String> = match json_get(body, "error") {
        Some(error) => str_field(error, "message"),
        None => None,
    };
    match message {
        Some(message) => message,
        None => UNKNOWN_DETAIL.to_owned(),
    }
}

/// The cause of a call that brought no answer is one of a few fixed texts, so the error text
/// has no room for the URL, and the token in it.
pub open spec fn names_no_url(outcome: GraphOutcomeView) -> bool {
    match outcome {
        GraphOutcomeView::NoClient(cause) => crate::http::is_fixed_text(cause),
        GraphOutcomeView::CallFailed(cause) => crate::http::is_fixed_text(cause),
        GraphOutcomeView::Unreadable(cause) => crate::http::is_fixed_text(cause),
        GraphOutcomeView::Answered { .. } => true,
    }
}

/// The answer to a request for `path`, or the error text.
pub fn graph_reply(path: &str, outcome: GraphOutcome) -> (r: Result<serde_json::Value, String>)
    ensures
        reply_content(r) == reply_to(path@, outcome@),
        names_no_url(outcome@),
{
    match outcome {
        GraphOutcome::NoClient(cause) => {
            let mut text: String = "HTTP クライアントの構築に失敗: ".to_owned();
            text.append(fault_text(cause).as_str());
            Err(text)
        },
        GraphOutcome::CallFailed(cause) => {
            let mut text: String = path.to_owned();
            text.append(" の呼び出しに失敗: ");
            text.append(fault_text(cause).as_str());
            Err(text)
        },
        GraphOutcome::Unreadable(cause) => {
            let mut text: String = path.to_owned();
            text.append(" の応答を解析できません: ");
            text.append(fault_text(cause).as_str());
            Err(text)
        },
        GraphOutcome::Answered { success, body } => {
            if success {
                return Ok(body);
            }
            let mut text: String = "Instagram API エラー (".to_owned();
            text.append(path);
            text.append("): ");
            text.append(detail_of(&body).as_str());
            Err(text)
        },
    }
}

/// The text, or an empty one.
pub open spec fn or_empty(text: Option<Seq<char>>) -> Seq<char> {
    match text {
        Some(t) => t,
        None => Seq::<char>::empty(),
    }
}

/// The text, or an empty one.
fn text_or_empty(text: Option<String>) -> (r: String)
    ensures
        r@ == or_empty(crate::text::opt_text(text)),
{
    match text {
        Some(t) => t,
        None => String::new(),
    }
}

/// The child that a JSON value describes.
pub open spec fn child_of(v: Json) -> MediaChildView {
    MediaChildView {
        media_type: or_empty(v.text_member("media_type"@)),
        media_url: v.text_member("media_url"@),
        thumbnail_url: v.text_member("thumbnail_url"@),
    }
}

/// The children of an album: the elements of its `children.data`.
pub open spec fn children_of(v: Json) -> Seq<MediaChildView> {
    match v.member("children"@) {
        Some(children) => match children.member("data"@) {
            Some(data) => match data.list() {
                Some(items) => items.map_values(|c: Json| child_of(c)),
                None => Seq::<MediaChildView>::empty(),
            },
            None => Seq::<MediaChildView>::empty(),
        },
        None => Seq::<MediaChildView>::empty(),
    }
}

/// The post that a JSON value describes; nothing without an ID or without a time that can
/// be read, since the cursor could not be held against it.
pub open spec fn media_of(v: Json) -> Option<MediaView> {
    match (v.text_member("id"@), v.text_member("timestamp"@)) {
        (Some(id), Some(timestamp)) => if crate::clock::instant_of(timestamp) is Some {
            Some(
                MediaView {
                    id,
                    timestamp,
                    media_type: or_empty(v.text_member("media_type"@)),
                    media_url: v.text_member("media_url"@),
                    thumbnail_url: v.text_member("thumbnail_url"@),
                    permalink: v.text_member("permalink"@),
                    caption: v.text_member("caption"@),
                    username: v.text_member("username"@),
                    children: children_of(v),
                },
            )
        } else {
            None
        },
        _ => None,
    }
}

/// The posts that a list of JSON values describes, without the broken ones.
pub open spec fn media_among(items: Seq<Json>) -> Seq<MediaView>
    decreases items.len(),
{
    if items.len() == 0 {
        Seq::<MediaView>::empty()
    } else {
        match media_of(items.last()) {
            Some(post) => media_among(items.drop_last()).push(post),
            None => media_among(items.drop_last()),
        }
    }
}

/// The posts of an answer: those among its `data`.
pub open spec fn media_in(body: Json) -> Seq<MediaView> {
    match body.member("data"@) {
        Some(data) => match data.list() {
            Some(items) => media_among(items),
            None => Seq::<MediaView>::empty(),
        },
        None => Seq::<MediaView>::empty(),
    }
}

/// The child that a JSON value describes.
fn parse_child(v: &serde_json::Value) -> (r: MediaChild)
    ensures
        r@ == child_of(crate::json::json_content(*v)),
{
    MediaChild {
        media_type: text_or_empty(str_field(v, "media_type")),
        media_url: str_field(v, "media_url"),
        thumbnail_url: str_field(v, "thumbnail_url"),
    }
}

/// The children of an album.
fn parse_children(v: &serde_json::Value) -> (r: Vec<MediaChild>)
    ensures
        super::media::child_views(r@) == children_of(crate::json::json_content(*v)),
{
    let mut out: Vec<MediaChild> = Vec::new();
    assert(super::media::child_views(out@) == Seq::<MediaChildView>::empty());
    let data: Option<&serde_json::Value> = match json_get(v, "children") {
        Some(children) => json_get(children, "data"),
        None => None,
    };
    let items: Option<&Vec<serde_json::Value>> = match data {
        Some(data) => json_list(data),
        None => None,
    };
    let items: &Vec<serde_json::Value> = match items {
        Some(items) => items,
        None => return out,
    };
    let mut i: usize = 0;
    while i < items.len()
        invariant
            i == out@.len() <= items@.len(),
            forall|k: int|
                0 <= k < i ==> (#[trigger] out@[k])@ == child_of(
                    crate::json::json_content(items@[k]),
                ),
        decreases items.len() - i,
    {
        out.push(parse_child(&items[i]));
        i += 1;
    }
    assert(super::media::child_views(out@) == crate::json::json_contents(items@).map_values(
        |c: Json| child_of(c),
    ));
    out
}

/// The post that a JSON value describes.
pub fn parse_media(v: &serde_json::Value) -> (r: Option<Media>)
    ensures
        super::select::opt_media(r) == media_of(crate::json::json_content(*v)),
{
    let id: String = match str_field(v, "id") {
        Some(id) => id,
        None => return None,
    };
    let timestamp: String = match str_field(v, "timestamp") {
        Some(timestamp) => timestamp,
        None => return None,
    };
    if parse_ts(timestamp.as_str()).is_none() {
        return None;
    }
    Some(
        Media {
            id,
            timestamp,
            media_type: text_or_empty(str_field(v, "media_type")),
            media_url: str_field(v, "media_url"),
            thumbnail_url: str_field(v, "thumbnail_url"),
            permalink: str_field(v, "permalink"),
            caption: str_field(v, "caption"),
            username: str_field(v, "username"),
            children: parse_children(v),
        },
    )
}

/// The posts of an answer, without the broken ones.
pub fn parse_media_list(body: &serde_json::Value) -> (r: Vec<Media>)
    ensures
        super::media::media_views(r@) == media_in(crate::json::json_content(*body)),
{
    let mut out: Vec<Media> = Vec::new();
    assert(super::media::media_views(out@) == Seq::<MediaView>::empty());
    let items: Option<&Vec<serde_json::Value>> = match json_get(body, "data") {
        Some(data) => json_list(data),
        None => None,
    };
    let items: &Vec<serde_json::Value> = match items {
        Some(items) => items,
        None => return out,
    };
    let ghost all = crate::json::json_contents(items@);
    let mut i: usize = 0;
    assert(all.take(0) == Seq::<Json>::empty());
    while i < items.len()
        invariant
            i <= items.len(),
            all == crate::json::json_contents(items@),
            super::media::media_views(out@) == media_among(all.take(i as int)),
        decreases items.len() - i,
    {
        assert(all.take(i + 1).drop_last() == all.take(i as int));
        let ghost before = super::media::media_views(out@);
        if let Some(post) = parse_media(&items[i]) {
            out.push(post);
            assert(super::media::media_views(out@) == before.push(post@));
        }
        i += 1;
    }
    assert(all.take(i as int) == all);
    out
}

/// The posts of a reply, or its error text.
pub open spec fn media_of_reply(reply: Result<Json, Seq<char>>) -> Result<
    Seq<MediaView>,
    Seq<char>,
> {
    match reply {
        Ok(body) => Ok(media_in(body)),
        Err(message) => Err(message),
    }
}

/// The view of a list of posts or an error text.
pub open spec fn media_result(r: Result<Vec<Media>, String>) -> Result<Seq<MediaView>, Seq<char>> {
    match r {
        Ok(media) => Ok(super::media::media_views(media@)),
        Err(message) => Err(message@),
    }
}

/// The latest posts, from what became of [`media_request`].
pub fn recent_media(outcome: GraphOutcome) -> (r: Result<Vec<Media>, String>)
    ensures
        media_result(r) == media_of_reply(reply_to(MEDIA_PATH@, outcome@)),
{
    match graph_reply(MEDIA_PATH, outcome) {
        Ok(body) => Ok(parse_media_list(&body)),
        Err(message) => Err(message),
    }
}

/// The lifetime in seconds that an answer grants.
pub open spec fn lifetime_in(body: Json) -> Option<i64> {
    match body.member("expires_in"@) {
        Some(v) => v.integer(),
        None => None,
    }
}

/// The token and the lifetime of a reply; the error text `missing` where it holds no token.
pub open spec fn token_of_reply(
    reply: Result<Json, Seq<char>>,
    missing: Seq<char>,
) -> Result<(Seq<char>, Option<i64>), Seq<char>> {
    match reply {
        Ok(body) => match body.text_member("access_token"@) {
            Some(token) => Ok((token, lifetime_in(body))),
            None => Err(missing),
        },
        Err(message) => Err(message),
    }
}

/// The view of an issued token or an error text.
pub open spec fn token_result(r: Result<(String, Option<i64>), String>) -> Result<
    (Seq<char>, Option<i64>),
    Seq<char>,
> {
    match r {
        Ok((token, expires_in)) => Ok((token@, expires_in)),
        Err(message) => Err(message@),
    }
}

/// The lifetime in seconds that an answer grants.
fn lifetime_of(body: &serde_json::Value) -> (r: Option<i64>)
    ensures
        r == lifetime_in(crate::json::json_content(*body)),
{
    match json_get(body, "expires_in") {
        Some(v) => json_integer(v),
        None => None,
    }
}

/// The token and the lifetime of an answer; the error text `missing` where it holds no token.
fn issued_token(reply: Result<serde_json::Value, String>, missing: &str) -> (r: Result<
    (String, Option<i64>),
    String,
>)
    ensures
        token_result(r) == token_of_reply(reply_content(reply), missing@),
{
    match reply {
        Ok(body) => match str_field(&body, "access_token") {
            Some(token) => Ok((token, lifetime_of(&body))),
            None => Err(missing.to_owned()),
        },
        Err(message) => Err(message),
    }
}

/// The long-lived token, from what became of [`exchange_request`].
pub fn exchanged_token(outcome: GraphOutcome) -> (r: Result<(String, Option<i64>), String>)
    ensures
        token_result(r) == token_of_reply(
            reply_to(EXCHANGE_PATH@, outcome@),
            NO_EXCHANGED_TOKEN@,
        ),
{
    issued_token(graph_reply(EXCHANGE_PATH, outcome), NO_EXCHANGED_TOKEN)
}

/// The renewed token, from what became of [`refresh_request`].
pub fn refreshed_token(outcome: GraphOutcome) -> (r: Result<(String, Option<i64>), String>)
    ensures
        token_result(r) == token_of_reply(reply_to(REFRESH_PATH@, outcome@), NO_REFRESHED_TOKEN@),
{
    issued_token(graph_reply(REFRESH_PATH, outcome), NO_REFRESHED_TOKEN)
}

/// The lifetime of the token that an outcome brings, where it brings one.
pub open spec fn brought_lifetime(outcome: GraphOutcomeView) -> Option<i64> {
    match outcome {
        GraphOutcomeView::Answered { success, body } => if success && body.text_member(
            "access_token"@,
        ) is Some {
            lifetime_in(body)
        } else {
            None
        },
        _ => None,
    }
}

/// The lifetime of the token that an outcome brings, where it brings one.
pub fn lifetime_brought(outcome: &GraphOutcome) -> (r: Option<i64>)
    ensures
        r == brought_lifetime(outcome@),
{
    match outcome {
        GraphOutcome::Answered { success, body } => {
            if *success && str_field(body, "access_token").is_some() {
                lifetime_of(body)
            } else {
                None
            }
        },
        _ => None,
    }
}

/// Every post that is read out of an answer has a time that the cursor can be held against.
pub proof fn law_parsed_posts_have_a_time(body: Json, k: int)
    requires
        0 <= k < media_in(body).len(),
    ensures
        crate::clock::instant_of(media_in(body)[k].timestamp) is Some,
{
    lemma_posts_have_a_time(body.member("data"@)->0.list()->0, k);
}

proof fn lemma_posts_have_a_time(items: Seq<Json>, k: int)
    requires
        0 <= k < media_among(items).len(),
    ensures
        crate::clock::instant_of(media_among(items)[k].timestamp) is Some,
    decreases items.len(),
{
    if k < media_among(items.drop_last()).len() {
        lemma_posts_have_a_time(items.drop_last(), k);
    }
}

/// A broken element is dropped and changes nothing for the others.
pub proof fn law_broken_element_is_dropped(before: Seq<Json>, broken: Json, after: Seq<Json>)
    requires
        media_of(broken) is None,
    ensures
        media_among(before.push(broken) + after) == media_among(before + after),
    decreases after.len(),
{
    if after.len() == 0 {
        assert(before.push(broken) + after == before.push(broken));
        assert(before + after == before);
        assert(before.push(broken).drop_last() == before);
    } else {
        law_broken_element_is_dropped(before, broken, after.drop_last());
        assert((before.push(broken) + after).drop_last() == before.push(broken)
            + after.drop_last());
        assert((before + after).drop_last() == before + after.drop_last());
    }
}

} // verus!
