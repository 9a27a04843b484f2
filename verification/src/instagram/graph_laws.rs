//! What holds of the requests to the Graph API and of reading its answers.
use vstd::prelude::*;

use super::graph::{GraphOutcome, GraphOutcomeView, GraphRequest};
use super::media::{Media, MediaView};
use crate::json::Json;

verus! {

/// The latest posts are asked for with the token, all fields, and twenty-five at a time.
pub proof fn law_posts_are_asked_for(token: Seq<char>)
    ensures
        ({
            let request = super::graph::asks_media(token);
            &&& request.path == "/me/media"@
            &&& request.params.len() == 3
            &&& request.params[0] == (
                "fields"@,
                "id,caption,media_type,media_url,thumbnail_url,permalink,timestamp,username,children{id,media_type,media_url,thumbnail_url}"@,
            )
            &&& request.params[1] == ("limit"@, "25"@)
            &&& request.params[2] == ("access_token"@, token)
        }),
{
}

/// A short-lived token is exchanged with the app secret.
pub proof fn law_exchange_is_asked_for(token: Seq<char>, app_secret: Seq<char>)
    ensures
        ({
            let request = super::graph::asks_exchange(token, app_secret);
            &&& request.path == "/access_token"@
            &&& request.params.len() == 3
            &&& request.params[0] == ("grant_type"@, "ig_exchange_token"@)
            &&& request.params[1] == ("client_secret"@, app_secret)
            &&& request.params[2] == ("access_token"@, token)
        }),
{
}

/// A long-lived token is renewed by itself.
pub proof fn law_renewal_is_asked_for(token: Seq<char>)
    ensures
        ({
            let request = super::graph::asks_refresh(token);
            &&& request.path == "/refresh_access_token"@
            &&& request.params.len() == 2
            &&& request.params[0] == ("grant_type"@, "ig_refresh_token"@)
            &&& request.params[1] == ("access_token"@, token)
        }),
{
}

/// The three requests go to three paths below one address.
pub proof fn law_paths_differ(token: Seq<char>, app_secret: Seq<char>)
    ensures
        super::graph::asks_media(token).path != super::graph::asks_exchange(token, app_secret).path,
        super::graph::asks_media(token).path != super::graph::asks_refresh(token).path,
        super::graph::asks_refresh(token).path != super::graph::asks_exchange(
            token,
            app_secret,
        ).path,
        super::graph::GRAPH_BASE@ == "https://graph.instagram.com"@,
{
    reveal_strlit("/me/media");
    reveal_strlit("/access_token");
    reveal_strlit("/refresh_access_token");
    assert("/me/media"@.len() == 9);
    assert("/access_token"@.len() == 13);
    assert("/refresh_access_token"@.len() == 21);
}

/// An answer of success is taken as it is, whatever it holds.
pub proof fn law_success_is_taken_as_it_is(path: Seq<char>, body: Json)
    ensures
        super::graph::reply_to(path, GraphOutcomeView::Answered { success: true, body }) == Ok::<
            Json,
            Seq<char>,
        >(body),
{
}

/// Any other outcome is an error, whose text names the path and the cause.
pub proof fn law_failure_names_path_and_cause(path: Seq<char>, cause: Seq<char>, body: Json)
    ensures
        super::graph::reply_to(path, GraphOutcomeView::NoClient(cause)) matches Err(text) && text
            == "HTTP クライアントの構築に失敗: "@ + cause,
        super::graph::reply_to(path, GraphOutcomeView::CallFailed(cause)) matches Err(text) && text
            == path + (" の呼び出しに失敗: "@ + cause),
        super::graph::reply_to(path, GraphOutcomeView::Unreadable(cause)) matches Err(text) && text
            == path + (" の応答を解析できません: "@ + cause),
        super::graph::reply_to(path, GraphOutcomeView::Answered { success: false, body })
            matches Err(text) && text == "Instagram API エラー ("@ + (path + ("): "@
            + super::graph::refusal_detail(body))),
{
    assert(path + " の呼び出しに失敗: "@ + cause == path + (" の呼び出しに失敗: "@ + cause));
    assert(path + " の応答を解析できません: "@ + cause == path + (" の応答を解析できません: "@ + cause));
    let detail = super::graph::refusal_detail(body);
    assert("Instagram API エラー ("@ + path + "): "@ + detail == "Instagram API エラー ("@ + (path + (
    "): "@ + detail)));
}

/// A refusal is told in the words of the answer: the text at `error` and `message`, and a
/// fixed word where there is none.
pub proof fn law_refusal_is_told_in_its_words(body: Json, error: Json, message: Seq<char>)
    ensures
        body.member("error"@) is None ==> super::graph::refusal_detail(body) == "詳細不明"@,
        body.member("error"@) == Some(error) && error.member("message"@) == Some(
            Json::Text(message),
        ) ==> super::graph::refusal_detail(body) == message,
        body.member("error"@) == Some(error) && error.text_member("message"@) is None
            ==> super::graph::refusal_detail(body) == "詳細不明"@,
{
}

/// A post is read out of an object exactly where `id` and `timestamp` are strings and the time
/// can be read. No other member is needed.
pub proof fn law_post_needs_id_and_time(v: Json)
    ensures
        super::graph::media_of(v) is Some <==> {
            &&& v.text_member("id"@) is Some
            &&& v.text_member("timestamp"@) is Some
            &&& crate::clock::instant_of(v.text_member("timestamp"@)->0) is Some
        },
{
}

/// A post that is read out of an object holds its members as they stand there, each under its
/// own name; a media type that is not there is empty.
pub proof fn law_post_holds_its_members(v: Json, post: MediaView)
    requires
        super::graph::media_of(v) == Some(post),
    ensures
        v.text_member("id"@) == Some(post.id),
        v.text_member("timestamp"@) == Some(post.timestamp),
        v.text_member("media_type"@) matches Some(kind) ==> post.media_type == kind,
        v.text_member("media_type"@) is None ==> post.media_type.len() == 0,
        post.media_url == v.text_member("media_url"@),
        post.thumbnail_url == v.text_member("thumbnail_url"@),
        post.permalink == v.text_member("permalink"@),
        post.caption == v.text_member("caption"@),
        post.username == v.text_member("username"@),
{
}

/// The children of a post are all the elements of the array at `children` and `data`, in their
/// order, each with its own members; any other content means that there are none.
pub proof fn law_post_holds_its_children(v: Json, post: MediaView, inner: Json, items: Seq<Json>, k: int)
    requires
        super::graph::media_of(v) == Some(post),
    ensures
        v.member("children"@) is None ==> post.children.len() == 0,
        v.member("children"@) == Some(inner) && inner.member("data"@) is None
            ==> post.children.len() == 0,
        v.member("children"@) == Some(inner) && inner.member("data"@) == Some(Json::List(items))
            ==> post.children.len() == items.len() && (0 <= k < items.len() ==> {
            &&& items[k].text_member("media_type"@) matches Some(kind) ==> post.children[k].media_type
                == kind
            &&& items[k].text_member("media_type"@) is None ==> post.children[k].media_type.len() == 0
            &&& post.children[k].media_url == items[k].text_member("media_url"@)
            &&& post.children[k].thumbnail_url == items[k].text_member("thumbnail_url"@)
        }),
{
}

/// The posts of an answer are those of the array at `data`; without one there are none.
pub proof fn law_posts_stand_under_data(body: Json, items: Seq<Json>)
    ensures
        body.member("data"@) == Some(Json::List(items)) ==> super::graph::media_in(body)
            == super::graph::media_among(items),
        body.member("data"@) is None ==> super::graph::media_in(body).len() == 0,
        body.member("data"@) matches Some(data) ==> (!(data is List) ==> super::graph::media_in(
            body,
        ).len() == 0),
{
}

/// The posts of a list are those of its parts, in order; one element gives its post, or
/// nothing where it is broken.
pub proof fn law_posts_are_read_one_by_one(one: Seq<Json>, two: Seq<Json>, v: Json)
    ensures
        super::graph::media_among(one + two) == super::graph::media_among(one)
            + super::graph::media_among(two),
        super::graph::media_of(v) matches Some(post) ==> super::graph::media_among(seq![v])
            == seq![post],
        super::graph::media_of(v) is None ==> super::graph::media_among(seq![v]).len() == 0,
    decreases two.len(),
{
    assert(seq![v].drop_last() == Seq::<Json>::empty());
    assert(super::graph::media_among(Seq::<Json>::empty()) == Seq::<MediaView>::empty());
    if let Some(post) = super::graph::media_of(v) {
        assert(Seq::<MediaView>::empty().push(post) == seq![post]);
    }
    if two.len() == 0 {
        assert(one + two == one);
        assert(super::graph::media_among(one) + super::graph::media_among(two)
            == super::graph::media_among(one));
    } else {
        law_posts_are_read_one_by_one(one, two.drop_last(), v);
        assert((one + two).drop_last() == one + two.drop_last());
        let front = super::graph::media_among(two.drop_last());
        if let Some(post) = super::graph::media_of(two.last()) {
            assert((super::graph::media_among(one) + front).push(post)
                == super::graph::media_among(one) + front.push(post));
        }
    }
}

/// The fetched posts are those of an answer of success; any other outcome is its error.
pub proof fn law_fetched_posts_come_from_the_answer(
    reply: Result<Json, Seq<char>>,
    body: Json,
    message: Seq<char>,
)
    ensures
        reply == Ok::<Json, Seq<char>>(body) ==> super::graph::media_of_reply(reply) == Ok::<
            Seq<MediaView>,
            Seq<char>,
        >(super::graph::media_in(body)),
        reply == Err::<Json, Seq<char>>(message) ==> super::graph::media_of_reply(reply) == Err::<
            Seq<MediaView>,
            Seq<char>,
        >(message),
{
}

/// An answer brings the token at `access_token` with the lifetime at `expires_in`, where that
/// is a whole number; one without a token is an error, and so is no answer.
pub proof fn law_token_comes_with_its_lifetime(
    body: Json,
    missing: Seq<char>,
    token: Seq<char>,
    message: Seq<char>,
)
    ensures
        body.text_member("access_token"@) == Some(token) ==> (super::graph::token_of_reply(
            Ok(body),
            missing,
        ) matches Ok(issued) && issued.0 == token && (body.member("expires_in"@) matches Some(
            Json::Number(seconds),
        ) ==> issued.1 == seconds) && (!(body.member("expires_in"@) matches Some(Json::Number(_)))
            ==> issued.1 is None)),
        body.text_member("access_token"@) is None ==> super::graph::token_of_reply(
            Ok(body),
            missing,
        ) == Err::<(Seq<char>, Option<i64>), Seq<char>>(missing),
        super::graph::token_of_reply(Err(message), missing) == Err::<
            (Seq<char>, Option<i64>),
            Seq<char>,
        >(message),
{
}

/// The lifetime that an outcome brings is that of the token in it; where no token is taken
/// there is none.
pub proof fn law_brought_lifetime_is_that_of_the_token(
    path: Seq<char>,
    outcome: GraphOutcomeView,
    missing: Seq<char>,
)
    ensures
        match super::graph::token_of_reply(super::graph::reply_to(path, outcome), missing) {
            Ok(issued) => super::graph::brought_lifetime(outcome) == issued.1,
            Err(_) => super::graph::brought_lifetime(outcome) is None,
        },
{
}

/// The view of a request holds its path and its parameters, in their order.
pub proof fn law_request_view_is_faithful(request: GraphRequest, k: int)
    ensures
        request@.path == request.path@,
        request@.params.len() == request.params@.len(),
        0 <= k < request.params@.len() ==> request@.params[k] == (
            request.params@[k].0@,
            request.params@[k].1@,
        ),
{
}

/// The view of an outcome tells what it is, and holds the answer and whether it is one of
/// success.
pub proof fn law_outcome_view_is_faithful(outcome: GraphOutcome)
    ensures
        outcome matches GraphOutcome::NoClient(e) ==> outcome@ == GraphOutcomeView::NoClient(
            crate::http::call_fault(e),
        ),
        outcome matches GraphOutcome::CallFailed(e) ==> outcome@ == GraphOutcomeView::CallFailed(
            crate::http::call_fault(e),
        ),
        outcome matches GraphOutcome::Unreadable(e) ==> outcome@ == GraphOutcomeView::Unreadable(
            crate::http::call_fault(e),
        ),
        outcome matches GraphOutcome::Answered { success, body } ==> outcome@
            == (GraphOutcomeView::Answered { success, body: crate::json::json_content(body) }),
{
}

/// The views of results hold what was read or the error text.
pub proof fn law_result_views_are_faithful(
    value: serde_json::Value,
    media: Vec<Media>,
    token: String,
    expires_in: Option<i64>,
    message: String,
)
    ensures
        super::graph::reply_content(Ok(value)) == Ok::<Json, Seq<char>>(
            crate::json::json_content(value),
        ),
        super::graph::reply_content(Err(message)) == Err::<Json, Seq<char>>(message@),
        super::graph::media_result(Ok(media)) == Ok::<Seq<MediaView>, Seq<char>>(
            super::media::media_views(media@),
        ),
        super::graph::media_result(Err(message)) == Err::<Seq<MediaView>, Seq<char>>(message@),
        super::graph::token_result(Ok((token, expires_in))) == Ok::<
            (Seq<char>, Option<i64>),
            Seq<char>,
        >((token@, expires_in)),
        super::graph::token_result(Err(message)) == Err::<(Seq<char>, Option<i64>), Seq<char>>(
            message@,
        ),
{
}

/// The views of lists of posts and of an optional post keep every post, in order.
pub proof fn law_post_views_are_faithful(media: Seq<Media>, post: Media, k: int)
    ensures
        super::media::media_views(media).len() == media.len(),
        0 <= k < media.len() ==> super::media::media_views(media)[k] == media[k]@,
        super::select::opt_media(Some(post)) == Some(post@),
        super::select::opt_media(None) is None,
{
}

/// Where a call brought no answer, its cause is one of the fixed texts.
pub proof fn law_cause_is_a_fixed_text(cause: Seq<char>)
    ensures
        super::graph::names_no_url(GraphOutcomeView::NoClient(cause)) ==> crate::http::is_fixed_text(
            cause,
        ),
        super::graph::names_no_url(GraphOutcomeView::CallFailed(cause))
            ==> crate::http::is_fixed_text(cause),
        super::graph::names_no_url(GraphOutcomeView::Unreadable(cause))
            ==> crate::http::is_fixed_text(cause),
{
}

} // verus!
