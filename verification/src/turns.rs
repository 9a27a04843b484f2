//! Turns of the secretary that start outside a conversation: receipts and playbooks.
use vstd::prelude::*;

use crate::json::{json_text, Json};
use crate::text::{split, trim};

verus! {

/// The place that requests from the web pages are counted under.
pub const WEB_SLOT: &'static str = "web";

/// A picture that goes along with a message.
pub struct InlineMedia {
    /// The content in base64.
    pub data_base64: String,
    /// The media type, without parameters.
    pub mime_type: String,
}

/// A message to the secretary.
pub struct IncomingChat {
    /// The text.
    pub text: String,
    /// The picture, where there is one.
    pub image: Option<InlineMedia>,
}

/// A picture with its texts as characters.
pub struct InlineMediaView {
    /// The content in base64.
    pub data_base64: Seq<char>,
    /// The media type, without parameters.
    pub mime_type: Seq<char>,
}

/// A message with its texts as characters.
pub struct IncomingChatView {
    /// The text.
    pub text: Seq<char>,
    /// The picture, where there is one.
    pub image: Option<InlineMediaView>,
}

impl View for InlineMedia {
    type V = InlineMediaView;

    open spec fn view(&self) -> InlineMediaView {
        InlineMediaView { data_base64: self.data_base64@, mime_type: self.mime_type@ }
    }
}

impl View for IncomingChat {
    type V = IncomingChatView;

    open spec fn view(&self) -> IncomingChatView {
        IncomingChatView {
            text: self.text@,
            image: match self.image {
                Some(media) => Some(media@),
                None => None,
            },
        }
    }
}

/// Why a receipt was not read.
#[derive(Debug, PartialEq, Eq)]
pub enum ReceiptError {
    /// The user asked too often; the message to show.
    RateLimited(String),
    /// The secretary could not answer.
    Unavailable,
}

/// A refusal with its message as characters.
pub enum ReceiptErrorView {
    /// See [`ReceiptError::RateLimited`].
    RateLimited(Seq<char>),
    /// See [`ReceiptError::Unavailable`].
    Unavailable,
}

impl View for ReceiptError {
    type V = ReceiptErrorView;

    open spec fn view(&self) -> ReceiptErrorView {
        match self {
            ReceiptError::RateLimited(message) => ReceiptErrorView::RateLimited(message@),
            ReceiptError::Unavailable => ReceiptErrorView::Unavailable,
        }
    }
}

/// A media type without its parameters: what stands before the first semicolon, trimmed.
pub open spec fn bare_mime(mime_type: Seq<char>) -> Seq<char> {
    crate::text::trimmed(crate::text::split_on(mime_type, ';')[0])
}

/// A media type without its parameters.
pub fn clean_mime(mime_type: &str) -> (r: String)
    ensures
        r@ == bare_mime(mime_type@),
{
    let pieces: Vec<String> = split(mime_type, ';');
    assert(crate::text::texts(pieces@)[0] == pieces@[0]@);
    trim(pieces[0].as_str())
}

/// The turn that reads a receipt, unless the user asked too often: `exceeded` is then the
/// message to show, and no turn is taken.
pub open spec fn receipt_chat(
    exceeded: Option<Seq<char>>,
    image_base64: Seq<char>,
    mime_type: Seq<char>,
    additional_text: Option<Seq<char>>,
) -> Result<IncomingChatView, ReceiptErrorView> {
    match exceeded {
        Some(message) => Err(ReceiptErrorView::RateLimited(message)),
        None => Ok(
            IncomingChatView {
                text: match additional_text {
                    Some(text) => text,
                    None => ""@,
                },
                image: Some(
                    InlineMediaView { data_base64: image_base64, mime_type: bare_mime(mime_type) },
                ),
            },
        ),
    }
}

/// The turn that reads a receipt, unless the user asked too often.
pub fn receipt_turn(
    exceeded: Option<String>,
    image_base64: &str,
    mime_type: &str,
    additional_text: Option<&str>,
) -> (r: Result<IncomingChat, ReceiptError>)
    ensures
        (match r {
            Ok(chat) => Ok(chat@),
            Err(e) => Err(e@),
        }) == receipt_chat(
            crate::text::opt_text(exceeded),
            image_base64@,
            mime_type@,
            crate::text::opt_str(additional_text),
        ),
{
    if let Some(message) = exceeded {
        return Err(ReceiptError::RateLimited(message));
    }
    let text: String = match additional_text {
        Some(text) => text.to_owned(),
        None => "".to_owned(),
    };
    Ok(
        IncomingChat {
            text,
            image: Some(
                InlineMedia {
                    data_base64: image_base64.to_owned(),
                    mime_type: clean_mime(mime_type),
                },
            ),
        },
    )
}

/// The answer to a receipt: the secretary's text as a JSON string; a turn that failed is
/// not told apart by its reason.
pub fn receipt_answer(reply: Result<String, String>) -> (r: Result<
    serde_json::Value,
    ReceiptError,
>)
    ensures
        (match r {
            Ok(value) => Ok(crate::json::json_content(value)),
            Err(e) => Err(e@),
        }) == (match reply {
            Ok(text) => Ok(Json::Text(text@)),
            Err(_) => Err(ReceiptErrorView::Unavailable),
        }),
{
    match reply {
        Ok(text) => Ok(json_text(text)),
        Err(_) => Err(ReceiptError::Unavailable),
    }
}

/// The turn of a scheduled playbook: its prompt, without a picture.
pub fn playbook_turn(prompt: String) -> (r: IncomingChat)
    ensures
        r@ == (IncomingChatView { text: prompt@, image: None }),
{
    IncomingChat { text: prompt, image: None }
}

/// A user who asked too often causes no turn, whatever was sent along.
pub proof fn law_limit_comes_before_the_turn(
    message: Seq<char>,
    image_base64: Seq<char>,
    mime_type: Seq<char>,
    additional_text: Option<Seq<char>>,
)
    ensures
        receipt_chat(Some(message), image_base64, mime_type, additional_text) == Err::<
            IncomingChatView,
            ReceiptErrorView,
        >(ReceiptErrorView::RateLimited(message)),
{
}

/// The parameters of a media type are cut off: what stands before the first semicolon is left,
/// without the white space around it, and all of it where there is no semicolon.
pub proof fn law_parameters_are_cut_off(kind: Seq<char>, parameters: Seq<char>)
    requires
        !kind.contains(';'),
    ensures
        bare_mime(kind) == crate::text::trimmed(kind),
        bare_mime(kind + seq![';'] + parameters) == crate::text::trimmed(kind),
{
    crate::text_laws::law_joined_lines_split_again(seq![kind], ';');
    assert(crate::text::split_on(kind, ';') == seq![kind]);
    lemma_first_piece(kind, parameters);
}

proof fn lemma_first_piece(kind: Seq<char>, parameters: Seq<char>)
    requires
        !kind.contains(';'),
    ensures
        crate::text::split_on(kind + seq![';'] + parameters, ';').len() > 1,
        crate::text::split_on(kind + seq![';'] + parameters, ';')[0] == kind,
    decreases parameters.len(),
{
    let whole = kind + seq![';'] + parameters;
    crate::text_laws::law_joined_lines_split_again(seq![kind], ';');
    assert(crate::text::joined(seq![kind], seq![';']) == kind);
    if parameters.len() == 0 {
        assert(whole == kind.push(';'));
        assert(whole.drop_last() == kind);
    } else {
        lemma_first_piece(kind, parameters.drop_last());
        assert(whole.drop_last() == kind + seq![';'] + parameters.drop_last());
    }
}

/// The turn that reads a receipt carries the picture as it was given, its media type without
/// parameters, and the text that came along, or an empty one.
pub proof fn law_receipt_turn_carries_what_was_given(
    image_base64: Seq<char>,
    mime_type: Seq<char>,
    additional_text: Option<Seq<char>>,
)
    ensures
        receipt_chat(None, image_base64, mime_type, additional_text) matches Ok(chat) && (
        chat.image matches Some(media) && media.data_base64 == image_base64 && media.mime_type
            == bare_mime(mime_type)) && (additional_text matches Some(text) ==> chat.text == text)
            && (additional_text is None ==> chat.text.len() == 0),
{
    reveal_strlit("");
}

/// The view of a turn holds its text and the two parts of its picture.
pub proof fn law_turn_view_is_faithful(chat: IncomingChat)
    ensures
        chat@.text == chat.text@,
        chat.image is None <==> chat@.image is None,
        chat.image matches Some(media) ==> chat@.image->0.data_base64 == media.data_base64@
            && chat@.image->0.mime_type == media.mime_type@,
{
}

/// The view of a refusal holds its message.
pub proof fn law_receipt_error_view_is_faithful(error: ReceiptError)
    ensures
        error is Unavailable <==> error@ is Unavailable,
        error matches ReceiptError::RateLimited(message) ==> error@
            == ReceiptErrorView::RateLimited(message@),
{
}

/// Requests from the web pages are counted in a place of their own.
pub proof fn law_web_requests_have_their_own_place()
    ensures
        WEB_SLOT@ == seq!['w', 'e', 'b'],
{
    reveal_strlit("web");
    assert("web"@ == seq!['w', 'e', 'b']);
}

} // verus!
