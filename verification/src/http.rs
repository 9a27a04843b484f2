//! Failures of HTTP calls, as texts that do not give the URL away.
use vstd::prelude::*;
use vstd::string::StringExecFns;

use crate::text::decimal_text;

verus! {

/// `reqwest::Error`, why an HTTP call failed. It may hold the URL of the call.
#[verifier::external_type_specification]
#[verifier::external_body]
pub struct ExCallError(reqwest::Error);

/// The message of a call's failure, without the URL.
pub uninterp spec fn call_message(error: reqwest::Error) -> Seq<char>;

/// The status that was turned into the failure, where it is of that kind.
pub uninterp spec fn call_status(error: reqwest::Error) -> Option<u16>;

/// The words for each kind of failure but that of a status.
pub open spec fn is_fault_word(text: Seq<char>) -> bool {
    ||| text == "builder error"@
    ||| text == "error sending request"@
    ||| text == "request or response body error"@
    ||| text == "error decoding response body"@
    ||| text == "error following redirect"@
    ||| text == "error upgrading connection"@
}

/// `reqwest::Error::without_url` and its `Display`: the text is [`call_message`] of the error.
/// Once the URL is taken away it is a fixed word for the kind of failure, unless the failure
/// is a status that was turned into an error.
#[verifier::external_body]
fn message_without_url(error: reqwest::Error) -> (r: String)
    ensures
        r@ == call_message(error),
        call_status(error) is None ==> is_fault_word(r@),
{
    error.without_url().to_string()
}

/// `reqwest::Error::status`: the number of the status is [`call_status`] of the error.
#[verifier::external_body]
fn status_number(error: &reqwest::Error) -> (r: Option<u16>)
    ensures
        r == call_status(*error),
{
    match error.status() {
        Some(status) => Some(status.as_u16()),
        None => None,
    }
}

/// What is told of a failed call: the word for its kind, or the number of the status; never
/// the URL, nor what the other side wrote beside the number.
pub open spec fn call_fault(error: reqwest::Error) -> Seq<char> {
    match call_status(error) {
        Some(number) => "HTTP status "@ + crate::text::decimal(number as nat),
        None => call_message(error),
    }
}

/// The text is a word for a kind of failure, or names a status by its number.
pub open spec fn is_fixed_text(text: Seq<char>) -> bool {
    ||| is_fault_word(text)
    ||| exists|number: u16| text == "HTTP status "@ + #[trigger] crate::text::decimal(number as nat)
}

/// What is told of a failed call.
pub fn fault_text(error: reqwest::Error) -> (r: String)
    ensures
        r@ == call_fault(error),
        is_fixed_text(r@),
{
    match status_number(&error) {
        Some(number) => {
            let mut text: String = "HTTP status ".to_owned();
            text.append(decimal_text(number as u64).as_str());
            text
        },
        None => message_without_url(error),
    }
}

/// A failure by a status is told by its number, and any other by its message without the URL.
pub proof fn law_fault_names_the_status(error: reqwest::Error)
    ensures
        call_status(error) matches Some(number) ==> call_fault(error) == "HTTP status "@
            + crate::text::decimal(number as nat),
        call_status(error) is None ==> call_fault(error) == call_message(error),
{
}

} // verus!
