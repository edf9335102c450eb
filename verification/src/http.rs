//! What the server reads of an HTTP request's headers, and the refusals it answers with.

use axum::http::{HeaderMap, HeaderValue};
use axum::http::header::ToStrError;
use vstd::prelude::*;

use crate::types::ApiError;

verus! {

/// `http::HeaderMap`: the headers of a request. Opaque here; `header_fields` names its contents.
#[verifier::external_type_specification]
#[verifier::external_body]
#[verifier::reject_recursive_types(T)]
pub struct ExHeaderMap<T>(axum::http::HeaderMap<T>);

/// `http::HeaderValue`: the bytes of one header. Opaque here; `header_bytes` names its contents.
#[verifier::external_type_specification]
#[verifier::external_body]
pub struct ExHeaderValue(axum::http::HeaderValue);

/// `http::header::ToStrError`: says that a header holds more than visible ASCII.
#[verifier::external_type_specification]
#[verifier::external_body]
pub struct ExToStrError(axum::http::header::ToStrError);

/// What a header map holds: under each header's name, in lower case, the values that the request
/// gives for it, in their order.
pub uninterp spec fn header_fields(headers: HeaderMap<HeaderValue>) -> Map<Seq<char>, Seq<Seq<u8>>>;

/// The bytes that a header value holds.
pub uninterp spec fn header_bytes(value: HeaderValue) -> Seq<u8>;

/// The character, or its lower-case form where it is an upper-case ASCII letter.
pub open spec fn lower_char(c: char) -> char {
    if 'A' <= c && c <= 'Z' {
        (c as u32 + 32) as char
    } else {
        c
    }
}

/// The text with its upper-case ASCII letters in lower case.
pub open spec fn lower_case(text: Seq<char>) -> Seq<char> {
    Seq::new(text.len(), |i: int| lower_char(text[i]))
}

/// A short header name made of ASCII letters and hyphens.
pub open spec fn plain_header_name(name: Seq<char>) -> bool {
    &&& 0 < name.len() <= 64
    &&& forall|i: int|
        0 <= i < name.len() ==> {
            ||| 'a' <= #[trigger] name[i] <= 'z'
            ||| 'A' <= name[i] <= 'Z'
            ||| name[i] == '-'
        }
}

/// A tab, a space or a visible ASCII character.
pub open spec fn visible_ascii(byte: u8) -> bool {
    32 <= byte < 127 || byte == 9
}

/// Every byte is a tab, a space or a visible ASCII character.
pub open spec fn all_visible_ascii(bytes: Seq<u8>) -> bool {
    forall|i: int| 0 <= i < bytes.len() ==> visible_ascii(#[trigger] bytes[i])
}

/// The text whose characters have these bytes for their codes.
pub open spec fn ascii_text(bytes: Seq<u8>) -> Seq<char> {
    Seq::new(bytes.len(), |i: int| bytes[i] as char)
}

/// Calls `HeaderMap::get`. The header is looked up by its name in lower case; of several values
/// the first is returned, and `None` where the request does not give the header.
#[verifier::external_body]
fn get_header<'a>(headers: &'a HeaderMap, name: &str) -> (value: Option<&'a HeaderValue>)
    requires
        plain_header_name(name@),
    ensures
        value is Some <==> header_fields(*headers).contains_key(lower_case(name@)),
        value is Some ==> {
            &&& header_fields(*headers)[lower_case(name@)].len() > 0
            &&& header_bytes(*value->0) == header_fields(*headers)[lower_case(name@)][0]
        },
{
    headers.get(name)
}

/// `HeaderValue::to_str`: the value as text where each of its bytes is a tab, a space or a
/// visible ASCII character, and an error where one is not.
pub assume_specification[ HeaderValue::to_str ](value: &HeaderValue) -> (text: Result<
    &str,
    ToStrError,
>)
    ensures
        text is Ok <==> all_visible_ascii(header_bytes(*value)),
        text is Ok ==> text->Ok_0@ == ascii_text(header_bytes(*value)),
;

/// Calls `StatusCode::from_u16`. A status code is a number from 100 up to 999; any other number
/// gives `None`.
#[verifier::external_body]
fn status_code(code: u16) -> (status: Option<u16>)
    ensures
        status == if 100 <= code <= 999 {
            Some(code)
        } else {
            None
        },
{
    axum::http::StatusCode::from_u16(code).ok().map(|status| status.as_u16())
}

/// The text of the request's header of that name: `None` where the request does not give it, or
/// gives it with something other than visible ASCII.
pub open spec fn header_text(fields: Map<Seq<char>, Seq<Seq<u8>>>, name: Seq<char>) -> Option<
    Seq<char>,
> {
    if fields.contains_key(lower_case(name)) && all_visible_ascii(fields[lower_case(name)][0]) {
        Some(ascii_text(fields[lower_case(name)][0]))
    } else {
        None
    }
}

/// The text of the request's `Authorization` header.
pub fn authorization<'a>(headers: &'a HeaderMap) -> (text: Option<&'a str>)
    ensures
        text is Some <==> header_text(header_fields(*headers), "Authorization"@) is Some,
        text is Some ==> text->0@ == header_text(header_fields(*headers), "Authorization"@)->0,
{
    proof {
        reveal_strlit("Authorization");
    }
    match get_header(headers, "Authorization") {
        Some(value) => value.to_str().ok(),
        None => None,
    }
}

/// A refusal: the status of the response, and its body.
#[derive(Debug)]
pub struct Failure {
    pub status: u16,
    pub body: ApiError,
}

/// What a `Failure` says.
pub struct FailureView {
    pub status: u16,
    pub error: Seq<char>,
}

impl View for Failure {
    type V = FailureView;

    open spec fn view(&self) -> FailureView {
        FailureView { status: self.status, error: self.body.error@ }
    }
}

/// What a reply says: a response, or a refusal.
pub open spec fn reply_view<B: View>(reply: Result<B, Failure>) -> Result<B::V, FailureView> {
    match reply {
        Ok(body) => Ok(body@),
        Err(failure) => Err(failure@),
    }
}

/// The request does not present the server's API key.
pub open spec fn unauthorized() -> FailureView {
    FailureView { status: 401, error: "invalid or missing API key"@ }
}

/// The request gives no text to embed.
pub open spec fn empty_input() -> FailureView {
    FailureView { status: 400, error: "input must not be empty"@ }
}

/// The embedding model cannot be loaded.
pub open spec fn embedding_unavailable() -> FailureView {
    FailureView { status: 503, error: "embedding model unavailable"@ }
}

/// The server has no reranker.
pub open spec fn reranker_unavailable() -> FailureView {
    FailureView { status: 503, error: "reranker not available on this server"@ }
}

/// The client went away before the model had answered.
pub open spec fn cancelled() -> FailureView {
    FailureView { status: 499, error: "request cancelled"@ }
}

/// The model failed.
pub open spec fn internal_error() -> FailureView {
    FailureView { status: 500, error: "internal server error"@ }
}

/// The refusal of that status and message.
pub(crate) fn failure(status: u16, message: &str) -> (res: Failure)
    ensures
        res@ == (FailureView { status, error: message@ }),
{
    Failure { status, body: ApiError { error: message.to_string() } }
}

/// Why a model gave no answer.
#[derive(Clone, Copy, Debug, PartialEq, Eq, Structural)]
pub enum InferenceError {
    /// The request was given up while the model was at work.
    Cancelled,
    /// The model failed.
    Failed,
}

/// The refusal that a model's error is answered with.
pub open spec fn inference_failure(error: InferenceError) -> FailureView {
    match error {
        InferenceError::Cancelled => cancelled(),
        InferenceError::Failed => internal_error(),
    }
}

/// The refusal that a model's error is answered with.
pub fn answer_inference_error(error: InferenceError) -> (res: Failure)
    ensures
        res@ == inference_failure(error),
{
    match error {
        InferenceError::Cancelled => failure(status_code(499).unwrap_or(500), "request cancelled"),
        InferenceError::Failed => failure(500, "internal server error"),
    }
}

/// A header that the request gives is read as the characters that its bytes encode, all of them,
/// however many there are, if each is a tab or from the space to the tilde; in any other case
/// there is nothing to read. It is found under its name with the letters A to Z made small.
pub proof fn law_header_reads_as_its_bytes(
    fields: Map<Seq<char>, Seq<Seq<u8>>>,
    name: Seq<char>,
    small: Seq<char>,
)
    requires
        small.len() == name.len(),
        forall|i: int|
            0 <= i < name.len() ==> #[trigger] small[i] as int == name[i] as int + if 65
                <= name[i] as int <= 90 {
                32int
            } else {
                0int
            },
    ensures
        header_text(fields, name) is Some <==> {
            &&& fields.contains_key(small)
            &&& forall|i: int|
                0 <= i < fields[small][0].len() ==> 32 <= #[trigger] fields[small][0][i] <= 126
                    || fields[small][0][i] == 9
        },
        header_text(fields, name) matches Some(text) ==> {
            &&& text.len() == fields[small][0].len()
            &&& forall|i: int|
                0 <= i < text.len() ==> #[trigger] text[i] as int == fields[small][0][i] as int
        },
{
    assert forall|i: int| 0 <= i < name.len() implies #[trigger] small[i] == lower_case(
        name,
    )[i] by {
        assert(small[i] as int == lower_char(name[i]) as int);
    }
    assert(small =~= lower_case(name));
    let bytes = fields[small][0];
    if forall|i: int|
        0 <= i < bytes.len() ==> 32 <= #[trigger] bytes[i] <= 126 || bytes[i] == 9 {
        assert(all_visible_ascii(bytes));
    }
    if all_visible_ascii(bytes) {
        assert forall|i: int| 0 <= i < bytes.len() implies 32 <= #[trigger] bytes[i] <= 126
            || bytes[i] == 9 by {
            assert(visible_ascii(bytes[i]));
        }
        assert forall|i: int| 0 <= i < bytes.len() implies #[trigger] ascii_text(bytes)[i] as int
            == bytes[i] as int by {
            assert(visible_ascii(bytes[i]));
        }
    }
}

/// The view of a refusal holds its status and all of its message, and that of a reply holds the
/// response or the refusal that the reply is.
pub proof fn law_refusal_view_is_complete<B: View>(failure: Failure, body: B)
    ensures
        failure@.status == failure.status,
        failure@.error == failure.body.error@,
        reply_view(Ok::<B, Failure>(body)) == Ok::<B::V, FailureView>(body@),
        reply_view(Err::<B, Failure>(failure)) matches Err(said) && said.status == failure.status
            && said.error == failure.body.error@,
{
}

/// What each refusal says: its status and its message.
pub proof fn law_refusals_say_what_is_wrong()
    ensures
        unauthorized().status == 401 && unauthorized().error == "invalid or missing API key"@,
        empty_input().status == 400 && empty_input().error == "input must not be empty"@,
        embedding_unavailable().status == 503 && embedding_unavailable().error
            == "embedding model unavailable"@,
        reranker_unavailable().status == 503 && reranker_unavailable().error
            == "reranker not available on this server"@,
        inference_failure(InferenceError::Cancelled).status == 499,
        inference_failure(InferenceError::Cancelled).error == "request cancelled"@,
        inference_failure(InferenceError::Failed).status == 500,
        inference_failure(InferenceError::Failed).error == "internal server error"@,
{
}

} // verus!
