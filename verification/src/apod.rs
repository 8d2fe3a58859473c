//! The astronomy picture of the day, as a reply with an embed.

use vstd::prelude::*;
use crate::json::{json_reading, json_tree, Document, JsonTree};
use crate::options::{bytes_of, chars_of_string};
use crate::response::{
    text_member, text_member_of, Embed, EmbedImage, EmbedView, ImageView, Response, ResponseView,
};

verus! {

/// What the astronomy service tells of the picture of the day.
#[derive(Debug, Clone, PartialEq, Eq)]
pub struct ApodResult {
    pub title: String,
    pub explanation: String,
    pub image_url: String,
}

/// A picture of the day as a mathematical value.
pub struct ApodView {
    pub title: Seq<char>,
    pub explanation: Seq<char>,
    pub image_url: Seq<char>,
}

impl View for ApodResult {
    type V = ApodView;

    open spec fn view(&self) -> ApodView {
        ApodView { title: self.title@, explanation: self.explanation@, image_url: self.image_url@ }
    }
}

/// Why no picture of the day can be replied with.
#[derive(Debug, Clone, Copy, PartialEq, Eq, Structural)]
pub enum HandlerError {
    /// The service could not be reached, or gave no body.
    Transport,
    /// The body is not JSON text.
    Malformed,
    /// The document lacks one of the strings `url`, `title`, `explanation`.
    Incomplete,
    /// The picture's address is no absolute URL.
    InvalidUrl,
}

/// The type tag of the embed that carries the picture.
pub open spec fn embed_kind() -> Seq<char> {
    "rich"@
}

/// The accent colour of the embed that carries the picture.
pub const ACCENT_COLOR: i32 = 0x00FFFF;

/// The address that the picture of the day is asked for at, without the key.
pub open spec fn apod_endpoint() -> Seq<char> {
    "https://api.nasa.gov/planetary/apod?api_key="@
}

/// The serialization that the `url` crate gives the absolute URL `text`, or
/// `None` where it does not parse `text` as one.
pub uninterp spec fn url_normal_form(text: Seq<char>) -> Option<Seq<char>>;

/// `url::Url::parse`, then the parsed URL as a `String` (its serialization).
/// The outcome depends on the text alone; every parse error counts as a
/// refusal.
#[verifier::external_body]
fn normalize_url(text: &str) -> (r: Option<String>)
    ensures
        chars_of_string(r) == url_normal_form(text@),
{
    url::Url::parse(text).ok().map(String::from)
}

/// The picture that a JSON tree holds: its strings `url`, `title` and
/// `explanation`, all three or nothing.
pub open spec fn apod_of_tree(tree: JsonTree) -> Result<ApodView, HandlerError> {
    match (
        text_member(tree, "url"@),
        text_member(tree, "title"@),
        text_member(tree, "explanation"@),
    ) {
        (Some(image_url), Some(title), Some(explanation)) => Ok(
            ApodView { title, explanation, image_url },
        ),
        _ => Err(HandlerError::Incomplete),
    }
}

/// The picture that the body of the service's answer holds.
pub open spec fn apod_of_body(body: Seq<u8>) -> Result<ApodView, HandlerError> {
    match json_reading(body) {
        None => Err(HandlerError::Malformed),
        Some(tree) => apod_of_tree(tree),
    }
}

/// The reply that shows a picture whose address has the normal form `url`:
/// the explanation as text, and one embed with the title, the accent colour
/// and the image, of unknown height and width.
pub open spec fn embed_reply_of(apod: ApodView, url: Seq<char>) -> ResponseView {
    ResponseView::EmbedReply {
        content: apod.explanation,
        embed: EmbedView {
            kind: embed_kind(),
            title: apod.title,
            color: ACCENT_COLOR,
            image: ImageView { url, height: 0, width: 0 },
        },
    }
}

/// The reply to a picture, once its address has been normalized.
pub open spec fn reply_of_normalized(apod: ApodView, normalized: Option<Seq<char>>) -> Result<
    ResponseView,
    HandlerError,
> {
    match normalized {
        Some(url) => Ok(embed_reply_of(apod, url)),
        None => Err(HandlerError::InvalidUrl),
    }
}

/// The reply to a picture.
pub open spec fn reply_of_apod(apod: ApodView) -> Result<ResponseView, HandlerError> {
    reply_of_normalized(apod, url_normal_form(apod.image_url))
}

/// The reply to what the service answered; `None` stands for no answer.
pub open spec fn reply_of_fetch(fetched: Option<Seq<u8>>) -> Result<ResponseView, HandlerError> {
    match fetched {
        None => Err(HandlerError::Transport),
        Some(body) => match apod_of_body(body) {
            Err(e) => Err(e),
            Ok(apod) => reply_of_apod(apod),
        },
    }
}

/// A reader's outcome, the picture taken by its view.
pub open spec fn apod_outcome(result: Result<ApodResult, HandlerError>) -> Result<
    ApodView,
    HandlerError,
> {
    match result {
        Ok(apod) => Ok(apod@),
        Err(e) => Err(e),
    }
}

/// A handler's outcome, the reply taken by its view.
pub open spec fn reply_outcome(result: Result<Response, HandlerError>) -> Result<
    ResponseView,
    HandlerError,
> {
    match result {
        Ok(response) => Ok(response@),
        Err(e) => Err(e),
    }
}

/// The address to fetch the picture of the day from with the key `api_key`.
pub fn apod_request_url(api_key: &str) -> (url: String)
    ensures
        url@ == apod_endpoint() + api_key@,
{
    String::from_str("https://api.nasa.gov/planetary/apod?api_key=").concat(api_key)
}

fn apod_from_value(value: &serde_json::Value) -> (r: Result<ApodResult, HandlerError>)
    ensures
        apod_outcome(r) == apod_of_tree(json_tree(*value)),
{
    let image_url = text_member_of(value, "url");
    let title = text_member_of(value, "title");
    let explanation = text_member_of(value, "explanation");
    match (image_url, title, explanation) {
        (Some(image_url), Some(title), Some(explanation)) => Ok(
            ApodResult { title, explanation, image_url },
        ),
        _ => Err(HandlerError::Incomplete),
    }
}

/// Reads the picture that a parsed document holds.
pub fn apod_from_document(document: &Document) -> (r: Result<ApodResult, HandlerError>)
    ensures
        apod_outcome(r) == apod_of_tree(document@),
{
    apod_from_value(document.value())
}

/// Reads the picture that the body of the service's answer holds.
pub fn parse_apod(body: &[u8]) -> (r: Result<ApodResult, HandlerError>)
    ensures
        apod_outcome(r) == apod_of_body(body@),
{
    match Document::parse(body) {
        Some(document) => apod_from_document(&document),
        None => Err(HandlerError::Malformed),
    }
}

/// Builds the reply to a picture from the normal form of its address, where
/// it has one.
pub fn reply_with_normalized(apod: ApodResult, normalized: Option<String>) -> (r: Result<
    Response,
    HandlerError,
>)
    ensures
        reply_outcome(r) == reply_of_normalized(apod@, chars_of_string(normalized)),
{
    match normalized {
        Some(url) => Ok(
            Response::EmbedReply {
                content: apod.explanation,
                embed: Embed {
                    kind: String::from_str("rich"),
                    title: apod.title,
                    color: ACCENT_COLOR,
                    image: EmbedImage { url, height: 0, width: 0 },
                },
            },
        ),
        None => Err(HandlerError::InvalidUrl),
    }
}

/// Builds the reply to a picture: its address is parsed and written anew,
/// and a picture whose address does not parse has no reply.
pub fn apod_reply(apod: ApodResult) -> (r: Result<Response, HandlerError>)
    ensures
        reply_outcome(r) == reply_of_apod(apod@),
{
    let normalized = normalize_url(apod.image_url.as_str());
    reply_with_normalized(apod, normalized)
}

/// Turns what the service answered into the reply; `None` stands for no
/// answer. A reply comes only from a body that holds all of the picture.
pub fn handle(fetched: Option<&[u8]>) -> (r: Result<Response, HandlerError>)
    ensures
        reply_outcome(r) == reply_of_fetch(bytes_of(fetched)),
{
    match fetched {
        None => Err(HandlerError::Transport),
        Some(body) => match parse_apod(body) {
            Ok(apod) => apod_reply(apod),
            Err(e) => Err(e),
        },
    }
}

/// A reply to a fetch shows the whole picture: it comes only from a body
/// that holds all three strings, and carries the explanation as its text,
/// the title as the embed's title and the normal form of the address as the
/// embed's image.
pub proof fn lemma_reply_shows_whole_picture(fetched: Option<Seq<u8>>)
    requires
        reply_of_fetch(fetched) is Ok,
    ensures
        ({
            &&& fetched matches Some(body)
            &&& apod_of_body(body) matches Ok(apod)
            &&& reply_of_fetch(fetched) matches Ok(ResponseView::EmbedReply { content, embed })
            &&& content == apod.explanation
            &&& embed.title == apod.title
            &&& url_normal_form(apod.image_url) == Some(embed.image.url)
            &&& embed.kind == embed_kind()
            &&& embed.color == ACCENT_COLOR
            &&& embed.image.height == 0
            &&& embed.image.width == 0
        }),
{
}

/// A body that is not JSON, or that lacks one of the three strings, has no
/// reply.
pub proof fn lemma_partial_picture_has_no_reply(body: Seq<u8>)
    requires
        apod_of_body(body) is Err,
    ensures
        reply_of_fetch(Some(body)) == Err::<ResponseView, HandlerError>(apod_of_body(body)->Err_0),
        json_reading(body) is None ==> reply_of_fetch(Some(body)) == Err::<
            ResponseView,
            HandlerError,
        >(HandlerError::Malformed),
{
}

} // verus!
