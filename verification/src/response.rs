//! The responses that the gateway accepts, and their wire form.

use vstd::prelude::*;
use crate::interaction::{kind_code_of, DecodeError};
use crate::json::{
    item_trees, json_reading, json_tree, json_writing, lemma_field_absent, lemma_field_at,
    member_trees, value_as_array, value_as_i64, value_as_str, value_from_i64, value_from_members,
    value_from_string, value_from_vec, value_get, value_to_string, Document, JsonTree,
};
use crate::options::chars_of_string;

verus! {

/// The image of an embed. A height or width of 0 stands for "not known".
#[derive(Debug, Clone, PartialEq, Eq)]
pub struct EmbedImage {
    pub url: String,
    pub height: i32,
    pub width: i32,
}

/// A block of structured content attached to a reply.
#[derive(Debug, Clone, PartialEq, Eq)]
pub struct Embed {
    pub kind: String,
    pub title: String,
    pub color: i32,
    pub image: EmbedImage,
}

/// What the gateway is answered with.
#[derive(Debug, Clone, PartialEq, Eq)]
pub enum Response {
    /// A bare acknowledgement.
    Ack,
    /// A message of text.
    TextReply { content: String },
    /// A message of text with one embed.
    EmbedReply { content: String, embed: Embed },
}

pub struct ImageView {
    pub url: Seq<char>,
    pub height: i32,
    pub width: i32,
}

pub struct EmbedView {
    pub kind: Seq<char>,
    pub title: Seq<char>,
    pub color: i32,
    pub image: ImageView,
}

/// A response as a mathematical value.
pub enum ResponseView {
    Ack,
    TextReply { content: Seq<char> },
    EmbedReply { content: Seq<char>, embed: EmbedView },
}

impl View for EmbedImage {
    type V = ImageView;

    open spec fn view(&self) -> ImageView {
        ImageView { url: self.url@, height: self.height, width: self.width }
    }
}

impl View for Embed {
    type V = EmbedView;

    open spec fn view(&self) -> EmbedView {
        EmbedView { kind: self.kind@, title: self.title@, color: self.color, image: self.image@ }
    }
}

impl View for Response {
    type V = ResponseView;

    open spec fn view(&self) -> ResponseView {
        match self {
            Response::Ack => ResponseView::Ack,
            Response::TextReply { content } => ResponseView::TextReply { content: content@ },
            Response::EmbedReply { content, embed } => ResponseView::EmbedReply {
                content: content@,
                embed: embed@,
            },
        }
    }
}

/// The wire number of an acknowledgement.
pub const ACK_CODE: i64 = 1;

/// The wire number of a message, with or without an embed.
pub const MESSAGE_CODE: i64 = 4;

/// The JSON tree of an image: `url`, `height`, `width`.
pub open spec fn image_tree(image: ImageView) -> JsonTree {
    JsonTree::Object(
        seq![
            ("url"@, JsonTree::Text(image.url)),
            ("height"@, JsonTree::Integer(image.height as int)),
            ("width"@, JsonTree::Integer(image.width as int)),
        ],
    )
}

/// The JSON tree of an embed: `type`, `title`, `color`, `image`.
pub open spec fn embed_tree(embed: EmbedView) -> JsonTree {
    JsonTree::Object(
        seq![
            ("type"@, JsonTree::Text(embed.kind)),
            ("title"@, JsonTree::Text(embed.title)),
            ("color"@, JsonTree::Integer(embed.color as int)),
            ("image"@, image_tree(embed.image)),
        ],
    )
}

/// The JSON tree of a response: the member `type` holds the number that tells
/// the variants apart, the member `data` what a message carries. An
/// acknowledgement has no `data`.
pub open spec fn response_tree(response: ResponseView) -> JsonTree {
    match response {
        ResponseView::Ack => JsonTree::Object(seq![("type"@, JsonTree::Integer(ACK_CODE as int))]),
        ResponseView::TextReply { content } => JsonTree::Object(
            seq![
                ("type"@, JsonTree::Integer(MESSAGE_CODE as int)),
                ("data"@, JsonTree::Object(seq![("content"@, JsonTree::Text(content))])),
            ],
        ),
        ResponseView::EmbedReply { content, embed } => JsonTree::Object(
            seq![
                ("type"@, JsonTree::Integer(MESSAGE_CODE as int)),
                (
                    "data"@,
                    JsonTree::Object(
                        seq![
                            ("content"@, JsonTree::Text(content)),
                            ("embeds"@, JsonTree::Array(seq![embed_tree(embed)])),
                        ],
                    ),
                ),
            ],
        ),
    }
}

/// The wire text of a response.
pub open spec fn wire_text(response: ResponseView) -> Seq<char> {
    json_writing(response_tree(response))
}

/// The string under the member `key` of `tree`.
pub open spec fn text_member(tree: JsonTree, key: Seq<char>) -> Option<Seq<char>> {
    match tree.field(key) {
        Some(member) => member.as_text(),
        None => None,
    }
}

/// The number under the member `key` of `tree`, where a signed 32-bit integer holds it.
pub open spec fn i32_member(tree: JsonTree, key: Seq<char>) -> Option<i32> {
    match tree.field(key) {
        Some(member) => match member.as_i64() {
            Some(number) => if i32::MIN <= number <= i32::MAX {
                Some(number as i32)
            } else {
                None
            },
            None => None,
        },
        None => None,
    }
}

/// The image that a JSON tree holds.
pub open spec fn image_of_tree(tree: JsonTree) -> Option<ImageView> {
    match (text_member(tree, "url"@), i32_member(tree, "height"@), i32_member(tree, "width"@)) {
        (Some(url), Some(height), Some(width)) => Some(ImageView { url, height, width }),
        _ => None,
    }
}

/// The embed that a JSON tree holds.
pub open spec fn embed_of_tree(tree: JsonTree) -> Option<EmbedView> {
    match (
        text_member(tree, "type"@),
        text_member(tree, "title"@),
        i32_member(tree, "color"@),
        tree.field("image"@),
    ) {
        (Some(kind), Some(title), Some(color), Some(image)) => match image_of_tree(image) {
            Some(image) => Some(EmbedView { kind, title, color, image }),
            None => None,
        },
        _ => None,
    }
}

/// The message that the member `data` of a response holds: a text reply
/// where it has no member `embeds`, an embed reply where `embeds` is an array
/// of exactly one embed.
pub open spec fn message_of_tree(data: JsonTree) -> Result<ResponseView, DecodeError> {
    match text_member(data, "content"@) {
        None => Err(DecodeError::WrongShape),
        Some(content) => match data.field("embeds"@) {
            None => Ok(ResponseView::TextReply { content }),
            Some(embeds) => match embeds.as_items() {
                None => Err(DecodeError::WrongShape),
                Some(items) => if items.len() == 1 {
                    match embed_of_tree(items[0]) {
                        Some(embed) => Ok(ResponseView::EmbedReply { content, embed }),
                        None => Err(DecodeError::WrongShape),
                    }
                } else {
                    Err(DecodeError::WrongShape)
                },
            },
        },
    }
}

/// The response that a JSON tree holds.
pub open spec fn response_of_tree(tree: JsonTree) -> Result<ResponseView, DecodeError> {
    match kind_code_of(tree) {
        None => Err(DecodeError::MissingKind),
        Some(code) => if code == ACK_CODE {
            Ok(ResponseView::Ack)
        } else if code == MESSAGE_CODE {
            match tree.field("data"@) {
                Some(data) => message_of_tree(data),
                None => Err(DecodeError::WrongShape),
            }
        } else {
            Err(DecodeError::WrongShape)
        },
    }
}

/// The response that a wire text holds.
pub open spec fn response_of_text(text: Seq<u8>) -> Result<ResponseView, DecodeError> {
    match json_reading(text) {
        None => Err(DecodeError::Malformed),
        Some(tree) => response_of_tree(tree),
    }
}

/// A decoder's outcome, the response taken by its view.
pub open spec fn response_outcome(result: Result<Response, DecodeError>) -> Result<
    ResponseView,
    DecodeError,
> {
    match result {
        Ok(response) => Ok(response@),
        Err(e) => Err(e),
    }
}

/// The view of an image that may be absent.
pub open spec fn image_view_of(image: Option<EmbedImage>) -> Option<ImageView> {
    match image {
        Some(image) => Some(image@),
        None => None,
    }
}

/// The view of an embed that may be absent.
pub open spec fn embed_view_of(embed: Option<Embed>) -> Option<EmbedView> {
    match embed {
        Some(embed) => Some(embed@),
        None => None,
    }
}

pub(crate) fn text_member_of(value: &serde_json::Value, key: &str) -> (r: Option<String>)
    ensures
        chars_of_string(r) == text_member(json_tree(*value), key@),
{
    match value_get(value, key) {
        Some(member) => match value_as_str(member) {
            Some(text) => Some(String::from_str(text)),
            None => None,
        },
        None => None,
    }
}

fn i32_member_of(value: &serde_json::Value, key: &str) -> (r: Option<i32>)
    ensures
        r == i32_member(json_tree(*value), key@),
{
    match value_get(value, key) {
        Some(member) => match value_as_i64(member) {
            Some(number) => if -2147483648 <= number && number <= 2147483647 {
                Some(number as i32)
            } else {
                None
            },
            None => None,
        },
        None => None,
    }
}

fn image_from_value(value: &serde_json::Value) -> (r: Option<EmbedImage>)
    ensures
        image_view_of(r) == image_of_tree(json_tree(*value)),
{
    let url = text_member_of(value, "url");
    let height = i32_member_of(value, "height");
    let width = i32_member_of(value, "width");
    match (url, height, width) {
        (Some(url), Some(height), Some(width)) => Some(EmbedImage { url, height, width }),
        _ => None,
    }
}

fn embed_from_value(value: &serde_json::Value) -> (r: Option<Embed>)
    ensures
        embed_view_of(r) == embed_of_tree(json_tree(*value)),
{
    let kind = text_member_of(value, "type");
    let title = text_member_of(value, "title");
    let color = i32_member_of(value, "color");
    let image = value_get(value, "image");
    match (kind, title, color, image) {
        (Some(kind), Some(title), Some(color), Some(image)) => match image_from_value(image) {
            Some(image) => Some(Embed { kind, title, color, image }),
            None => None,
        },
        _ => None,
    }
}

fn message_from_value(data: &serde_json::Value) -> (r: Result<Response, DecodeError>)
    ensures
        response_outcome(r) == message_of_tree(json_tree(*data)),
{
    let content = match text_member_of(data, "content") {
        Some(content) => content,
        None => { return Err(DecodeError::WrongShape); },
    };
    let embeds = match value_get(data, "embeds") {
        Some(embeds) => embeds,
        None => { return Ok(Response::TextReply { content }); },
    };
    let items = match value_as_array(embeds) {
        Some(items) => items,
        None => { return Err(DecodeError::WrongShape); },
    };
    if items.len() != 1 {
        return Err(DecodeError::WrongShape);
    }
    match embed_from_value(&items[0]) {
        Some(embed) => Ok(Response::EmbedReply { content, embed }),
        None => Err(DecodeError::WrongShape),
    }
}

pub(crate) fn response_from_value(value: &serde_json::Value) -> (r: Result<Response, DecodeError>)
    ensures
        response_outcome(r) == response_of_tree(json_tree(*value)),
{
    let code = match value_get(value, "type") {
        Some(code) => match value_as_i64(code) {
            Some(code) => code,
            None => { return Err(DecodeError::MissingKind); },
        },
        None => { return Err(DecodeError::MissingKind); },
    };
    if code == ACK_CODE {
        Ok(Response::Ack)
    } else if code == MESSAGE_CODE {
        match value_get(value, "data") {
            Some(data) => message_from_value(data),
            None => Err(DecodeError::WrongShape),
        }
    } else {
        Err(DecodeError::WrongShape)
    }
}

fn image_to_value(image: &EmbedImage) -> (value: serde_json::Value)
    ensures
        json_tree(value) == image_tree(image@),
{
    let mut members: Vec<(String, serde_json::Value)> = Vec::new();
    members.push((String::from_str("url"), value_from_string(image.url.clone())));
    members.push((String::from_str("height"), value_from_i64(image.height as i64)));
    members.push((String::from_str("width"), value_from_i64(image.width as i64)));
    proof {
        reveal_strlit("url");
        reveal_strlit("height");
        reveal_strlit("width");
        assert("url"@.len() == 3 && "height"@.len() == 6 && "width"@.len() == 5);
        assert(member_trees(members@) =~= seq![
            ("url"@, JsonTree::Text(image.url@)),
            ("height"@, JsonTree::Integer(image.height as int)),
            ("width"@, JsonTree::Integer(image.width as int)),
        ]);
    }
    value_from_members(members)
}

fn embed_to_value(embed: &Embed) -> (value: serde_json::Value)
    ensures
        json_tree(value) == embed_tree(embed@),
{
    let mut members: Vec<(String, serde_json::Value)> = Vec::new();
    members.push((String::from_str("type"), value_from_string(embed.kind.clone())));
    members.push((String::from_str("title"), value_from_string(embed.title.clone())));
    members.push((String::from_str("color"), value_from_i64(embed.color as i64)));
    members.push((String::from_str("image"), image_to_value(&embed.image)));
    proof {
        reveal_strlit("type");
        reveal_strlit("title");
        reveal_strlit("color");
        reveal_strlit("image");
        assert("type"@.len() == 4 && "title"@.len() == 5);
        assert("title"@[0] != "color"@[0]);
        assert("title"@[0] != "image"@[0]);
        assert("color"@[0] != "image"@[0]);
        assert(member_trees(members@) =~= seq![
            ("type"@, JsonTree::Text(embed.kind@)),
            ("title"@, JsonTree::Text(embed.title@)),
            ("color"@, JsonTree::Integer(embed.color as int)),
            ("image"@, image_tree(embed.image@)),
        ]);
    }
    value_from_members(members)
}

fn message_to_value(data: serde_json::Value) -> (value: serde_json::Value)
    ensures
        json_tree(value) == JsonTree::Object(
            seq![("type"@, JsonTree::Integer(MESSAGE_CODE as int)), ("data"@, json_tree(data))],
        ),
{
    let ghost data_tree = json_tree(data);
    let mut members: Vec<(String, serde_json::Value)> = Vec::new();
    members.push((String::from_str("type"), value_from_i64(MESSAGE_CODE)));
    members.push((String::from_str("data"), data));
    proof {
        reveal_strlit("type");
        reveal_strlit("data");
        assert("type"@[0] != "data"@[0]);
        assert(member_trees(members@) =~= seq![
            ("type"@, JsonTree::Integer(MESSAGE_CODE as int)),
            ("data"@, data_tree),
        ]);
    }
    value_from_members(members)
}

pub(crate) fn response_to_value(response: &Response) -> (value: serde_json::Value)
    ensures
        json_tree(value) == response_tree(response@),
{
    match response {
        Response::Ack => {
            let mut members: Vec<(String, serde_json::Value)> = Vec::new();
            members.push((String::from_str("type"), value_from_i64(ACK_CODE)));
            proof {
                assert(member_trees(members@) =~= seq![
                    ("type"@, JsonTree::Integer(ACK_CODE as int)),
                ]);
            }
            value_from_members(members)
        },
        Response::TextReply { content } => {
            let mut inner: Vec<(String, serde_json::Value)> = Vec::new();
            inner.push((String::from_str("content"), value_from_string(content.clone())));
            proof {
                assert(member_trees(inner@) =~= seq![("content"@, JsonTree::Text(content@))]);
            }
            message_to_value(value_from_members(inner))
        },
        Response::EmbedReply { content, embed } => {
            let mut items: Vec<serde_json::Value> = Vec::new();
            items.push(embed_to_value(embed));
            proof {
                assert(item_trees(items@) =~= seq![embed_tree(embed@)]);
            }
            let mut inner: Vec<(String, serde_json::Value)> = Vec::new();
            inner.push((String::from_str("content"), value_from_string(content.clone())));
            inner.push((String::from_str("embeds"), value_from_vec(items)));
            proof {
                reveal_strlit("content");
                reveal_strlit("embeds");
                assert("content"@.len() == 7 && "embeds"@.len() == 6);
                assert(member_trees(inner@) =~= seq![
                    ("content"@, JsonTree::Text(content@)),
                    ("embeds"@, JsonTree::Array(seq![embed_tree(embed@)])),
                ]);
            }
            message_to_value(value_from_members(inner))
        },
    }
}

impl Response {
    /// The JSON document that the response is written as.
    pub fn to_document(&self) -> (document: Document)
        ensures
            document@ == response_tree(self@),
    {
        Document::from_value(response_to_value(self))
    }

    /// The response that a JSON document holds.
    pub fn from_document(document: &Document) -> (r: Result<Response, DecodeError>)
        ensures
            response_outcome(r) == response_of_tree(document@),
    {
        response_from_value(document.value())
    }
}

/// Writes a response in the wire format.
pub fn encode(response: &Response) -> (text: String)
    ensures
        text@ == wire_text(response@),
{
    value_to_string(&response_to_value(response))
}

/// Reads a response from the wire format.
pub fn decode_response(text: &[u8]) -> (r: Result<Response, DecodeError>)
    ensures
        response_outcome(r) == response_of_text(text@),
{
    match Document::parse(text) {
        Some(document) => Response::from_document(&document),
        None => Err(DecodeError::Malformed),
    }
}

proof fn lemma_image_round_trip(image: ImageView)
    ensures
        image_of_tree(image_tree(image)) == Some(image),
{
    reveal_strlit("url");
    reveal_strlit("height");
    reveal_strlit("width");
    assert("url"@.len() == 3 && "height"@.len() == 6 && "width"@.len() == 5);
    let members = seq![
        ("url"@, JsonTree::Text(image.url)),
        ("height"@, JsonTree::Integer(image.height as int)),
        ("width"@, JsonTree::Integer(image.width as int)),
    ];
    lemma_field_at(members, "url"@, 0);
    lemma_field_at(members, "height"@, 1);
    lemma_field_at(members, "width"@, 2);
}

proof fn lemma_embed_round_trip(embed: EmbedView)
    ensures
        embed_of_tree(embed_tree(embed)) == Some(embed),
{
    reveal_strlit("type");
    reveal_strlit("title");
    reveal_strlit("color");
    reveal_strlit("image");
    let members = seq![
        ("type"@, JsonTree::Text(embed.kind)),
        ("title"@, JsonTree::Text(embed.title)),
        ("color"@, JsonTree::Integer(embed.color as int)),
        ("image"@, image_tree(embed.image)),
    ];
    assert("type"@.len() == 4 && "title"@.len() == 5);
    assert("title"@[0] != "color"@[0]);
    assert("title"@[0] != "image"@[0]);
    assert("color"@[0] != "image"@[0]);
    lemma_field_at(members, "type"@, 0);
    lemma_field_at(members, "title"@, 1);
    lemma_field_at(members, "color"@, 2);
    lemma_field_at(members, "image"@, 3);
    lemma_image_round_trip(embed.image);
}

/// Reading back the tree that a response is written as gives the response:
/// no variant and no field is lost between a response and its JSON tree.
pub proof fn lemma_response_round_trip(response: ResponseView)
    ensures
        response_of_tree(response_tree(response)) == Ok::<ResponseView, DecodeError>(response),
{
    reveal_strlit("type");
    reveal_strlit("data");
    reveal_strlit("content");
    reveal_strlit("embeds");
    assert("type"@[0] != "data"@[0]);
    assert("content"@.len() == 7 && "embeds"@.len() == 6);
    match response {
        ResponseView::Ack => {
            let members = seq![("type"@, JsonTree::Integer(ACK_CODE as int))];
            lemma_field_at(members, "type"@, 0);
        },
        ResponseView::TextReply { content } => {
            let inner = seq![("content"@, JsonTree::Text(content))];
            let members = seq![
                ("type"@, JsonTree::Integer(MESSAGE_CODE as int)),
                ("data"@, JsonTree::Object(inner)),
            ];
            lemma_field_at(members, "type"@, 0);
            lemma_field_at(members, "data"@, 1);
            lemma_field_at(inner, "content"@, 0);
            lemma_field_absent(inner, "embeds"@);
        },
        ResponseView::EmbedReply { content, embed } => {
            let inner = seq![
                ("content"@, JsonTree::Text(content)),
                ("embeds"@, JsonTree::Array(seq![embed_tree(embed)])),
            ];
            let members = seq![
                ("type"@, JsonTree::Integer(MESSAGE_CODE as int)),
                ("data"@, JsonTree::Object(inner)),
            ];
            lemma_field_at(members, "type"@, 0);
            lemma_field_at(members, "data"@, 1);
            lemma_field_at(inner, "content"@, 0);
            lemma_field_at(inner, "embeds"@, 1);
            lemma_embed_round_trip(embed);
        },
    }
}

} // verus!
