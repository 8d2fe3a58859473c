use chameleon::apod::{
    apod_from_document, apod_reply, apod_request_url, handle, parse_apod, reply_with_normalized,
    ApodResult, HandlerError, ACCENT_COLOR,
};
use chameleon::json::Document;
use chameleon::response::{Embed, EmbedImage, Response};

fn apod(title: &str, explanation: &str, image_url: &str) -> ApodResult {
    ApodResult {
        title: title.to_string(),
        explanation: explanation.to_string(),
        image_url: image_url.to_string(),
    }
}

fn reply(title: &str, explanation: &str, url: &str) -> Response {
    Response::EmbedReply {
        content: explanation.to_string(),
        embed: Embed {
            kind: "rich".to_string(),
            title: title.to_string(),
            color: 0x00FFFF,
            image: EmbedImage { url: url.to_string(), height: 0, width: 0 },
        },
    }
}

#[test]
fn accent_colour_is_cyan() {
    assert_eq!(ACCENT_COLOR, 65535);
}

#[test]
fn request_url_carries_the_key_as_it_is() {
    assert_eq!(
        apod_request_url("DEMO_KEY"),
        "https://api.nasa.gov/planetary/apod?api_key=DEMO_KEY"
    );
    assert_eq!(apod_request_url(""), "https://api.nasa.gov/planetary/apod?api_key=");
    assert_eq!(
        apod_request_url("a b&c=d"),
        "https://api.nasa.gov/planetary/apod?api_key=a b&c=d"
    );
}

#[test]
fn parse_apod_reads_the_three_strings() {
    let body = br#"{"date":"2024-01-01","explanation":"Far away.","hdurl":"https://x/hd.jpg","media_type":"image","title":"A Nebula","url":"https://x/a.jpg"}"#;
    assert_eq!(parse_apod(body), Ok(apod("A Nebula", "Far away.", "https://x/a.jpg")));
}

#[test]
fn parse_apod_refuses_what_is_not_json() {
    assert_eq!(parse_apod(b""), Err(HandlerError::Malformed));
    assert_eq!(parse_apod(b"<html>Service Unavailable</html>"), Err(HandlerError::Malformed));
    assert_eq!(parse_apod(br#"{"url":"u","title":"t","explanation":"e""#), Err(HandlerError::Malformed));
}

#[test]
fn parse_apod_refuses_an_incomplete_document() {
    assert_eq!(parse_apod(b"{}"), Err(HandlerError::Incomplete));
    assert_eq!(parse_apod(b"[]"), Err(HandlerError::Incomplete));
    assert_eq!(parse_apod(br#"{"title":"t","explanation":"e"}"#), Err(HandlerError::Incomplete));
    assert_eq!(parse_apod(br#"{"url":"u","explanation":"e"}"#), Err(HandlerError::Incomplete));
    assert_eq!(parse_apod(br#"{"url":"u","title":"t"}"#), Err(HandlerError::Incomplete));
    assert_eq!(
        parse_apod(br#"{"url":null,"title":"t","explanation":"e"}"#),
        Err(HandlerError::Incomplete)
    );
    assert_eq!(
        parse_apod(br#"{"url":"u","title":1,"explanation":"e"}"#),
        Err(HandlerError::Incomplete)
    );
    assert_eq!(
        parse_apod(br#"{"error":{"code":"API_KEY_INVALID","message":"bad key"}}"#),
        Err(HandlerError::Incomplete)
    );
}

#[test]
fn apod_from_document_reads_a_parsed_document() {
    let document = Document::parse(br#"{"url":"u","title":"t","explanation":"e"}"#).unwrap();
    assert_eq!(apod_from_document(&document), Ok(apod("t", "e", "u")));
}

#[test]
fn reply_with_normalized_builds_the_embed() {
    assert_eq!(
        reply_with_normalized(apod("T", "E", "raw"), Some("https://n/".to_string())),
        Ok(reply("T", "E", "https://n/"))
    );
    assert_eq!(
        reply_with_normalized(apod("T", "E", "raw"), None),
        Err(HandlerError::InvalidUrl)
    );
}

#[test]
fn apod_reply_keeps_a_normal_url() {
    assert_eq!(
        apod_reply(apod("T", "E", "https://apod.nasa.gov/apod/image/2401/a.jpg")),
        Ok(reply("T", "E", "https://apod.nasa.gov/apod/image/2401/a.jpg"))
    );
}

#[test]
fn apod_reply_normalizes_the_url() {
    assert_eq!(
        apod_reply(apod("T", "E", "HTTPS://Example.ORG:443/a b/../c.jpg")),
        Ok(reply("T", "E", "https://example.org/c.jpg"))
    );
    assert_eq!(
        apod_reply(apod("T", "E", "https://example.org")),
        Ok(reply("T", "E", "https://example.org/"))
    );
    assert_eq!(
        apod_reply(apod("T", "E", "  https://example.org/a b.jpg  ")),
        Ok(reply("T", "E", "https://example.org/a%20b.jpg"))
    );
}

#[test]
fn apod_reply_refuses_what_is_no_absolute_url() {
    for url in ["", "not a url", "/apod/image/a.jpg", "//example.org/a.jpg", "https://"] {
        assert_eq!(apod_reply(apod("T", "E", url)), Err(HandlerError::InvalidUrl), "{url:?}");
    }
}

#[test]
fn handle_builds_the_reply_from_the_body() {
    let body = br#"{"url":"https://example.org/p.png","title":"Pillars","explanation":"Gas and dust."}"#;
    assert_eq!(
        handle(Some(body)),
        Ok(reply("Pillars", "Gas and dust.", "https://example.org/p.png"))
    );
}

#[test]
fn handle_reports_each_failure() {
    assert_eq!(handle(None), Err(HandlerError::Transport));
    assert_eq!(handle(Some(b"oops")), Err(HandlerError::Malformed));
    assert_eq!(handle(Some(br#"{"url":"https://e.org/"}"#)), Err(HandlerError::Incomplete));
    assert_eq!(
        handle(Some(br#"{"url":"nowhere","title":"t","explanation":"e"}"#)),
        Err(HandlerError::InvalidUrl)
    );
}
