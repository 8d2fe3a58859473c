use chameleon::dispatch::Action;
use chameleon::gateway::{
    authenticate, function_handler, judge, respond, space_cmd_handler, step_for, Failure,
    GateError, HttpReply, Step,
};
use chameleon::hexcode::HexError;
use chameleon::apod::HandlerError;
use chameleon::interaction::{CommandData, DecodeError, InteractionEnvelope, InteractionKind};
use chameleon::response::Response;
use dryoc::classic::crypto_sign::{crypto_sign_detached, crypto_sign_seed_keypair};

const TIMESTAMP: &[u8] = b"1700000000";

fn signed(body: &[u8]) -> (String, String) {
    let (public_key, secret_key) = crypto_sign_seed_keypair(&[42u8; 32]);
    let mut message = TIMESTAMP.to_vec();
    message.extend_from_slice(body);
    let mut signature = [0u8; 64];
    crypto_sign_detached(&mut signature, &message, &secret_key).unwrap();
    (hex::encode(signature), hex::encode(public_key))
}

fn handled(body: &[u8]) -> Step {
    let (signature, public_key) = signed(body);
    function_handler(
        Some(signature.as_bytes()),
        Some(TIMESTAMP),
        body,
        Some(public_key.as_bytes()),
        Some("KEY"),
    )
}

fn unauthorized() -> Step {
    Step::Reply(HttpReply {
        status: 401,
        json: false,
        body: "Invalid request signature".to_string(),
    })
}

fn failed(name: &str) -> HttpReply {
    HttpReply { status: 500, json: false, body: format!("An unknown error occured {name}") }
}

fn ok(body: &str) -> HttpReply {
    HttpReply { status: 200, json: true, body: body.to_string() }
}

#[test]
fn judge_maps_each_verdict() {
    assert_eq!(judge(Ok(true)), Ok(()));
    assert_eq!(judge(Ok(false)), Err(GateError::Rejected));
    assert_eq!(
        judge(Err(HexError::OddLength)),
        Err(GateError::Undecodable(HexError::OddLength))
    );
}

#[test]
fn failure_names() {
    let cases = [
        (Failure::Gate(GateError::MissingHeader), "MissingHeader"),
        (Failure::Gate(GateError::Rejected), "Rejected"),
        (Failure::Gate(GateError::Undecodable(HexError::OddLength)), "OddLength"),
        (
            Failure::Gate(GateError::Undecodable(HexError::InvalidStringLength)),
            "InvalidStringLength",
        ),
        (
            Failure::Gate(GateError::Undecodable(HexError::InvalidHexCharacter {
                c: 'x',
                index: 2,
            })),
            "InvalidHexCharacter",
        ),
        (Failure::SecretUnavailable, "SecretUnavailable"),
        (Failure::Decode(DecodeError::Malformed), "Malformed"),
        (Failure::Decode(DecodeError::MissingKind), "MissingKind"),
        (Failure::Decode(DecodeError::WrongShape), "WrongShape"),
        (Failure::Handler(HandlerError::Transport), "Transport"),
        (Failure::Handler(HandlerError::Malformed), "Malformed"),
        (Failure::Handler(HandlerError::Incomplete), "Incomplete"),
        (Failure::Handler(HandlerError::InvalidUrl), "InvalidUrl"),
    ];
    for (failure, name) in cases {
        assert_eq!(failure.name(), name);
    }
}

#[test]
fn failure_replies() {
    assert_eq!(Step::Reply(HttpReply::failure(Failure::Gate(GateError::Rejected))), unauthorized());
    assert_eq!(
        Step::Reply(HttpReply::failure(Failure::Gate(GateError::MissingHeader))),
        unauthorized()
    );
    assert_eq!(
        HttpReply::failure(Failure::Gate(GateError::Undecodable(HexError::OddLength))),
        failed("OddLength")
    );
    assert_eq!(HttpReply::failure(Failure::SecretUnavailable), failed("SecretUnavailable"));
    assert_eq!(HttpReply::failure(Failure::Decode(DecodeError::Malformed)), failed("Malformed"));
    assert_eq!(
        HttpReply::failure(Failure::Handler(HandlerError::InvalidUrl)),
        failed("InvalidUrl")
    );
}

#[test]
fn success_reply_is_200_with_the_wire_text() {
    assert_eq!(HttpReply::success(&Response::Ack), ok(r#"{"type":1}"#));
    assert_eq!(
        HttpReply::success(&Response::TextReply { content: "bar".to_string() }),
        ok(r#"{"type":4,"data":{"content":"bar"}}"#)
    );
}

#[test]
fn authenticate_lets_a_signed_request_in() {
    let body = br#"{"type":1}"#;
    let (signature, public_key) = signed(body);
    let verified =
        authenticate(Some(signature.as_bytes()), Some(TIMESTAMP), body, public_key.as_bytes())
            .ok()
            .unwrap();
    assert_eq!(verified.body(), body);
    assert_eq!(
        verified.envelope(),
        Ok(InteractionEnvelope { kind: InteractionKind::Ping, data: None })
    );
    assert_eq!(respond(&verified, "KEY"), Step::Reply(ok(r#"{"type":1}"#)));
}

#[test]
fn authenticate_refuses_a_request_without_a_header() {
    let body = br#"{"type":1}"#;
    let (signature, public_key) = signed(body);
    let key = public_key.as_bytes();
    assert_eq!(
        authenticate(None, Some(TIMESTAMP), body, key).err(),
        Some(GateError::MissingHeader)
    );
    assert_eq!(
        authenticate(Some(signature.as_bytes()), None, body, key).err(),
        Some(GateError::MissingHeader)
    );
    assert_eq!(authenticate(None, None, body, key).err(), Some(GateError::MissingHeader));
    assert_eq!(authenticate(None, None, body, b"zz").err(), Some(GateError::MissingHeader));
}

#[test]
fn authenticate_tells_rejection_from_bad_encoding() {
    let body = br#"{"type":1}"#;
    let (signature, public_key) = signed(body);
    assert_eq!(
        authenticate(Some(signature.as_bytes()), Some(b"1700000001"), body, public_key.as_bytes())
            .err(),
        Some(GateError::Rejected)
    );
    assert_eq!(
        authenticate(Some(b"abc"), Some(TIMESTAMP), body, public_key.as_bytes()).err(),
        Some(GateError::Undecodable(HexError::OddLength))
    );
    assert_eq!(
        authenticate(Some(signature.as_bytes()), Some(TIMESTAMP), body, b"abcd").err(),
        Some(GateError::Undecodable(HexError::InvalidStringLength))
    );
}

#[test]
fn handler_answers_401_when_a_header_is_missing() {
    let body = br#"{"type":2,"data":{"name":"foo"}}"#;
    let (signature, public_key) = signed(body);
    let signature = Some(signature.as_bytes());
    let key = Some(public_key.as_bytes());
    assert_eq!(function_handler(None, Some(TIMESTAMP), body, key, Some("KEY")), unauthorized());
    assert_eq!(function_handler(signature, None, body, key, Some("KEY")), unauthorized());
    assert_eq!(function_handler(None, None, body, key, Some("KEY")), unauthorized());
    assert_eq!(function_handler(None, None, body, None, None), unauthorized());
}

#[test]
fn handler_answers_500_when_a_secret_is_missing() {
    let body = br#"{"type":1}"#;
    let (signature, public_key) = signed(body);
    let signature = Some(signature.as_bytes());
    let key = Some(public_key.as_bytes());
    let expected = Step::Reply(failed("SecretUnavailable"));
    assert_eq!(function_handler(signature, Some(TIMESTAMP), body, None, Some("KEY")), expected);
    assert_eq!(function_handler(signature, Some(TIMESTAMP), body, key, None), expected);
    assert_eq!(function_handler(signature, Some(TIMESTAMP), body, None, None), expected);
}

#[test]
fn handler_answers_500_when_signature_or_key_is_no_hex() {
    let body = br#"{"type":1}"#;
    let (signature, public_key) = signed(body);
    assert_eq!(
        function_handler(
            Some(b"xyz"),
            Some(TIMESTAMP),
            body,
            Some(public_key.as_bytes()),
            Some("KEY")
        ),
        Step::Reply(failed("OddLength"))
    );
    assert_eq!(
        function_handler(
            Some(&signature.as_bytes()[2..]),
            Some(TIMESTAMP),
            body,
            Some(public_key.as_bytes()),
            Some("KEY")
        ),
        Step::Reply(failed("InvalidStringLength"))
    );
    let mut bad_key = public_key.clone().into_bytes();
    bad_key[0] = b'_';
    assert_eq!(
        function_handler(
            Some(signature.as_bytes()),
            Some(TIMESTAMP),
            body,
            Some(&bad_key),
            Some("KEY")
        ),
        Step::Reply(failed("InvalidHexCharacter"))
    );
}

#[test]
fn handler_answers_401_when_the_signature_is_rejected() {
    let body = br#"{"type":2,"data":{"name":"foo"}}"#;
    let (signature, public_key) = signed(body);
    let other = br#"{"type":2,"data":{"name":"space"}}"#;
    assert_eq!(
        function_handler(
            Some(signature.as_bytes()),
            Some(TIMESTAMP),
            other,
            Some(public_key.as_bytes()),
            Some("KEY")
        ),
        unauthorized()
    );
    assert_eq!(
        function_handler(
            Some(signature.as_bytes()),
            Some(b"1700000001"),
            body,
            Some(public_key.as_bytes()),
            Some("KEY")
        ),
        unauthorized()
    );
    assert_eq!(
        function_handler(
            Some(signature.as_bytes()),
            Some(TIMESTAMP),
            b"not json at all",
            Some(public_key.as_bytes()),
            Some("KEY")
        ),
        unauthorized()
    );
}

#[test]
fn handler_acknowledges_a_ping() {
    assert_eq!(handled(br#"{"type":1}"#), Step::Reply(ok(r#"{"type":1}"#)));
    assert_eq!(
        handled(br#"{"type":1,"data":{"name":"space"},"extra":[1,2,3]}"#),
        Step::Reply(ok(r#"{"type":1}"#))
    );
}

#[test]
fn handler_answers_foo_with_bar() {
    assert_eq!(
        handled(br#"{"type":2,"data":{"name":"foo"}}"#),
        Step::Reply(ok(r#"{"type":4,"data":{"content":"bar"}}"#))
    );
}

#[test]
fn handler_asks_for_the_picture_on_space() {
    assert_eq!(
        handled(br#"{"type":2,"data":{"name":"space"}}"#),
        Step::FetchApod { url: "https://api.nasa.gov/planetary/apod?api_key=KEY".to_string() }
    );
}

#[test]
fn handler_acknowledges_unknown_commands_and_kinds() {
    let ack = Step::Reply(ok(r#"{"type":1}"#));
    assert_eq!(handled(br#"{"type":2,"data":{"name":"nope"}}"#), ack);
    assert_eq!(handled(br#"{"type":3}"#), ack);
    assert_eq!(handled(br#"{"type":4}"#), ack);
    assert_eq!(handled(br#"{"type":5}"#), ack);
    assert_eq!(handled(br#"{"type":77}"#), ack);
}

#[test]
fn handler_answers_500_when_a_signed_body_is_no_envelope() {
    assert_eq!(handled(b"not json"), Step::Reply(failed("Malformed")));
    assert_eq!(handled(b"{}"), Step::Reply(failed("MissingKind")));
    assert_eq!(handled(br#"{"type":2}"#), Step::Reply(failed("WrongShape")));
}

#[test]
fn step_for_carries_out_an_action() {
    assert_eq!(
        step_for(&Action::Respond(Response::Ack), "KEY"),
        Step::Reply(ok(r#"{"type":1}"#))
    );
    assert_eq!(
        step_for(&Action::FetchApod, "abc"),
        Step::FetchApod { url: "https://api.nasa.gov/planetary/apod?api_key=abc".to_string() }
    );
}

#[test]
fn space_answers_with_the_embed() {
    let body = br#"{"url":"HTTP://Example.org/sky.jpg","title":"Sky \"tonight\"","explanation":"Look up."}"#;
    let expected = [
        r#"{"type":4,"data":{"content":"Look up.","embeds":[{"type":"rich","#,
        r#""title":"Sky \"tonight\"","color":65535,"#,
        r#""image":{"url":"http://example.org/sky.jpg","height":0,"width":0}}]}}"#,
    ]
    .concat();
    assert_eq!(space_cmd_handler(Some(body)), ok(&expected));
}

#[test]
fn space_answers_500_on_each_failure() {
    assert_eq!(space_cmd_handler(None), failed("Transport"));
    assert_eq!(space_cmd_handler(Some(b"<html>")), failed("Malformed"));
    assert_eq!(
        space_cmd_handler(Some(br#"{"url":"https://e.org/","title":"t"}"#)),
        failed("Incomplete")
    );
    assert_eq!(
        space_cmd_handler(Some(br#"{"url":"e","title":"t","explanation":"x"}"#)),
        failed("InvalidUrl")
    );
}

#[test]
fn envelope_with_a_command_of_another_kind_is_acknowledged() {
    let envelope = InteractionEnvelope {
        kind: InteractionKind::MessageComponent,
        data: Some(CommandData { name: "foo".to_string() }),
    };
    assert_eq!(
        step_for(&chameleon::dispatch::dispatch(&envelope), "KEY"),
        Step::Reply(ok(r#"{"type":1}"#))
    );
}
