//! The endpoint: a request is let in by its signature, decoded, dispatched
//! and answered. Nothing here performs I/O; where the answer needs the
//! astronomy service, the caller is told what to fetch and hands the body
//! back.

use vstd::prelude::*;
use crate::apod::{apod_endpoint, apod_request_url, handle, reply_of_fetch, HandlerError};
use crate::dispatch::{action_for, command_named, dispatch, Action, ActionView};
use crate::hexcode::HexError;
use crate::interaction::{
    decode, envelope_of_body, envelope_of_tree, envelope_outcome, kind_code_of, DecodeError,
    EnvelopeView, InteractionEnvelope, InteractionKind,
};
use crate::json::JsonTree;
use crate::options::{bytes_of, chars_of};
use crate::response::{encode, wire_text, Response, ResponseView};
use crate::signature::{key_verdict, verify_key};

verus! {

/// An HTTP answer: the status, whether the body is announced as
/// `application/json`, and the body.
#[derive(Debug, Clone, PartialEq, Eq)]
pub struct HttpReply {
    pub status: u16,
    pub json: bool,
    pub body: String,
}

/// An HTTP answer as a mathematical value.
pub struct HttpReplyView {
    pub status: u16,
    pub json: bool,
    pub body: Seq<char>,
}

impl View for HttpReply {
    type V = HttpReplyView;

    open spec fn view(&self) -> HttpReplyView {
        HttpReplyView { status: self.status, json: self.json, body: self.body@ }
    }
}

/// What the caller does next.
#[derive(Debug, Clone, PartialEq, Eq)]
pub enum Step {
    /// Send this answer; the request is done.
    Reply(HttpReply),
    /// Fetch `url` with a GET, and hand what came back to
    /// `space_cmd_handler`.
    FetchApod { url: String },
}

/// A step as a mathematical value.
pub enum StepView {
    Reply(HttpReplyView),
    FetchApod { url: Seq<char> },
}

impl View for Step {
    type V = StepView;

    open spec fn view(&self) -> StepView {
        match self {
            Step::Reply(reply) => StepView::Reply(reply@),
            Step::FetchApod { url } => StepView::FetchApod { url: url@ },
        }
    }
}

/// Why a request is not let in.
#[derive(Debug, Clone, Copy, PartialEq, Eq, Structural)]
pub enum GateError {
    /// The signature or the timestamp header is absent.
    MissingHeader,
    /// The signature or the public key is no hexadecimal text of its width.
    Undecodable(HexError),
    /// The signature is not one of the timestamp and body under the key.
    Rejected,
}

/// Why a request is answered with an error in place of a response.
#[derive(Debug, Clone, Copy, PartialEq, Eq, Structural)]
pub enum Failure {
    Gate(GateError),
    /// One of the two secrets could not be had.
    SecretUnavailable,
    Decode(DecodeError),
    Handler(HandlerError),
}

/// The text that names a failure in a diagnostic body.
pub open spec fn failure_name(failure: Failure) -> Seq<char> {
    match failure {
        Failure::Gate(GateError::MissingHeader) => "MissingHeader"@,
        Failure::Gate(GateError::Undecodable(HexError::OddLength)) => "OddLength"@,
        Failure::Gate(GateError::Undecodable(HexError::InvalidStringLength)) => {
            "InvalidStringLength"@
        },
        Failure::Gate(GateError::Undecodable(HexError::InvalidHexCharacter { .. })) => {
            "InvalidHexCharacter"@
        },
        Failure::Gate(GateError::Rejected) => "Rejected"@,
        Failure::SecretUnavailable => "SecretUnavailable"@,
        Failure::Decode(DecodeError::Malformed) => "Malformed"@,
        Failure::Decode(DecodeError::MissingKind) => "MissingKind"@,
        Failure::Decode(DecodeError::WrongShape) => "WrongShape"@,
        Failure::Handler(HandlerError::Transport) => "Transport"@,
        Failure::Handler(HandlerError::Malformed) => "Malformed"@,
        Failure::Handler(HandlerError::Incomplete) => "Incomplete"@,
        Failure::Handler(HandlerError::InvalidUrl) => "InvalidUrl"@,
    }
}

/// The answer to a request that is not authenticated: 401 and a fixed text,
/// the same whatever the request held.
pub open spec fn unauthorized_reply() -> HttpReplyView {
    HttpReplyView { status: 401, json: false, body: "Invalid request signature"@ }
}

/// The answer to a request that failed otherwise: 500 and a diagnostic text.
pub open spec fn error_reply(failure: Failure) -> HttpReplyView {
    HttpReplyView {
        status: 500,
        json: false,
        body: "An unknown error occured "@ + failure_name(failure),
    }
}

/// The answer that carries a response: 200 and the response's wire text.
pub open spec fn success_reply(response: ResponseView) -> HttpReplyView {
    HttpReplyView { status: 200, json: true, body: wire_text(response) }
}

/// The answer to a failure: a request without one of its headers, or with
/// a signature that is rejected, is answered with 401, every other failure
/// with 500.
pub open spec fn failure_reply(failure: Failure) -> HttpReplyView {
    match failure {
        Failure::Gate(GateError::MissingHeader) => unauthorized_reply(),
        Failure::Gate(GateError::Rejected) => unauthorized_reply(),
        _ => error_reply(failure),
    }
}

/// What the verdict on a signature means for the request.
pub open spec fn gate_of_verdict(verdict: Result<bool, HexError>) -> Result<(), GateError> {
    match verdict {
        Ok(true) => Ok(()),
        Ok(false) => Err(GateError::Rejected),
        Err(e) => Err(GateError::Undecodable(e)),
    }
}

/// Whether a request is let in: both headers are there, and the signature
/// is accepted for the timestamp and the body under the public key.
pub open spec fn gate_outcome(
    signature: Option<Seq<u8>>,
    timestamp: Option<Seq<u8>>,
    body: Seq<u8>,
    public_key: Seq<u8>,
) -> Result<(), GateError> {
    match (signature, timestamp) {
        (Some(signature), Some(timestamp)) => gate_of_verdict(
            key_verdict(body, signature, timestamp, public_key),
        ),
        _ => Err(GateError::MissingHeader),
    }
}

/// The step that an action asks for.
pub open spec fn step_of_action(action: ActionView, api_key: Seq<char>) -> StepView {
    match action {
        ActionView::Respond(response) => StepView::Reply(success_reply(response)),
        ActionView::FetchApod => StepView::FetchApod { url: apod_endpoint() + api_key },
    }
}

/// The step for the body of a request that was let in.
pub open spec fn step_of_body(body: Seq<u8>, api_key: Seq<char>) -> StepView {
    match envelope_of_body(body) {
        Ok(envelope) => step_of_action(action_for(envelope), api_key),
        Err(e) => StepView::Reply(error_reply(Failure::Decode(e))),
    }
}

/// The step for a request. The headers are looked at first, then the
/// secrets, then the signature; the body is read only once the signature
/// has been accepted.
pub open spec fn handler_step(
    signature: Option<Seq<u8>>,
    timestamp: Option<Seq<u8>>,
    body: Seq<u8>,
    public_key: Option<Seq<u8>>,
    api_key: Option<Seq<char>>,
) -> StepView {
    if signature is None || timestamp is None {
        StepView::Reply(unauthorized_reply())
    } else {
        match (public_key, api_key) {
            (Some(public_key), Some(api_key)) => match gate_outcome(
                signature,
                timestamp,
                body,
                public_key,
            ) {
                Ok(()) => step_of_body(body, api_key),
                Err(e) => StepView::Reply(failure_reply(Failure::Gate(e))),
            },
            _ => StepView::Reply(error_reply(Failure::SecretUnavailable)),
        }
    }
}

/// The answer to what the astronomy service gave back.
pub open spec fn fetch_reply(fetched: Option<Seq<u8>>) -> HttpReplyView {
    match reply_of_fetch(fetched) {
        Ok(response) => success_reply(response),
        Err(e) => error_reply(Failure::Handler(e)),
    }
}

impl Failure {
    /// The text that names the failure in a diagnostic body.
    pub fn name(&self) -> (name: &'static str)
        ensures
            name@ == failure_name(*self),
    {
        match self {
            Failure::Gate(GateError::MissingHeader) => "MissingHeader",
            Failure::Gate(GateError::Undecodable(HexError::OddLength)) => "OddLength",
            Failure::Gate(GateError::Undecodable(HexError::InvalidStringLength)) => {
                "InvalidStringLength"
            },
            Failure::Gate(GateError::Undecodable(HexError::InvalidHexCharacter { .. })) => {
                "InvalidHexCharacter"
            },
            Failure::Gate(GateError::Rejected) => "Rejected",
            Failure::SecretUnavailable => "SecretUnavailable",
            Failure::Decode(DecodeError::Malformed) => "Malformed",
            Failure::Decode(DecodeError::MissingKind) => "MissingKind",
            Failure::Decode(DecodeError::WrongShape) => "WrongShape",
            Failure::Handler(HandlerError::Transport) => "Transport",
            Failure::Handler(HandlerError::Malformed) => "Malformed",
            Failure::Handler(HandlerError::Incomplete) => "Incomplete",
            Failure::Handler(HandlerError::InvalidUrl) => "InvalidUrl",
        }
    }
}

impl HttpReply {
    /// The answer that carries a response.
    pub fn success(response: &Response) -> (reply: HttpReply)
        ensures
            reply@ == success_reply(response@),
    {
        HttpReply { status: 200, json: true, body: encode(response) }
    }

    /// The answer to a failure.
    pub fn failure(failure: Failure) -> (reply: HttpReply)
        ensures
            reply@ == failure_reply(failure),
    {
        match failure {
            Failure::Gate(GateError::MissingHeader) | Failure::Gate(GateError::Rejected) => {
                HttpReply {
                    status: 401,
                    json: false,
                    body: String::from_str("Invalid request signature"),
                }
            },
            _ => HttpReply {
                status: 500,
                json: false,
                body: String::from_str("An unknown error occured ").concat(failure.name()),
            },
        }
    }
}

/// A request whose signature was accepted: the body, the two headers, and
/// the key they were checked under. There is no other way to one than
/// `authenticate`.
pub struct VerifiedRequest<'a> {
    body: &'a [u8],
    signature: &'a [u8],
    timestamp: &'a [u8],
    public_key: &'a [u8],
}

impl<'a> VerifiedRequest<'a> {
    #[verifier::type_invariant]
    spec fn accepted(self) -> bool {
        key_verdict(self.body@, self.signature@, self.timestamp@, self.public_key@) == Ok::<
            bool,
            HexError,
        >(true)
    }

    /// The body of the request.
    pub closed spec fn body_bytes(self) -> Seq<u8> {
        self.body@
    }

    /// The signature header of the request.
    pub closed spec fn signature_bytes(self) -> Seq<u8> {
        self.signature@
    }

    /// The timestamp header of the request.
    pub closed spec fn timestamp_bytes(self) -> Seq<u8> {
        self.timestamp@
    }

    /// The public key that the request was checked under.
    pub closed spec fn public_key_bytes(self) -> Seq<u8> {
        self.public_key@
    }

    /// The body, of which the signature is known to be accepted.
    pub fn body(&self) -> (body: &'a [u8])
        ensures
            body@ == self.body_bytes(),
            key_verdict(
                self.body_bytes(),
                self.signature_bytes(),
                self.timestamp_bytes(),
                self.public_key_bytes(),
            ) == Ok::<bool, HexError>(true),
    {
        proof {
            use_type_invariant(self);
        }
        self.body
    }

    /// Reads the envelope that the body holds.
    pub fn envelope(&self) -> (r: Result<InteractionEnvelope, DecodeError>)
        ensures
            envelope_outcome(r) == envelope_of_body(self.body_bytes()),
            r is Ok ==> r->Ok_0@.well_formed(),
    {
        decode(self.body)
    }
}

/// Says what a verdict on a signature means for the request.
pub fn judge(verdict: Result<bool, HexError>) -> (r: Result<(), GateError>)
    ensures
        r == gate_of_verdict(verdict),
{
    match verdict {
        Ok(true) => Ok(()),
        Ok(false) => Err(GateError::Rejected),
        Err(e) => Err(GateError::Undecodable(e)),
    }
}

/// Whether a request was let in, and why not where it was not.
pub open spec fn admission(r: Result<VerifiedRequest, GateError>) -> Result<(), GateError> {
    match r {
        Ok(_) => Ok(()),
        Err(e) => Err(e),
    }
}

/// Lets a request in, or says why not. A request without one of its two
/// headers is refused before anything is computed.
pub fn authenticate<'a>(
    signature: Option<&'a [u8]>,
    timestamp: Option<&'a [u8]>,
    body: &'a [u8],
    public_key: &'a [u8],
) -> (r: Result<VerifiedRequest<'a>, GateError>)
    ensures
        admission(r) == gate_outcome(bytes_of(signature), bytes_of(timestamp), body@, public_key@),
        r is Ok ==> r->Ok_0.body_bytes() == body@,
        r is Ok ==> Some(r->Ok_0.signature_bytes()) == bytes_of(signature),
        r is Ok ==> Some(r->Ok_0.timestamp_bytes()) == bytes_of(timestamp),
        r is Ok ==> r->Ok_0.public_key_bytes() == public_key@,
{
    match (signature, timestamp) {
        (Some(signature), Some(timestamp)) => {
            match judge(verify_key(body, signature, timestamp, public_key)) {
                Ok(()) => Ok(VerifiedRequest { body, signature, timestamp, public_key }),
                Err(e) => Err(e),
            }
        },
        _ => Err(GateError::MissingHeader),
    }
}

/// Turns an action into the step that carries it out.
pub fn step_for(action: &Action, api_key: &str) -> (step: Step)
    ensures
        step@ == step_of_action(action@, api_key@),
{
    match action {
        Action::Respond(response) => Step::Reply(HttpReply::success(response)),
        Action::FetchApod => Step::FetchApod { url: apod_request_url(api_key) },
    }
}

/// Answers a request that was let in: its body is decoded and dispatched.
pub fn respond(verified: &VerifiedRequest, api_key: &str) -> (step: Step)
    ensures
        step@ == step_of_body(verified.body_bytes(), api_key@),
{
    match verified.envelope() {
        Ok(envelope) => step_for(&dispatch(&envelope), api_key),
        Err(e) => Step::Reply(HttpReply::failure(Failure::Decode(e))),
    }
}

/// Handles one request. `signature` and `timestamp` are the two signature
/// headers where the request has them, `public_key` and `api_key` the two
/// secrets where they could be had.
pub fn function_handler(
    signature: Option<&[u8]>,
    timestamp: Option<&[u8]>,
    body: &[u8],
    public_key: Option<&[u8]>,
    api_key: Option<&str>,
) -> (step: Step)
    ensures
        step@ == handler_step(
            bytes_of(signature),
            bytes_of(timestamp),
            body@,
            bytes_of(public_key),
            chars_of(api_key),
        ),
        signature is None || timestamp is None ==> step@ == StepView::Reply(unauthorized_reply()),
{
    if signature.is_none() || timestamp.is_none() {
        return Step::Reply(HttpReply::failure(Failure::Gate(GateError::MissingHeader)));
    }
    match (public_key, api_key) {
        (Some(public_key), Some(api_key)) => {
            match authenticate(signature, timestamp, body, public_key) {
                Ok(verified) => respond(&verified, api_key),
                Err(e) => Step::Reply(HttpReply::failure(Failure::Gate(e))),
            }
        },
        _ => Step::Reply(HttpReply::failure(Failure::SecretUnavailable)),
    }
}

/// Answers with what the astronomy service gave back; `None` stands for no
/// answer from it.
pub fn space_cmd_handler(fetched: Option<&[u8]>) -> (reply: HttpReply)
    ensures
        reply@ == fetch_reply(bytes_of(fetched)),
{
    match handle(fetched) {
        Ok(response) => HttpReply::success(&response),
        Err(e) => HttpReply::failure(Failure::Handler(e)),
    }
}

/// A request that is not let in is answered with the reply to the reason:
/// 401 and the fixed text where a header is absent or the signature is
/// rejected, 500 where the signature or the key cannot be decoded.
pub proof fn lemma_refusal_hides_the_body(
    signature: Option<Seq<u8>>,
    timestamp: Option<Seq<u8>>,
    body: Seq<u8>,
    public_key: Seq<u8>,
    api_key: Seq<char>,
)
    requires
        gate_outcome(signature, timestamp, body, public_key) is Err,
    ensures
        handler_step(signature, timestamp, body, Some(public_key), Some(api_key))
            == StepView::Reply(
            failure_reply(
                Failure::Gate(gate_outcome(signature, timestamp, body, public_key)->Err_0),
            ),
        ),
        gate_outcome(signature, timestamp, body, public_key) is Err && !(gate_outcome(
            signature,
            timestamp,
            body,
            public_key,
        )->Err_0 is Undecodable) ==> handler_step(
            signature,
            timestamp,
            body,
            Some(public_key),
            Some(api_key),
        ) == StepView::Reply(unauthorized_reply()),
{
}

/// A request that is let in and whose body is an envelope is never answered
/// with an error: the step is a reply of status 200, or the fetch of the
/// picture of the day.
pub proof fn lemma_envelope_is_answered(body: Seq<u8>, api_key: Seq<char>)
    requires
        envelope_of_body(body) is Ok,
    ensures
        (match step_of_body(body, api_key) {
            StepView::Reply(reply) => reply.status == 200 && reply.json,
            StepView::FetchApod { url } => url == apod_endpoint() + api_key,
        }),
{
}

/// A document whose member `type` is 1 is a ping and is acknowledged,
/// whatever else it holds.
pub proof fn lemma_ping_is_acknowledged(tree: JsonTree)
    requires
        kind_code_of(tree) == Some(1i64),
    ensures
        envelope_of_tree(tree) == Ok::<EnvelopeView, DecodeError>(
            EnvelopeView { kind: InteractionKind::Ping, command: None },
        ),
        action_for(envelope_of_tree(tree)->Ok_0) == ActionView::Respond(ResponseView::Ack),
{
}

/// An application command of a name that is no command's is acknowledged.
pub proof fn lemma_unknown_command_is_acknowledged(body: Seq<u8>, api_key: Seq<char>)
    requires
        ({
            &&& envelope_of_body(body) matches Ok(envelope)
            &&& envelope.kind == InteractionKind::ApplicationCommand
            &&& envelope.command matches Some(name)
            &&& command_named(name) is None
        }),
    ensures
        step_of_body(body, api_key) == StepView::Reply(success_reply(ResponseView::Ack)),
{
}

/// An interaction of any kind but an application command is acknowledged.
pub proof fn lemma_other_kinds_are_acknowledged(body: Seq<u8>, api_key: Seq<char>)
    requires
        ({
            &&& envelope_of_body(body) matches Ok(envelope)
            &&& envelope.kind != InteractionKind::ApplicationCommand
        }),
    ensures
        step_of_body(body, api_key) == StepView::Reply(success_reply(ResponseView::Ack)),
{
}

} // verus!
