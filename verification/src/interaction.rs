//! The interaction envelope and its decoder.

use vstd::prelude::*;
use crate::json::{
    json_reading, json_tree, value_as_i64, value_as_str, value_get, Document, JsonTree,
};
use crate::options::chars_of_string;

verus! {

/// What kind of event an interaction is.
#[derive(Debug, Clone, Copy, PartialEq, Eq, Structural)]
pub enum InteractionKind {
    Ping,
    ApplicationCommand,
    MessageComponent,
    Autocomplete,
    ModalSubmit,
    /// A kind that the gateway sent and this library has no name for.
    Unknown,
}

/// The command that an application-command interaction invokes.
#[derive(Debug, Clone, PartialEq, Eq)]
pub struct CommandData {
    pub name: String,
}

/// One interaction: its kind, and the command where the kind is
/// `ApplicationCommand`.
#[derive(Debug, Clone, PartialEq, Eq)]
pub struct InteractionEnvelope {
    pub kind: InteractionKind,
    pub data: Option<CommandData>,
}

/// An envelope as a mathematical value.
pub struct EnvelopeView {
    pub kind: InteractionKind,
    pub command: Option<Seq<char>>,
}

impl View for InteractionEnvelope {
    type V = EnvelopeView;

    open spec fn view(&self) -> EnvelopeView {
        EnvelopeView {
            kind: self.kind,
            command: match self.data {
                Some(data) => Some(data.name@),
                None => None,
            },
        }
    }
}

impl EnvelopeView {
    /// An envelope names a command exactly when it is an application command.
    pub open spec fn well_formed(self) -> bool {
        self.command is Some <==> self.kind == InteractionKind::ApplicationCommand
    }
}

/// Why a body is no interaction envelope.
#[derive(Debug, Clone, Copy, PartialEq, Eq, Structural)]
pub enum DecodeError {
    /// The body is not JSON text.
    Malformed,
    /// The document has no member `type` that a signed 64-bit integer holds.
    MissingKind,
    /// The document has a kind, and not the members that this kind requires.
    WrongShape,
}

/// The kind that the number `code` stands for on the wire.
pub open spec fn kind_of_code(code: i64) -> InteractionKind {
    if code == 1 {
        InteractionKind::Ping
    } else if code == 2 {
        InteractionKind::ApplicationCommand
    } else if code == 3 {
        InteractionKind::MessageComponent
    } else if code == 4 {
        InteractionKind::Autocomplete
    } else if code == 5 {
        InteractionKind::ModalSubmit
    } else {
        InteractionKind::Unknown
    }
}

impl InteractionKind {
    /// The kind that the number `code` stands for; every number has one.
    pub fn from_code(code: i64) -> (kind: InteractionKind)
        ensures
            kind == kind_of_code(code),
    {
        if code == 1 {
            InteractionKind::Ping
        } else if code == 2 {
            InteractionKind::ApplicationCommand
        } else if code == 3 {
            InteractionKind::MessageComponent
        } else if code == 4 {
            InteractionKind::Autocomplete
        } else if code == 5 {
            InteractionKind::ModalSubmit
        } else {
            InteractionKind::Unknown
        }
    }
}

/// The number under the member `type` of `tree`.
pub open spec fn kind_code_of(tree: JsonTree) -> Option<i64> {
    match tree.field("type"@) {
        Some(code) => code.as_i64(),
        None => None,
    }
}

/// The string under the member `name` of the member `data` of `tree`.
pub open spec fn command_name_of(tree: JsonTree) -> Option<Seq<char>> {
    match tree.field("data"@) {
        Some(data) => match data.field("name"@) {
            Some(name) => name.as_text(),
            None => None,
        },
        None => None,
    }
}

/// The envelope that a JSON tree holds. Only an application command needs,
/// and keeps, a command name; what else the tree holds is ignored.
pub open spec fn envelope_of_tree(tree: JsonTree) -> Result<EnvelopeView, DecodeError> {
    match kind_code_of(tree) {
        None => Err(DecodeError::MissingKind),
        Some(code) => {
            let kind = kind_of_code(code);
            if kind == InteractionKind::ApplicationCommand {
                match command_name_of(tree) {
                    Some(name) => Ok(EnvelopeView { kind, command: Some(name) }),
                    None => Err(DecodeError::WrongShape),
                }
            } else {
                Ok(EnvelopeView { kind, command: None })
            }
        },
    }
}

/// The envelope that a request body holds.
pub open spec fn envelope_of_body(body: Seq<u8>) -> Result<EnvelopeView, DecodeError> {
    match json_reading(body) {
        None => Err(DecodeError::Malformed),
        Some(tree) => envelope_of_tree(tree),
    }
}

/// A decoder's outcome, the envelope taken by its view.
pub open spec fn envelope_outcome(result: Result<InteractionEnvelope, DecodeError>) -> Result<
    EnvelopeView,
    DecodeError,
> {
    match result {
        Ok(envelope) => Ok(envelope@),
        Err(e) => Err(e),
    }
}

fn command_name(value: &serde_json::Value) -> (r: Option<String>)
    ensures
        chars_of_string(r) == command_name_of(json_tree(*value)),
{
    match value_get(value, "data") {
        Some(data) => match value_get(data, "name") {
            Some(name) => match value_as_str(name) {
                Some(text) => Some(String::from_str(text)),
                None => None,
            },
            None => None,
        },
        None => None,
    }
}

pub(crate) fn envelope_from_value(value: &serde_json::Value) -> (r: Result<
    InteractionEnvelope,
    DecodeError,
>)
    ensures
        envelope_outcome(r) == envelope_of_tree(json_tree(*value)),
{
    let code = match value_get(value, "type") {
        Some(code) => match value_as_i64(code) {
            Some(code) => code,
            None => { return Err(DecodeError::MissingKind); },
        },
        None => { return Err(DecodeError::MissingKind); },
    };
    let kind = InteractionKind::from_code(code);
    match kind {
        InteractionKind::ApplicationCommand => match command_name(value) {
            Some(name) => Ok(InteractionEnvelope { kind, data: Some(CommandData { name }) }),
            None => Err(DecodeError::WrongShape),
        },
        _ => Ok(InteractionEnvelope { kind, data: None }),
    }
}

/// Reads the envelope that a parsed document holds.
pub fn decode_document(document: &Document) -> (r: Result<InteractionEnvelope, DecodeError>)
    ensures
        envelope_outcome(r) == envelope_of_tree(document@),
        r is Ok ==> r->Ok_0@.well_formed(),
{
    envelope_from_value(document.value())
}

/// Reads the envelope that a request body holds.
pub fn decode(body: &[u8]) -> (r: Result<InteractionEnvelope, DecodeError>)
    ensures
        envelope_outcome(r) == envelope_of_body(body@),
        r is Ok ==> r->Ok_0@.well_formed(),
{
    match Document::parse(body) {
        Some(document) => decode_document(&document),
        None => Err(DecodeError::Malformed),
    }
}

} // verus!
