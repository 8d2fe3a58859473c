//! From an interaction to what answers it.

use vstd::prelude::*;
use crate::interaction::{EnvelopeView, InteractionEnvelope, InteractionKind};
use crate::response::{Response, ResponseView};

verus! {

/// The commands that this endpoint knows.
#[derive(Debug, Clone, Copy, PartialEq, Eq, Structural)]
pub enum Command {
    /// `foo`, answered with the text `bar`.
    Foo,
    /// `space`, answered with the astronomy picture of the day.
    Space,
}

/// What is to be done for an interaction.
#[derive(Debug, Clone, PartialEq, Eq)]
pub enum Action {
    /// Answer at once with this response.
    Respond(Response),
    /// Fetch the astronomy picture of the day, and answer with it.
    FetchApod,
}

/// An action as a mathematical value.
pub enum ActionView {
    Respond(ResponseView),
    FetchApod,
}

impl View for Action {
    type V = ActionView;

    open spec fn view(&self) -> ActionView {
        match self {
            Action::Respond(response) => ActionView::Respond(response@),
            Action::FetchApod => ActionView::FetchApod,
        }
    }
}

/// The command of the name `name`, by exact match.
pub open spec fn command_named(name: Seq<char>) -> Option<Command> {
    if name == "foo"@ {
        Some(Command::Foo)
    } else if name == "space"@ {
        Some(Command::Space)
    } else {
        None
    }
}

/// What a command is answered with.
pub open spec fn command_action(command: Command) -> ActionView {
    match command {
        Command::Foo => ActionView::Respond(ResponseView::TextReply { content: "bar"@ }),
        Command::Space => ActionView::FetchApod,
    }
}

/// What an interaction is answered with: a known command by its own action,
/// everything else by a bare acknowledgement.
pub open spec fn action_for(envelope: EnvelopeView) -> ActionView {
    match (envelope.kind, envelope.command) {
        (InteractionKind::ApplicationCommand, Some(name)) => match command_named(name) {
            Some(command) => command_action(command),
            None => ActionView::Respond(ResponseView::Ack),
        },
        _ => ActionView::Respond(ResponseView::Ack),
    }
}

impl Command {
    /// Looks a command up by its name.
    pub fn named(name: &String) -> (r: Option<Command>)
        ensures
            r == command_named(name@),
    {
        if *name == String::from_str("foo") {
            Some(Command::Foo)
        } else if *name == String::from_str("space") {
            Some(Command::Space)
        } else {
            None
        }
    }

    /// What the command is answered with.
    pub fn action(self) -> (action: Action)
        ensures
            action@ == command_action(self),
    {
        match self {
            Command::Foo => Action::Respond(
                Response::TextReply { content: String::from_str("bar") },
            ),
            Command::Space => Action::FetchApod,
        }
    }
}

/// Decides what answers an interaction. Every envelope has an answer.
pub fn dispatch(envelope: &InteractionEnvelope) -> (action: Action)
    ensures
        action@ == action_for(envelope@),
        envelope.kind != InteractionKind::ApplicationCommand ==> action@ == ActionView::Respond(
            ResponseView::Ack,
        ),
        envelope@.command is Some && command_named(envelope@.command->Some_0) is None ==> action@
            == ActionView::Respond(ResponseView::Ack),
{
    match envelope.kind {
        InteractionKind::ApplicationCommand => match &envelope.data {
            Some(data) => match Command::named(&data.name) {
                Some(command) => command.action(),
                None => Action::Respond(Response::Ack),
            },
            None => Action::Respond(Response::Ack),
        },
        _ => Action::Respond(Response::Ack),
    }
}

} // verus!
