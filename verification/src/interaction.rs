//! What the chat platform sends and what it is sent back, reduced to the
//! values that the game reads and writes.

use crate::db::StoreError;
use vstd::prelude::*;

verus! {

/// The kind of control that a component event comes from.
#[derive(Clone, Copy, Debug, PartialEq, Eq, Structural)]
pub enum ComponentKind {
    Button,
    Other,
}

/// The place of a message: its channel and its own identifier.
#[derive(Clone, Copy, Debug, PartialEq, Eq, Structural)]
pub struct MessageRef {
    pub channel_id: u64,
    pub message_id: u64,
}

/// An inbound event.
#[derive(Debug, PartialEq, Eq)]
pub enum Interaction {
    /// The platform asks whether the service is alive.
    Ping,
    /// A user invoked a command.
    Command { name: String, user_id: u64, guild_id: Option<u64> },
    /// A user activated a control under a message.
    Component {
        custom_id: String,
        kind: ComponentKind,
        user_id: u64,
        guild_id: Option<u64>,
        message: MessageRef,
        message_content: String,
    },
    /// Any other event.
    Other,
}

/// What an `Interaction` stands for.
pub enum InteractionView {
    Ping,
    Command { name: Seq<char>, user_id: u64, guild_id: Option<u64> },
    Component {
        custom_id: Seq<char>,
        kind: ComponentKind,
        user_id: u64,
        guild_id: Option<u64>,
        message: MessageRef,
        message_content: Seq<char>,
    },
    Other,
}

impl View for Interaction {
    type V = InteractionView;

    open spec fn view(&self) -> InteractionView {
        match *self {
            Interaction::Ping => InteractionView::Ping,
            Interaction::Command { name, user_id, guild_id } => InteractionView::Command {
                name: name@,
                user_id,
                guild_id,
            },
            Interaction::Component {
                custom_id,
                kind,
                user_id,
                guild_id,
                message,
                message_content,
            } => InteractionView::Component {
                custom_id: custom_id@,
                kind,
                user_id,
                guild_id,
                message,
                message_content: message_content@,
            },
            Interaction::Other => InteractionView::Other,
        }
    }
}

/// The platform's number for the style of a button that stands out.
pub const PRIMARY: u8 = 1;

/// A button under a message. `style` is the platform's number for its look.
#[derive(Debug, PartialEq, Eq)]
pub struct Button {
    pub custom_id: String,
    pub label: String,
    pub style: u8,
    pub disabled: bool,
}

/// What a `Button` stands for.
pub struct ButtonView {
    pub custom_id: Seq<char>,
    pub label: Seq<char>,
    pub style: u8,
    pub disabled: bool,
}

impl View for Button {
    type V = ButtonView;

    open spec fn view(&self) -> ButtonView {
        ButtonView {
            custom_id: self.custom_id@,
            label: self.label@,
            style: self.style,
            disabled: self.disabled,
        }
    }
}

/// The answer to an event.
#[derive(Debug, PartialEq, Eq)]
pub enum Response {
    /// The answer to a ping.
    Pong,
    /// A message, shown to the actor alone if `ephemeral`.
    Message { content: String, ephemeral: bool, button: Option<Button> },
}

/// What a `Response` stands for.
pub enum ResponseView {
    Pong,
    Message { content: Seq<char>, ephemeral: bool, button: Option<ButtonView> },
}

/// The view of a button that may be absent.
pub open spec fn button_view(button: Option<Button>) -> Option<ButtonView> {
    match button {
        Some(b) => Some(b@),
        None => None,
    }
}

impl View for Response {
    type V = ResponseView;

    open spec fn view(&self) -> ResponseView {
        match *self {
            Response::Pong => ResponseView::Pong,
            Response::Message { content, ephemeral, button } => ResponseView::Message {
                content: content@,
                ephemeral,
                button: button_view(button),
            },
        }
    }
}

/// A change to the message that carried the control.
#[derive(Debug, PartialEq, Eq)]
pub struct MessageEdit {
    pub message: MessageRef,
    pub content: String,
    pub button: Button,
}

/// What a `MessageEdit` stands for.
pub struct MessageEditView {
    pub message: MessageRef,
    pub content: Seq<char>,
    pub button: ButtonView,
}

impl View for MessageEdit {
    type V = MessageEditView;

    open spec fn view(&self) -> MessageEditView {
        MessageEditView { message: self.message, content: self.content@, button: self.button@ }
    }
}

/// What a handler leaves to be done: at most one answer, and before it at
/// most one change to the message that carried the control.
#[derive(Debug, PartialEq, Eq)]
pub struct Reply {
    pub response: Option<Response>,
    pub edit: Option<MessageEdit>,
}

/// What a `Reply` stands for.
pub struct ReplyView {
    pub response: Option<ResponseView>,
    pub edit: Option<MessageEditView>,
}

impl View for Reply {
    type V = ReplyView;

    open spec fn view(&self) -> ReplyView {
        ReplyView {
            response: match self.response {
                Some(r) => Some(r@),
                None => None,
            },
            edit: match self.edit {
                Some(e) => Some(e@),
                None => None,
            },
        }
    }
}

/// What the platform is told of a command when it is registered.
#[derive(Debug, PartialEq, Eq)]
pub struct CommandInfo {
    pub name: String,
    pub description: String,
}

/// Why a handler gave no reply of its own.
#[derive(Clone, Copy, Debug, PartialEq, Eq, Structural)]
pub enum HandlerError {
    /// The store failed.
    Store(StoreError),
    /// The store holds a sign that the catalog does not define.
    UnknownSign,
    /// The attempt would move the user's power out of the range of powers.
    PowerOutOfRange,
    /// No handler is registered for the event.
    NotFound,
}

/// The view of what a handler returns.
pub open spec fn outcome_view(outcome: Result<Reply, HandlerError>) -> Result<ReplyView, HandlerError> {
    match outcome {
        Ok(reply) => Ok(reply@),
        Err(e) => Err(e),
    }
}

/// A message as the platform is to show it.
pub open spec fn message(content: Seq<char>, ephemeral: bool, button: Option<ButtonView>) -> ReplyView {
    ReplyView {
        response: Some(ResponseView::Message { content, ephemeral, button }),
        edit: None,
    }
}

impl Reply {
    /// A reply that is one message and no edit.
    pub fn message(content: String, ephemeral: bool, button: Option<Button>) -> (reply: Reply)
        ensures
            reply@ == message(content@, ephemeral, button_view(button)),
    {
        Reply { response: Some(Response::Message { content, ephemeral, button }), edit: None }
    }
}

} // verus!
