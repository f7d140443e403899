//! The inbound event as the dispatch core sees it.
//!
//! An ingress channel delivers far more than the core ever looks at. These
//! types keep exactly what the decode, context and acknowledgement stages read:
//! the discriminator, the command payload and the two values that address a
//! reply.

use twilight_model::http::interaction::InteractionResponseData;
use twilight_model::id::marker::InteractionMarker;
use twilight_model::id::Id;
use vstd::prelude::*;

verus! {

/// Discriminator of an inbound interaction.
#[derive(Clone, Copy, Debug, PartialEq, Eq, Hash)]
pub enum InteractionType {
    Ping,
    ApplicationCommand,
    MessageComponent,
    ApplicationCommandAutocomplete,
    ModalSubmit,
}

/// Wire type of a command option.
#[derive(Clone, Copy, Debug, PartialEq, Eq, Hash)]
pub enum CommandOptionType {
    SubCommand,
    SubCommandGroup,
    String,
    Integer,
    Boolean,
    User,
    Channel,
    Role,
    Mentionable,
    Number,
    Attachment,
}

/// Value a user supplied for one option.
///
/// The identifiers among the values are carried as their integer value, and a
/// `Number` as the bit pattern of the double that was received. The options nested under a
/// subcommand are not carried: only the fact that one was sent.
#[derive(Clone, Debug, PartialEq, Eq)]
pub enum CommandOptionValue {
    Attachment(u64),
    Boolean(bool),
    Channel(u64),
    Focused(String, CommandOptionType),
    Integer(i64),
    Mentionable(u64),
    Number(u64),
    Role(u64),
    String(String),
    SubCommand,
    SubCommandGroup,
    User(u64),
}

/// One named option of a command payload.
#[derive(Clone, Debug, PartialEq, Eq)]
pub struct CommandDataOption {
    pub name: String,
    pub value: CommandOptionValue,
}

/// Payload of a command-shaped interaction.
#[derive(Clone, Debug, PartialEq, Eq)]
pub struct CommandData {
    /// Identifier under which the command is registered.
    pub id: u64,
    /// Name that the sender invoked.
    pub name: String,
    /// The options as they were sent, in the order in which they were sent.
    pub options: Vec<CommandDataOption>,
}

/// Payload of an interaction, by the kind of interaction it belongs to.
#[derive(Clone, Debug, PartialEq, Eq)]
pub enum InteractionData {
    /// A command and its options.
    ApplicationCommand(Box<CommandData>),
    /// A message component was used; its custom identifier.
    MessageComponent(String),
    /// A modal was submitted; its custom identifier.
    ModalSubmit(String),
}

/// An inbound event: discriminator, payload and reply address.
#[derive(Clone, Debug, PartialEq, Eq)]
pub struct Interaction {
    /// Identifier of the event; an acknowledgement names it.
    pub id: Id<InteractionMarker>,
    pub kind: InteractionType,
    pub data: Option<InteractionData>,
    /// Token that authorises an acknowledgement of this event.
    pub token: String,
}

/// How an acknowledgement is to be shown to the user who sent the event.
#[derive(Clone, Copy, Debug, PartialEq, Eq, Hash)]
pub enum InteractionResponseType {
    Pong,
    ChannelMessageWithSource,
    DeferredChannelMessageWithSource,
    DeferredUpdateMessage,
    UpdateMessage,
    ApplicationCommandAutocompleteResult,
    Modal,
}

/// One acknowledgement for the reply transport to deliver: the event it
/// answers, the token that authorises the answer, and the answer itself.
#[derive(Clone, Debug, PartialEq)]
pub struct Reply {
    pub interaction_id: Id<InteractionMarker>,
    pub token: String,
    pub kind: InteractionResponseType,
    pub data: Option<InteractionResponseData>,
}

impl CommandOptionValue {
    /// The wire type this value was sent as.
    pub open spec fn spec_kind(&self) -> CommandOptionType {
        match self {
            CommandOptionValue::Attachment(_) => CommandOptionType::Attachment,
            CommandOptionValue::Boolean(_) => CommandOptionType::Boolean,
            CommandOptionValue::Channel(_) => CommandOptionType::Channel,
            CommandOptionValue::Focused(_, kind) => *kind,
            CommandOptionValue::Integer(_) => CommandOptionType::Integer,
            CommandOptionValue::Mentionable(_) => CommandOptionType::Mentionable,
            CommandOptionValue::Number(_) => CommandOptionType::Number,
            CommandOptionValue::Role(_) => CommandOptionType::Role,
            CommandOptionValue::String(_) => CommandOptionType::String,
            CommandOptionValue::SubCommand => CommandOptionType::SubCommand,
            CommandOptionValue::SubCommandGroup => CommandOptionType::SubCommandGroup,
            CommandOptionValue::User(_) => CommandOptionType::User,
        }
    }

    #[verifier::when_used_as_spec(spec_kind)]
    pub fn kind(&self) -> (kind: CommandOptionType)
        ensures
            kind == self.spec_kind(),
    {
        match self {
            CommandOptionValue::Attachment(_) => CommandOptionType::Attachment,
            CommandOptionValue::Boolean(_) => CommandOptionType::Boolean,
            CommandOptionValue::Channel(_) => CommandOptionType::Channel,
            CommandOptionValue::Focused(_, kind) => *kind,
            CommandOptionValue::Integer(_) => CommandOptionType::Integer,
            CommandOptionValue::Mentionable(_) => CommandOptionType::Mentionable,
            CommandOptionValue::Number(_) => CommandOptionType::Number,
            CommandOptionValue::Role(_) => CommandOptionType::Role,
            CommandOptionValue::String(_) => CommandOptionType::String,
            CommandOptionValue::SubCommand => CommandOptionType::SubCommand,
            CommandOptionValue::SubCommandGroup => CommandOptionType::SubCommandGroup,
            CommandOptionValue::User(_) => CommandOptionType::User,
        }
    }
}

impl Interaction {
    /// Whether the discriminator marks a command-shaped event.
    pub open spec fn spec_is_command(&self) -> bool {
        self.kind == InteractionType::ApplicationCommand
    }

    #[verifier::when_used_as_spec(spec_is_command)]
    pub fn is_command(&self) -> (r: bool)
        ensures
            r == self.spec_is_command(),
    {
        match self.kind {
            InteractionType::ApplicationCommand => true,
            _ => false,
        }
    }
}

} // verus!
