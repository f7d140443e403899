//! The command catalog: a closed set of commands, decoded by name and
//! dispatched by exhaustive matching.

pub mod command_a;
pub mod command_b;
pub mod shutdown;

use crate::context::CommandContext;
use crate::framework::{
    decodes_to, stripped, CommandFromInteractionError, CommandHandler, FromCommandData,
    FromCommandDataError,
};
use crate::interaction::{CommandData, Interaction, InteractionData, Reply};
use twilight_http::Error as TwilightError;
use vstd::prelude::*;

verus! {

/// A decoded command of the catalog.
#[derive(Clone, Debug, PartialEq, Eq)]
pub enum Commands {
    A(command_a::Command),
    B(command_b::Command),
    Shutdown(shutdown::Command),
}

/// The failure of a command's handler, tagged by the command.
#[derive(Debug)]
pub enum CommandError {
    A(command_a::Error),
    B(command_b::Error),
    Shutdown(shutdown::Error),
}

/// Whether the catalog has a command of that name.
pub open spec fn is_supported(name: Seq<char>) -> bool {
    ||| name == command_a::Command::spec_name()
    ||| name == command_b::Command::spec_name()
    ||| name == shutdown::Command::spec_name()
}

impl FromCommandData for Commands {
    /// The name picks the command, and the command's own schema decides the
    /// rest. A name that the catalog does not have gives the payload back.
    open spec fn decodes(command_data: CommandData, decoded: Result<Self, FromCommandDataError>) -> bool {
        if command_data.name@ == command_a::Command::spec_name() {
            match decoded {
                Ok(Commands::A(command)) => command_a::Command::decodes(command_data, Ok(command)),
                Ok(_) => false,
                Err(error) => command_a::Command::decodes(command_data, Err(error)),
            }
        } else if command_data.name@ == command_b::Command::spec_name() {
            match decoded {
                Ok(Commands::B(command)) => command_b::Command::decodes(command_data, Ok(command)),
                Ok(_) => false,
                Err(error) => command_b::Command::decodes(command_data, Err(error)),
            }
        } else if command_data.name@ == shutdown::Command::spec_name() {
            match decoded {
                Ok(Commands::Shutdown(command)) => shutdown::Command::decodes(
                    command_data,
                    Ok(command),
                ),
                Ok(_) => false,
                Err(error) => shutdown::Command::decodes(command_data, Err(error)),
            }
        } else {
            decoded == Err::<Self, FromCommandDataError>(
                FromCommandDataError::UnknownCommand(Box::new(command_data)),
            )
        }
    }

    fn from_command_data(command_data: Box<CommandData>) -> (decoded: Result<
        Self,
        FromCommandDataError,
    >) {
        if command_data.name == command_a::Command::name().to_owned() {
            match command_a::Command::from_command_data(command_data) {
                Ok(command) => Ok(Commands::A(command)),
                Err(error) => Err(error),
            }
        } else if command_data.name == command_b::Command::name().to_owned() {
            match command_b::Command::from_command_data(command_data) {
                Ok(command) => Ok(Commands::B(command)),
                Err(error) => Err(error),
            }
        } else if command_data.name == shutdown::Command::name().to_owned() {
            match shutdown::Command::from_command_data(command_data) {
                Ok(command) => Ok(Commands::Shutdown(command)),
                Err(error) => Err(error),
            }
        } else {
            Err(FromCommandDataError::UnknownCommand(command_data))
        }
    }
}

impl CommandHandler for Commands {
    type Context = CommandContext;

    type Response = ();

    type Error = CommandError;

    /// What the command's own handler admits, with a failure tagged by the
    /// command.
    open spec fn handles(&self, context: CommandContext, outcome: Result<Reply, CommandError>) -> bool {
        match *self {
            Commands::A(command) => match outcome {
                Ok(reply) => command.handles(context, Ok(reply)),
                Err(CommandError::A(error)) => command.handles(context, Err(error)),
                Err(_) => false,
            },
            Commands::B(command) => match outcome {
                Ok(reply) => command.handles(context, Ok(reply)),
                Err(CommandError::B(error)) => command.handles(context, Err(error)),
                Err(_) => false,
            },
            Commands::Shutdown(command) => match outcome {
                Ok(reply) => command.handles(context, Ok(reply)),
                Err(CommandError::Shutdown(error)) => command.handles(context, Err(error)),
                Err(_) => false,
            },
        }
    }

    open spec fn settled(self, sent: Result<(), TwilightError>) -> Result<(), CommandError> {
        match self {
            Commands::A(command) => match command.settled(sent) {
                Ok(response) => Ok(response),
                Err(error) => Err(CommandError::A(error)),
            },
            Commands::B(command) => match command.settled(sent) {
                Ok(response) => Ok(response),
                Err(error) => Err(CommandError::B(error)),
            },
            Commands::Shutdown(command) => match command.settled(sent) {
                Ok(response) => Ok(response),
                Err(error) => Err(CommandError::Shutdown(error)),
            },
        }
    }

    fn handle(&self, context: CommandContext) -> (outcome: Result<Reply, CommandError>) {
        match self {
            Commands::A(command) => match command.handle(context) {
                Ok(reply) => Ok(reply),
                Err(error) => Err(CommandError::A(error)),
            },
            Commands::B(command) => match command.handle(context) {
                Ok(reply) => Ok(reply),
                Err(error) => Err(CommandError::B(error)),
            },
            Commands::Shutdown(command) => match command.handle(context) {
                Ok(reply) => Ok(reply),
                Err(error) => Err(CommandError::Shutdown(error)),
            },
        }
    }

    fn acknowledged(self, sent: Result<(), TwilightError>) -> (outcome: Result<(), CommandError>) {
        match self {
            Commands::A(command) => match command.acknowledged(sent) {
                Ok(response) => Ok(response),
                Err(error) => Err(CommandError::A(error)),
            },
            Commands::B(command) => match command.acknowledged(sent) {
                Ok(response) => Ok(response),
                Err(error) => Err(CommandError::B(error)),
            },
            Commands::Shutdown(command) => match command.acknowledged(sent) {
                Ok(response) => Ok(response),
                Err(error) => Err(CommandError::Shutdown(error)),
            },
        }
    }
}

/// Whether the payload is what a well-behaved sender sends under its name:
/// no options for the commands that take none, and for `test-command-2` one
/// or more `message` strings.
pub open spec fn well_formed(command_data: CommandData) -> bool {
    if command_data.name@ == command_b::Command::spec_name() {
        command_b::well_formed(command_data.options@)
    } else {
        command_data.options@.len() == 0
    }
}

/// The command that a well-formed payload of a supported name stands for.
pub open spec fn command_of(command_data: CommandData) -> Commands {
    if command_data.name@ == command_a::Command::spec_name() {
        Commands::A(command_a::Command)
    } else if command_data.name@ == command_b::Command::spec_name() {
        Commands::B(
            command_b::Command { message: command_data.options@.last().value->String_0 },
        )
    } else {
        Commands::Shutdown(shutdown::Command)
    }
}

/// No two commands of the catalog share a name.
pub proof fn lemma_names_are_distinct()
    ensures
        command_a::Command::spec_name() != command_b::Command::spec_name(),
        command_a::Command::spec_name() != shutdown::Command::spec_name(),
        command_b::Command::spec_name() != shutdown::Command::spec_name(),
{
    reveal_strlit("test-command");
    reveal_strlit("test-command-2");
    reveal_strlit("shutdown");
    assert(command_a::Command::spec_name().len() == 12);
    assert(command_b::Command::spec_name().len() == 14);
    assert(shutdown::Command::spec_name().len() == 8);
}

/// A well-formed payload of a supported name decodes to the command of that
/// name, and to nothing else.
pub proof fn lemma_supported_name_decodes(
    command_data: CommandData,
    decoded: Result<Commands, FromCommandDataError>,
)
    requires
        is_supported(command_data.name@),
        well_formed(command_data),
        Commands::decodes(command_data, decoded),
    ensures
        decoded == Ok::<Commands, FromCommandDataError>(command_of(command_data)),
        command_data.name@ == command_a::Command::spec_name() <==> decoded->Ok_0 is A,
        command_data.name@ == command_b::Command::spec_name() <==> decoded->Ok_0 is B,
        command_data.name@ == shutdown::Command::spec_name() <==> decoded->Ok_0 is Shutdown,
{
    lemma_names_are_distinct();
    if command_data.name@ == command_b::Command::spec_name() {
        command_b::lemma_well_formed_parses(command_data.options@);
    }
}

/// A payload whose name the catalog does not have decodes to
/// `UnknownCommand`, and the error holds the payload as it came.
pub proof fn lemma_unknown_name_keeps_payload(
    command_data: CommandData,
    decoded: Result<Commands, FromCommandDataError>,
)
    requires
        !is_supported(command_data.name@),
        Commands::decodes(command_data, decoded),
    ensures
        decoded == Err::<Commands, FromCommandDataError>(
            FromCommandDataError::UnknownCommand(Box::new(command_data)),
        ),
{
}

/// The same two laws for whole events: a command-shaped event with a
/// well-formed payload of a supported name decodes to the command of that
/// name, and one of an unknown name fails with the payload kept. Either way
/// the event itself is handed on without its payload.
pub proof fn lemma_event_decodes(
    interaction: Interaction,
    decoded: Result<(Commands, Interaction), CommandFromInteractionError>,
)
    requires
        interaction.spec_is_command(),
        interaction.data matches Some(InteractionData::ApplicationCommand(data)) && (is_supported(
            data.name@,
        ) ==> well_formed(*data)),
        decodes_to(interaction, decoded),
    ensures
        interaction.data matches Some(InteractionData::ApplicationCommand(data)) && (if is_supported(
            data.name@,
        ) {
            decoded == Ok::<(Commands, Interaction), CommandFromInteractionError>(
                (command_of(*data), stripped(interaction)),
            )
        } else {
            decoded == Err::<(Commands, Interaction), CommandFromInteractionError>(
                CommandFromInteractionError::FromCommandData(
                    stripped(interaction),
                    FromCommandDataError::UnknownCommand(data),
                ),
            )
        }),
{
    let data = interaction.data->Some_0->ApplicationCommand_0;
    if is_supported(data.name@) {
        match decoded {
            Ok((command, _)) => lemma_supported_name_decodes(*data, Ok(command)),
            Err(CommandFromInteractionError::FromCommandData(_, error)) => {
                lemma_supported_name_decodes(*data, Err(error));
            },
            Err(_) => {},
        }
    } else {
        match decoded {
            Ok((command, _)) => lemma_unknown_name_keeps_payload(*data, Ok(command)),
            Err(CommandFromInteractionError::FromCommandData(_, error)) => {
                lemma_unknown_name_keeps_payload(*data, Err(error));
            },
            Err(_) => {},
        }
    }
}

} // verus!
