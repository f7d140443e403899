//! The privileged command that shuts the process down.

use crate::commands::command_a::{expect_no_options, no_options};
use crate::context::{failures, CommandContext};
use crate::framework::{CommandHandler, FromCommandData, FromCommandDataError};
use crate::interaction::{CommandData, Reply};
use crate::trusted::{build_text_response, text_response};
use twilight_gateway::error::ChannelError;
use twilight_http::Error as TwilightError;
use vstd::prelude::*;

verus! {

/// The `shutdown` command.
#[derive(Clone, Copy, Debug, PartialEq, Eq)]
pub struct Command;

/// Why a shutdown command failed. Failing to close channels and failing to
/// acknowledge are kept apart.
#[derive(Debug)]
pub enum Error {
    /// One or more channels did not take the close signal; shutdown may be
    /// incomplete.
    Channel(Vec<ChannelError>),
    /// The acknowledgement could not be delivered.
    Reply(TwilightError),
}

impl Command {
    /// The name under which the command is registered.
    pub open spec fn spec_name() -> Seq<char> {
        "shutdown"@
    }

    pub fn name() -> (name: &'static str)
        ensures
            name@ == Self::spec_name(),
    {
        "shutdown"
    }

    /// The text the command answers with.
    pub open spec fn spec_notice() -> Seq<char> {
        "Shutdown initiated."@
    }

    pub fn notice() -> (text: &'static str)
        ensures
            text@ == Self::spec_notice(),
    {
        "Shutdown initiated."
    }

    /// The first step of the command, given what the coordinator answered:
    /// its failures as they are, or else the acknowledgement.
    pub open spec fn spec_after_shutdown(
        context: CommandContext,
        closed: Result<(), Vec<ChannelError>>,
    ) -> Result<Reply, Error> {
        match closed {
            Ok(_) => Ok(context.spec_reply(text_response(Self::spec_notice()))),
            Err(errors) => Err(Error::Channel(errors)),
        }
    }

    #[verifier::when_used_as_spec(spec_after_shutdown)]
    pub fn after_shutdown(context: CommandContext, closed: Result<(), Vec<ChannelError>>) -> (outcome:
        Result<Reply, Error>)
        ensures
            outcome == Self::spec_after_shutdown(context, closed),
    {
        match closed {
            Ok(_) => Ok(context.reply(build_text_response(Command::notice().to_owned()))),
            Err(errors) => Err(Error::Channel(errors)),
        }
    }
}

impl FromCommandData for Command {
    open spec fn decodes(command_data: CommandData, decoded: Result<Self, FromCommandDataError>) -> bool {
        match no_options(command_data.options@) {
            None => decoded == Ok::<Self, FromCommandDataError>(Command),
            Some(error) => decoded == Err::<Self, FromCommandDataError>(
                FromCommandDataError::Parse(command_data.name, error),
            ),
        }
    }

    fn from_command_data(command_data: Box<CommandData>) -> (decoded: Result<
        Self,
        FromCommandDataError,
    >) {
        let data = *command_data;
        match expect_no_options(&data.options) {
            Ok(_) => Ok(Command),
            Err(error) => Err(FromCommandDataError::Parse(data.name, error)),
        }
    }
}

impl CommandHandler for Command {
    type Context = CommandContext;

    type Response = ();

    type Error = Error;

    /// The first step invokes the coordinator. It ends in the
    /// acknowledgement, or in the failures of one full round over the
    /// channels, of which there is then at least one; never in a reply
    /// failure, since nothing has been sent yet.
    open spec fn handles(&self, context: CommandContext, outcome: Result<Reply, Error>) -> bool {
        match outcome {
            Ok(reply) => reply == context.spec_reply(text_response(Command::spec_notice())),
            Err(Error::Channel(errors)) => errors@.len() > 0 && exists|
                attempts: Seq<Result<(), ChannelError>>,
            |
                #![trigger failures(attempts)]
                attempts.len() == context.state.senders@.len() && errors@ == failures(attempts),
            Err(Error::Reply(_)) => false,
        }
    }

    open spec fn settled(self, sent: Result<(), TwilightError>) -> Result<(), Error> {
        match sent {
            Ok(_) => Ok(()),
            Err(error) => Err(Error::Reply(error)),
        }
    }

    fn handle(&self, context: CommandContext) -> (outcome: Result<Reply, Error>) {
        let closed = context.state.send_shutdown();
        Command::after_shutdown(context, closed)
    }

    fn acknowledged(self, sent: Result<(), TwilightError>) -> (outcome: Result<(), Error>) {
        match sent {
            Ok(_) => Ok(()),
            Err(error) => Err(Error::Reply(error)),
        }
    }
}

} // verus!
