//! A command without options that answers with a fixed greeting.

use crate::context::CommandContext;
use crate::framework::{
    CommandHandler, FromCommandData, FromCommandDataError, ParseError, ParseErrorKind,
};
use crate::interaction::{CommandData, CommandDataOption, Reply};
use crate::trusted::{build_text_response, text_response};
use twilight_http::Error as TwilightError;
use vstd::prelude::*;

verus! {

/// The `test-command` command.
#[derive(Clone, Copy, Debug, PartialEq, Eq)]
pub struct Command;

pub type Error = TwilightError;

/// What validating the options of a command without options comes to:
/// nothing to object to, or the first option, which the schema does not know.
pub open spec fn no_options(options: Seq<CommandDataOption>) -> Option<ParseError> {
    if options.len() == 0 {
        None
    } else {
        Some(ParseError { field: options[0].name, kind: ParseErrorKind::UnknownField })
    }
}

/// Validates the options of a command whose schema has none.
pub fn expect_no_options(options: &Vec<CommandDataOption>) -> (r: Result<(), ParseError>)
    ensures
        match r {
            Ok(_) => no_options(options@) is None,
            Err(error) => no_options(options@) == Some(error),
        },
{
    if options.len() == 0 {
        Ok(())
    } else {
        Err(ParseError { field: options[0].name.clone(), kind: ParseErrorKind::UnknownField })
    }
}

impl Command {
    /// The name under which the command is registered.
    pub open spec fn spec_name() -> Seq<char> {
        "test-command"@
    }

    pub fn name() -> (name: &'static str)
        ensures
            name@ == Self::spec_name(),
    {
        "test-command"
    }

    /// The text the command answers with.
    pub open spec fn spec_greeting() -> Seq<char> {
        "HIIIII OMG HAII UWU UWU"@
    }

    pub fn greeting() -> (text: &'static str)
        ensures
            text@ == Self::spec_greeting(),
    {
        "HIIIII OMG HAII UWU UWU"
    }
}

impl FromCommandData for Command {
    open spec fn decodes(command_data: CommandData, decoded: Result<Self, FromCommandDataError>) -> bool {
        match no_options(command_data.options@) {
            None => decoded == Ok::<Self, FromCommandDataError>(Command),
            Some(error) => decoded == Err::<Self, FromCommandDataError>(
                FromCommandDataError::Parse(command_data.name, error),
            ),
        }
    }

    fn from_command_data(command_data: Box<CommandData>) -> (decoded: Result<
        Self,
        FromCommandDataError,
    >) {
        let data = *command_data;
        match expect_no_options(&data.options) {
            Ok(_) => Ok(Command),
            Err(error) => Err(FromCommandDataError::Parse(data.name, error)),
        }
    }
}

impl CommandHandler for Command {
    type Context = CommandContext;

    type Response = ();

    type Error = TwilightError;

    /// The first step always succeeds, with the greeting as acknowledgement.
    open spec fn handles(&self, context: CommandContext, outcome: Result<Reply, TwilightError>) -> bool {
        outcome == Ok::<Reply, TwilightError>(
            context.spec_reply(text_response(Command::spec_greeting())),
        )
    }

    open spec fn settled(self, sent: Result<(), TwilightError>) -> Result<(), TwilightError> {
        sent
    }

    fn handle(&self, context: CommandContext) -> (outcome: Result<Reply, TwilightError>) {
        Ok(context.reply(build_text_response(Command::greeting().to_owned())))
    }

    fn acknowledged(self, sent: Result<(), TwilightError>) -> (outcome: Result<(), TwilightError>) {
        sent
    }
}

} // verus!
