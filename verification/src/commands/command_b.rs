//! A command that answers with the message it was given.

use crate::context::CommandContext;
use crate::framework::{
    CommandHandler, FromCommandData, FromCommandDataError, ParseError, ParseErrorKind,
};
use crate::interaction::{CommandData, CommandDataOption, CommandOptionValue, Reply};
use crate::trusted::{build_text_response, text_response};
use twilight_http::Error as TwilightError;
use vstd::prelude::*;

verus! {

/// The `test-command-2` command.
#[derive(Clone, Debug, PartialEq, Eq)]
pub struct Command {
    /// The message to send.
    pub message: String,
}

pub type Error = TwilightError;

/// Name of the one option of the schema.
pub open spec fn message_field() -> Seq<char> {
    "message"@
}

/// What is wrong with one option, if anything: the schema knows only
/// `message`, and wants a string for it.
pub open spec fn objection(option: CommandDataOption) -> Option<(Seq<char>, ParseErrorKind)> {
    if option.name@ != message_field() {
        Some((option.name@, ParseErrorKind::UnknownField))
    } else {
        match option.value {
            CommandOptionValue::String(_) => None,
            other => Some((message_field(), ParseErrorKind::InvalidType(other.spec_kind()))),
        }
    }
}

/// What reading the options from left to right comes to: the field and kind
/// of the first objection; without any, the text of the last `message`; and
/// without that, the objection that `message` is required.
pub open spec fn message_of(options: Seq<CommandDataOption>) -> Result<
    String,
    (Seq<char>, ParseErrorKind),
>
    decreases options.len(),
{
    if options.len() == 0 {
        Err((message_field(), ParseErrorKind::RequiredField))
    } else {
        match message_of(options.drop_last()) {
            Err((field, kind)) if kind != ParseErrorKind::RequiredField => Err((field, kind)),
            _ => match objection(options.last()) {
                Some(found) => Err(found),
                None => Ok(options.last().value->String_0),
            },
        }
    }
}

/// Whether `parsed` says of a payload's options what [`message_of`] says.
pub open spec fn parses_to(options: Seq<CommandDataOption>, parsed: Result<String, ParseError>) -> bool {
    match message_of(options) {
        Ok(message) => parsed == Ok::<String, ParseError>(message),
        Err((field, kind)) => parsed matches Err(error) && error.field@ == field && error.kind
            == kind,
    }
}

/// Validates the options of a payload against the schema and takes the
/// message out.
pub fn parse_message(options: Vec<CommandDataOption>) -> (parsed: Result<String, ParseError>)
    ensures
        parses_to(options@, parsed),
{
    let mut message: Option<String> = None;
    let ghost all = options@;
    let expected = "message".to_owned();
    for option in it: options
        invariant
            it.seq() == all,
            expected@ == message_field(),
            match message {
                Some(text) => message_of(all.take(it.index())) == Ok::<
                    String,
                    (Seq<char>, ParseErrorKind),
                >(text),
                None => message_of(all.take(it.index())) == Err::<
                    String,
                    (Seq<char>, ParseErrorKind),
                >((message_field(), ParseErrorKind::RequiredField)),
            },
    {
        proof {
            let done = all.take(it.index() + 1);
            assert(done.drop_last() == all.take(it.index()));
            assert(done.last() == option);
        }
        if option.name != expected {
            proof {
                lemma_objection_is_final(all, it.index() + 1);
            }
            return Err(ParseError { field: option.name, kind: ParseErrorKind::UnknownField });
        }
        match option.value {
            CommandOptionValue::String(text) => {
                message = Some(text);
            },
            other => {
                proof {
                    lemma_objection_is_final(all, it.index() + 1);
                }
                return Err(
                    ParseError {
                        field: expected,
                        kind: ParseErrorKind::InvalidType(other.kind()),
                    },
                );
            },
        }
    }
    proof {
        assert(all.take(all.len() as int) == all);
    }
    match message {
        Some(text) => Ok(text),
        None => Err(ParseError { field: expected, kind: ParseErrorKind::RequiredField }),
    }
}

/// Once reading has stopped at an objection, the options that follow change
/// nothing.
pub proof fn lemma_objection_is_final(options: Seq<CommandDataOption>, stop: int)
    requires
        0 <= stop <= options.len(),
        message_of(options.take(stop)) matches Err((_, kind)) && kind
            != ParseErrorKind::RequiredField,
    ensures
        message_of(options) == message_of(options.take(stop)),
    decreases options.len() - stop,
{
    if stop == options.len() {
        assert(options.take(stop) == options);
    } else {
        let next = options.take(stop + 1);
        assert(next.drop_last() == options.take(stop));
        lemma_objection_is_final(options, stop + 1);
    }
}

/// Whether the options fit the schema: `message` is there at least once, as a
/// string, and nothing else is.
pub open spec fn well_formed(options: Seq<CommandDataOption>) -> bool {
    options.len() > 0 && forall|i: int| 0 <= i < options.len() ==> objection(#[trigger] options[i]) is None
}

/// Options that fit the schema parse to the text of the last `message`.
pub proof fn lemma_well_formed_parses(options: Seq<CommandDataOption>)
    requires
        well_formed(options),
    ensures
        message_of(options) == Ok::<String, (Seq<char>, ParseErrorKind)>(
            options.last().value->String_0,
        ),
    decreases options.len(),
{
    if options.len() > 1 {
        let before = options.drop_last();
        assert forall|i: int| 0 <= i < before.len() implies objection(#[trigger] before[i]) is None by {
            assert(before[i] == options[i]);
        }
        lemma_well_formed_parses(before);
    } else {
        assert(message_of(options.drop_last()) == Err::<String, (Seq<char>, ParseErrorKind)>(
            (message_field(), ParseErrorKind::RequiredField),
        ));
    }
    assert(objection(options[options.len() - 1]) is None);
    assert(options.last().value is String);
}

/// The first option that the schema objects to decides the outcome, whatever
/// stands before or after it.
pub proof fn lemma_first_objection_decides(options: Seq<CommandDataOption>, first: int)
    requires
        0 <= first < options.len(),
        objection(options[first]) is Some,
        forall|i: int| 0 <= i < first ==> objection(#[trigger] options[i]) is None,
    ensures
        message_of(options) == Err::<String, (Seq<char>, ParseErrorKind)>(
            objection(options[first])->Some_0,
        ),
{
    let upto = options.take(first + 1);
    let before = upto.drop_last();
    assert(before == options.take(first));
    assert(upto.last() == options[first]);
    if first > 0 {
        assert forall|i: int| 0 <= i < before.len() implies objection(#[trigger] before[i]) is None by {
            assert(before[i] == options[i]);
        }
        lemma_well_formed_parses(before);
    }
    lemma_objection_is_final(options, first + 1);
}

impl Command {
    /// The name under which the command is registered.
    pub open spec fn spec_name() -> Seq<char> {
        "test-command-2"@
    }

    pub fn name() -> (name: &'static str)
        ensures
            name@ == Self::spec_name(),
    {
        "test-command-2"
    }
}

impl FromCommandData for Command {
    open spec fn decodes(command_data: CommandData, decoded: Result<Self, FromCommandDataError>) -> bool {
        match decoded {
            Ok(command) => parses_to(command_data.options@, Ok(command.message)),
            Err(FromCommandDataError::Parse(name, error)) => name == command_data.name
                && parses_to(command_data.options@, Err(error)),
            Err(_) => false,
        }
    }

    fn from_command_data(command_data: Box<CommandData>) -> (decoded: Result<
        Self,
        FromCommandDataError,
    >) {
        let data = *command_data;
        match parse_message(data.options) {
            Ok(message) => Ok(Command { message }),
            Err(error) => Err(FromCommandDataError::Parse(data.name, error)),
        }
    }
}

impl CommandHandler for Command {
    type Context = CommandContext;

    type Response = ();

    type Error = TwilightError;

    /// The first step always succeeds, with the message as acknowledgement.
    open spec fn handles(&self, context: CommandContext, outcome: Result<Reply, TwilightError>) -> bool {
        outcome == Ok::<Reply, TwilightError>(context.spec_reply(text_response(self.message@)))
    }

    open spec fn settled(self, sent: Result<(), TwilightError>) -> Result<(), TwilightError> {
        sent
    }

    fn handle(&self, context: CommandContext) -> (outcome: Result<Reply, TwilightError>) {
        Ok(context.reply(build_text_response(self.message.clone())))
    }

    fn acknowledged(self, sent: Result<(), TwilightError>) -> (outcome: Result<(), TwilightError>) {
        sent
    }
}

} // verus!
