//! The dispatch pipeline: decode, build context, handle.
//!
//! The pipeline itself never touches the reply transport. A handler answers
//! with the acknowledgement it wants delivered; whoever drives the pipeline
//! delivers it and reports back, and the pipeline then settles the outcome.

use crate::interaction::{CommandData, CommandOptionType, Interaction, InteractionData, Reply};
use std::marker::PhantomData;
use twilight_http::Error as TwilightError;
use vstd::prelude::*;

verus! {

/// Why a dispatched event did not succeed.
#[derive(Clone, Debug, PartialEq)]
pub enum Error<CommandError> {
    /// No command could be made of the event; no handler ran.
    FromInteraction(CommandFromInteractionError),
    /// The command's own handler failed.
    Command(CommandError),
}

/// Why no command could be made of an event. Each case keeps the event.
#[derive(Clone, Debug, PartialEq)]
pub enum CommandFromInteractionError {
    /// The discriminator does not mark a command-shaped event.
    NotACommand(Interaction),
    /// The discriminator marks a command, but the payload is missing or
    /// belongs to another kind of event.
    NoCommandData(Interaction, Option<InteractionData>),
    /// The payload was there, and the catalog could not make a command of it.
    FromCommandData(Interaction, FromCommandDataError),
}

/// Why the catalog could not make a command of a payload.
#[derive(Clone, Debug, PartialEq)]
pub enum FromCommandDataError {
    /// The name is not in the catalog. The payload is kept as it came.
    UnknownCommand(Box<CommandData>),
    /// The options do not fit the schema of the command of that name.
    Parse(String, ParseError),
}

/// The option at which validation of a payload stopped, and why.
#[derive(Clone, Debug, PartialEq)]
pub struct ParseError {
    pub field: String,
    pub kind: ParseErrorKind,
}

/// What is wrong with an option.
#[derive(Clone, Copy, Debug, PartialEq, Eq)]
pub enum ParseErrorKind {
    /// The option has a value of another type than the schema asks for.
    InvalidType(CommandOptionType),
    /// The schema requires the option and the payload does not have it.
    RequiredField,
    /// The schema has no option of that name.
    UnknownField,
}

/// The event with its payload taken out.
pub open spec fn stripped(interaction: Interaction) -> Interaction {
    Interaction {
        id: interaction.id,
        kind: interaction.kind,
        data: None,
        token: interaction.token,
    }
}

/// What the first look at an event yields: the command payload, or the reason
/// there is none.
pub open spec fn command_data_of(interaction: Interaction) -> Result<
    CommandData,
    CommandFromInteractionError,
> {
    if !interaction.spec_is_command() {
        Err(CommandFromInteractionError::NotACommand(interaction))
    } else {
        match interaction.data {
            Some(InteractionData::ApplicationCommand(data)) => Ok(*data),
            other => Err(CommandFromInteractionError::NoCommandData(stripped(interaction), other)),
        }
    }
}

/// Separates the command payload from the rest of the event.
pub fn take_command_data(interaction: Interaction) -> (taken: Result<
    (Box<CommandData>, Interaction),
    CommandFromInteractionError,
>)
    ensures
        match taken {
            Ok((data, rest)) => command_data_of(interaction) == Ok::<
                CommandData,
                CommandFromInteractionError,
            >(*data) && rest == stripped(interaction),
            Err(error) => command_data_of(interaction) == Err::<
                CommandData,
                CommandFromInteractionError,
            >(error),
        },
{
    if !interaction.is_command() {
        return Err(CommandFromInteractionError::NotACommand(interaction));
    }
    let Interaction { id, kind, data, token } = interaction;
    let rest = Interaction { id, kind, data: None, token };
    match data {
        Some(InteractionData::ApplicationCommand(command_data)) => Ok((command_data, rest)),
        other => Err(CommandFromInteractionError::NoCommandData(rest, other)),
    }
}

/// A catalog of commands that can be decoded from a command payload.
pub trait FromCommandData: Sized {
    /// Whether `decoded` is what the catalog makes of `command_data`.
    spec fn decodes(command_data: CommandData, decoded: Result<Self, FromCommandDataError>) -> bool;

    fn from_command_data(command_data: Box<CommandData>) -> (decoded: Result<
        Self,
        FromCommandDataError,
    >)
        ensures
            Self::decodes(*command_data, decoded),
    ;
}

/// Builds the per-invocation context of a handler. Cannot fail.
pub trait CommandContextFactory: Sized {
    type CommandContext;

    /// The context this factory builds for `interaction`.
    spec fn context(self, interaction: Interaction) -> Self::CommandContext;

    fn create_context(self, interaction: Interaction) -> (context: Self::CommandContext)
        ensures
            context == self.context(interaction),
    ;
}

/// The business logic of a command, in two steps around the one
/// acknowledgement it sends: first what to acknowledge with, then, once the
/// transport has reported on the delivery, what the invocation came to.
pub trait CommandHandler: Sized {
    type Context;

    type Response;

    type Error;

    /// Whether `outcome` is an admissible first step of this command in
    /// `context`.
    spec fn handles(&self, context: Self::Context, outcome: Result<Reply, Self::Error>) -> bool;

    /// What the invocation comes to when the delivery of its acknowledgement
    /// ended in `sent`.
    spec fn settled(self, sent: Result<(), TwilightError>) -> Result<Self::Response, Self::Error>;

    /// First step: the acknowledgement to deliver, or the failure that ends
    /// the invocation before anything is sent.
    fn handle(&self, context: Self::Context) -> (outcome: Result<Reply, Self::Error>)
        ensures
            self.handles(context, outcome),
    ;

    /// Second step: the outcome, given how the delivery went.
    fn acknowledged(self, sent: Result<(), TwilightError>) -> (outcome: Result<
        Self::Response,
        Self::Error,
    >)
        ensures
            outcome == self.settled(sent),
    ;
}

/// An invocation whose handler has answered and whose acknowledgement is yet
/// to be delivered.
#[derive(Clone, Debug, PartialEq)]
pub struct Handled<TCommand> {
    pub command: TCommand,
    pub reply: Reply,
}

impl<TCommand: CommandHandler> Handled<TCommand> {
    /// The outcome of the invocation when the delivery ended in `sent`.
    pub open spec fn completed(self, sent: Result<(), TwilightError>) -> Result<
        TCommand::Response,
        Error<TCommand::Error>,
    > {
        match self.command.settled(sent) {
            Ok(response) => Ok(response),
            Err(error) => Err(Error::Command(error)),
        }
    }

    /// Settles the invocation once the transport has reported on the
    /// acknowledgement.
    pub fn complete(self, sent: Result<(), TwilightError>) -> (outcome: Result<
        TCommand::Response,
        Error<TCommand::Error>,
    >)
        ensures
            outcome == self.completed(sent),
    {
        match self.command.acknowledged(sent) {
            Ok(response) => Ok(response),
            Err(error) => Err(Error::Command(error)),
        }
    }
}

/// Whether `decoded` is what a catalog makes of an event: the first failure
/// on the way from event to command, or the command and the event without its
/// payload.
pub open spec fn decodes_to<TCommand: FromCommandData>(
    interaction: Interaction,
    decoded: Result<(TCommand, Interaction), CommandFromInteractionError>,
) -> bool {
    match command_data_of(interaction) {
        Err(error) => decoded == Err::<(TCommand, Interaction), CommandFromInteractionError>(error),
        Ok(data) => match decoded {
            Ok((command, rest)) => rest == stripped(interaction) && TCommand::decodes(
                data,
                Ok(command),
            ),
            Err(CommandFromInteractionError::FromCommandData(rest, error)) => rest == stripped(
                interaction,
            ) && TCommand::decodes(data, Err(error)),
            Err(_) => false,
        },
    }
}

/// The codec: turns an event into a command of the catalog, or says why not.
pub fn decode<TCommand: FromCommandData>(interaction: Interaction) -> (decoded: Result<
    (TCommand, Interaction),
    CommandFromInteractionError,
>)
    ensures
        decodes_to(interaction, decoded),
{
    match take_command_data(interaction) {
        Err(error) => Err(error),
        Ok((command_data, rest)) => match TCommand::from_command_data(command_data) {
            Ok(command) => Ok((command, rest)),
            Err(error) => Err(CommandFromInteractionError::FromCommandData(rest, error)),
        },
    }
}

/// A command that can be run straight from an event.
pub trait CommandRunner<TContextFactory>: Sized {
    type Response;

    type CommandError;

    /// Whether `outcome` is an admissible result of running the pipeline on
    /// `interaction`.
    spec fn runs(
        context_factory: TContextFactory,
        interaction: Interaction,
        outcome: Result<Handled<Self>, Error<Self::CommandError>>,
    ) -> bool;

    /// Decodes the event, builds the context and takes the handler's first
    /// step.
    fn run(context_factory: TContextFactory, interaction: Interaction) -> (outcome: Result<
        Handled<Self>,
        Error<Self::CommandError>,
    >)
        ensures
            Self::runs(context_factory, interaction, outcome),
    ;
}

impl<TCommand, TContextFactory> CommandRunner<TContextFactory> for TCommand where
    TCommand: CommandHandler + FromCommandData,
    TContextFactory: CommandContextFactory<CommandContext = TCommand::Context>,
 {
    type Response = TCommand::Response;

    type CommandError = <TCommand as CommandHandler>::Error;

    open spec fn runs(
        context_factory: TContextFactory,
        interaction: Interaction,
        outcome: Result<Handled<Self>, Error<Self::CommandError>>,
    ) -> bool {
        match command_data_of(interaction) {
            Err(error) => outcome == Err::<Handled<Self>, Error<Self::CommandError>>(
                Error::FromInteraction(error),
            ),
            Ok(data) => match outcome {
                Err(Error::FromInteraction(error)) => decodes_to::<TCommand>(
                    interaction,
                    Err(error),
                ),
                Err(Error::Command(error)) => exists|command: TCommand|
                    #![trigger TCommand::decodes(data, Ok(command))]
                    TCommand::decodes(data, Ok(command)) && command.handles(
                        context_factory.context(stripped(interaction)),
                        Err(error),
                    ),
                Ok(handled) => TCommand::decodes(data, Ok(handled.command))
                    && handled.command.handles(
                    context_factory.context(stripped(interaction)),
                    Ok(handled.reply),
                ),
            },
        }
    }

    fn run(context_factory: TContextFactory, interaction: Interaction) -> (outcome: Result<
        Handled<Self>,
        Error<Self::CommandError>,
    >) {
        let (command, rest) = match decode::<TCommand>(interaction) {
            Ok(decoded) => decoded,
            Err(error) => {
                return Err(Error::FromInteraction(error));
            },
        };
        let context = context_factory.create_context(rest);
        match command.handle(context) {
            Ok(reply) => Ok(Handled { command, reply }),
            Err(error) => Err(Error::Command(error)),
        }
    }
}

/// Answer to "may I submit one unit of work now?".
#[derive(Clone, Copy, Debug, PartialEq, Eq)]
pub enum Admission<E> {
    /// Work may be submitted.
    Ready,
    /// Not yet; ask again.
    Pending,
    /// The service has failed and will take no more work.
    Failed(E),
}

/// A readiness-gated callable: ask [`poll_ready`](Service::poll_ready), and
/// submit one request with [`call`](Service::call) once it answers
/// [`Admission::Ready`].
pub trait Service<Request> {
    type Response;

    type Error;

    /// Whether `response` is an admissible answer of this service to
    /// `request`.
    spec fn answers(&self, request: Request, response: Result<Self::Response, Self::Error>) -> bool;

    /// Whether `admission` is an admissible answer of this service to the
    /// question whether it takes work now.
    spec fn admits(&self, admission: Admission<Self::Error>) -> bool;

    /// The sole admission-control point.
    fn poll_ready(&mut self) -> (admission: Admission<Self::Error>)
        ensures
            old(self).admits(admission),
    ;

    fn call(&mut self, request: Request) -> (response: Result<Self::Response, Self::Error>)
        ensures
            old(self).answers(request, response),
    ;
}

/// Runs a decoded command against a context that is already built.
pub struct CommandService<TCommand>(pub PhantomData<TCommand>);

impl<TCommand> CommandService<TCommand> {
    pub fn new() -> (service: Self)
        ensures
            service == CommandService::<TCommand>(PhantomData),
    {
        CommandService(PhantomData)
    }
}

impl<TCommand> Clone for CommandService<TCommand> {
    fn clone(&self) -> (copy: Self)
        ensures
            copy == *self,
    {
        CommandService(PhantomData)
    }
}

impl<TCommand> Copy for CommandService<TCommand> {

}

impl<TCommand> Default for CommandService<TCommand> {
    fn default() -> (service: Self)
        ensures
            service == CommandService::<TCommand>(PhantomData),
    {
        CommandService(PhantomData)
    }
}

impl<TCommand, TContext> Service<(TCommand, TContext)> for CommandService<TCommand> where
    TCommand: CommandHandler<Context = TContext>,
 {
    type Response = Handled<TCommand>;

    type Error = TCommand::Error;

    open spec fn answers(
        &self,
        request: (TCommand, TContext),
        response: Result<Self::Response, Self::Error>,
    ) -> bool {
        match response {
            Ok(handled) => handled.command == request.0 && request.0.handles(
                request.1,
                Ok(handled.reply),
            ),
            Err(error) => request.0.handles(request.1, Err(error)),
        }
    }

    /// Always ready: the default policy admits everything.
    open spec fn admits(&self, admission: Admission<Self::Error>) -> bool {
        admission is Ready
    }

    fn poll_ready(&mut self) -> (admission: Admission<Self::Error>)
        ensures
            *final(self) == *old(self),
    {
        Admission::Ready
    }

    fn call(&mut self, request: (TCommand, TContext)) -> (response: Result<
        Self::Response,
        Self::Error,
    >)
        ensures
            *final(self) == *old(self),
    {
        let (command, context) = request;
        match command.handle(context) {
            Ok(reply) => Ok(Handled { command, reply }),
            Err(error) => Err(error),
        }
    }
}

/// Runs the whole pipeline on an event: decode, build context, handle.
pub struct ExecutableCommandService<TCommand>(pub PhantomData<TCommand>);

impl<TCommand> ExecutableCommandService<TCommand> {
    pub fn new() -> (service: Self)
        ensures
            service == ExecutableCommandService::<TCommand>(PhantomData),
    {
        ExecutableCommandService(PhantomData)
    }
}

impl<TCommand> Clone for ExecutableCommandService<TCommand> {
    fn clone(&self) -> (copy: Self)
        ensures
            copy == *self,
    {
        ExecutableCommandService(PhantomData)
    }
}

impl<TCommand> Copy for ExecutableCommandService<TCommand> {

}

impl<TCommand> Default for ExecutableCommandService<TCommand> {
    fn default() -> (service: Self)
        ensures
            service == ExecutableCommandService::<TCommand>(PhantomData),
    {
        ExecutableCommandService(PhantomData)
    }
}

impl<TCommand, TContextFactory> Service<
    (TContextFactory, Interaction),
> for ExecutableCommandService<TCommand> where TCommand: CommandRunner<TContextFactory> {
    type Response = Handled<TCommand>;

    type Error = Error<TCommand::CommandError>;

    open spec fn answers(
        &self,
        request: (TContextFactory, Interaction),
        response: Result<Self::Response, Self::Error>,
    ) -> bool {
        TCommand::runs(request.0, request.1, response)
    }

    /// Always ready: the default policy admits everything.
    open spec fn admits(&self, admission: Admission<Self::Error>) -> bool {
        admission is Ready
    }

    fn poll_ready(&mut self) -> (admission: Admission<Self::Error>)
        ensures
            *final(self) == *old(self),
    {
        Admission::Ready
    }

    fn call(&mut self, request: (TContextFactory, Interaction)) -> (response: Result<
        Self::Response,
        Self::Error,
    >)
        ensures
            *final(self) == *old(self),
    {
        let (context_factory, interaction) = request;
        TCommand::run(context_factory, interaction)
    }
}

/// How loudly a failed dispatch is to be reported.
#[derive(Clone, Copy, Debug, PartialEq, Eq)]
pub enum Severity {
    /// Expected in normal operation.
    Low,
    /// Something is wrong with the event or with the handler.
    High,
}

impl<CommandError> Error<CommandError> {
    /// Events that are no commands and commands that the catalog does not
    /// have are expected; a malformed payload or a failed handler is not.
    pub open spec fn spec_severity(&self) -> Severity {
        match self {
            Error::FromInteraction(CommandFromInteractionError::NotACommand(_)) => Severity::Low,
            Error::FromInteraction(
                CommandFromInteractionError::FromCommandData(
                    _,
                    FromCommandDataError::UnknownCommand(_),
                ),
            ) => Severity::Low,
            _ => Severity::High,
        }
    }

    #[verifier::when_used_as_spec(spec_severity)]
    pub fn severity(&self) -> (severity: Severity)
        ensures
            severity == self.spec_severity(),
    {
        match self {
            Error::FromInteraction(CommandFromInteractionError::NotACommand(_)) => Severity::Low,
            Error::FromInteraction(
                CommandFromInteractionError::FromCommandData(
                    _,
                    FromCommandDataError::UnknownCommand(_),
                ),
            ) => Severity::Low,
            _ => Severity::High,
        }
    }
}

/// An event whose discriminator is not command-shaped decodes to
/// `NotACommand`, with the event as it came, whatever the catalog.
pub proof fn lemma_not_a_command_is_rejected<TCommand: FromCommandData>(
    interaction: Interaction,
    decoded: Result<(TCommand, Interaction), CommandFromInteractionError>,
)
    requires
        !interaction.spec_is_command(),
        decodes_to(interaction, decoded),
    ensures
        decoded == Err::<(TCommand, Interaction), CommandFromInteractionError>(
            CommandFromInteractionError::NotACommand(interaction),
        ),
{
}

/// The pipeline ends at an event whose discriminator is not command-shaped
/// before any handler is involved: the outcome is the decode failure, and it
/// depends on neither the context factory nor the catalog's handlers.
pub proof fn lemma_not_a_command_reaches_no_handler<TCommand, TContextFactory>(
    context_factory: TContextFactory,
    interaction: Interaction,
    outcome: Result<Handled<TCommand>, Error<<TCommand as CommandHandler>::Error>>,
) where
    TCommand: CommandHandler + FromCommandData,
    TContextFactory: CommandContextFactory<CommandContext = TCommand::Context>,

    requires
        !interaction.spec_is_command(),
        <TCommand as CommandRunner<TContextFactory>>::runs(context_factory, interaction, outcome),
    ensures
        outcome == Err::<Handled<TCommand>, Error<<TCommand as CommandHandler>::Error>>(
            Error::FromInteraction(CommandFromInteractionError::NotACommand(interaction)),
        ),
        outcome->Err_0.spec_severity() == Severity::Low,
{
}

} // verus!
