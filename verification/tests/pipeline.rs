use std::collections::BTreeMap;
use std::sync::atomic::AtomicBool;
use std::sync::Arc;
use tetra::commands::command_a;
use tetra::commands::command_b;
use tetra::commands::shutdown;
use tetra::commands::{CommandError, Commands};
use tetra::context::{CommandContext, ContextFactory, State};
use tetra::framework::{
    Admission, CommandContextFactory, CommandFromInteractionError, CommandHandler, CommandRunner,
    CommandService, Error, ExecutableCommandService, FromCommandDataError, Handled, Service,
    Severity,
};
use tetra::interaction::{
    CommandData, CommandDataOption, CommandOptionValue, Interaction, InteractionData,
    InteractionResponseType, InteractionType, Reply,
};
use tetra::util::state_service::StateLayer;
use tetra::util::OmitDebug;
use tokio::runtime::Runtime;
use twilight_gateway::{Intents, Shard, ShardId};
use twilight_http::request::Request;
use twilight_http::routing::Route;
use twilight_http::Client;
use twilight_model::id::Id;

fn runtime() -> Runtime {
    tokio::runtime::Builder::new_current_thread().build().unwrap()
}

fn shards(count: u32) -> Vec<Shard> {
    (0..count)
        .map(|number| Shard::new(ShardId::new(number, count), "token".to_owned(), Intents::empty()))
        .collect()
}

fn state_over(shards: &[Shard]) -> Arc<State> {
    Arc::new(State {
        client: Client::new("token".to_owned()),
        senders: shards.iter().map(Shard::sender).collect(),
        app_id: Id::new(1),
        shutdown: AtomicBool::new(false),
    })
}

fn event(name: &str, options: Vec<CommandDataOption>) -> Interaction {
    Interaction {
        id: Id::new(42),
        kind: InteractionType::ApplicationCommand,
        data: Some(InteractionData::ApplicationCommand(Box::new(CommandData {
            id: 7,
            name: name.to_owned(),
            options,
        }))),
        token: "reply-token".to_owned(),
    }
}

fn message(text: &str) -> Vec<CommandDataOption> {
    vec![CommandDataOption {
        name: "message".to_owned(),
        value: CommandOptionValue::String(text.to_owned()),
    }]
}

fn transport_error() -> twilight_http::Error {
    let mut unserializable = BTreeMap::new();
    unserializable.insert((1u8, 2u8), 3u8);
    Request::builder(&Route::GetGateway).json(&unserializable).build().unwrap_err()
}

fn content_of(reply: &Reply) -> Option<&str> {
    reply.data.as_ref().and_then(|data| data.content.as_deref())
}

fn assert_addressed_to_the_event(reply: &Reply) {
    assert_eq!(reply.interaction_id, Id::new(42));
    assert_eq!(reply.token, "reply-token");
    assert_eq!(reply.kind, InteractionResponseType::ChannelMessageWithSource);
    let data = reply.data.as_ref().unwrap();
    assert!(data.allowed_mentions.is_none());
    assert!(data.attachments.is_none());
    assert!(data.choices.is_none());
    assert!(data.components.is_none());
    assert!(data.custom_id.is_none());
    assert!(data.embeds.is_none());
    assert!(data.flags.is_none());
    assert!(data.title.is_none());
    assert!(data.tts.is_none());
}

#[test]
fn echo_command_acknowledges_once_with_its_message() {
    let state = state_over(&[]);
    let handled =
        Commands::run(ContextFactory::new(state.clone()), event("test-command-2", message("M")))
            .unwrap();

    assert_eq!(handled.command, Commands::B(command_b::Command { message: "M".to_owned() }));
    assert_addressed_to_the_event(&handled.reply);
    assert_eq!(content_of(&handled.reply), Some("M"));
    assert!(!state.is_shutting_down());
    assert!(handled.complete(Ok(())).is_ok());
}

#[test]
fn acknowledgement_is_not_the_text_handed_back() {
    let state = state_over(&[]);
    let text = "a longer message, with \"quotes\" and ünïcödé";
    let handled = Commands::run(ContextFactory::new(state), event("test-command-2", message(text)))
        .unwrap();
    let data = handled.reply.data.unwrap();
    assert_eq!(data.content.as_deref(), Some(text));
    assert_eq!(data, twilight_model::http::interaction::InteractionResponseData {
        content: Some(text.to_owned()),
        ..Default::default()
    });
}

#[test]
fn greeting_command_acknowledges_with_the_greeting() {
    let state = state_over(&[]);
    let handled =
        Commands::run(ContextFactory::new(state), event("test-command", vec![])).unwrap();

    assert_eq!(handled.command, Commands::A(command_a::Command));
    assert_addressed_to_the_event(&handled.reply);
    assert_eq!(content_of(&handled.reply), Some("HIIIII OMG HAII UWU UWU"));
    assert_eq!(command_a::Command::greeting(), "HIIIII OMG HAII UWU UWU");
    assert!(handled.complete(Ok(())).is_ok());
}

#[test]
fn unknown_command_fails_to_decode_and_acknowledges_nothing() {
    let state = state_over(&[]);
    let unknown = event("foo", vec![]);
    let outcome = Commands::run(ContextFactory::new(state.clone()), unknown.clone());

    match outcome {
        Err(Error::FromInteraction(CommandFromInteractionError::FromCommandData(
            rest,
            FromCommandDataError::UnknownCommand(data),
        ))) => {
            assert_eq!(data.name, "foo");
            assert_eq!(Some(InteractionData::ApplicationCommand(data)), unknown.data);
            assert_eq!(rest.id, Id::new(42));
            assert_eq!(rest.token, "reply-token");
            assert_eq!(rest.data, None);
        }
        other => panic!("unexpected outcome: {:?}", other),
    }
    assert!(!state.is_shutting_down());
}

#[test]
fn malformed_command_acknowledges_nothing() {
    let state = state_over(&[]);
    let outcome = Commands::run(ContextFactory::new(state), event("test-command-2", vec![]));
    match outcome {
        Err(Error::FromInteraction(CommandFromInteractionError::FromCommandData(
            _,
            FromCommandDataError::Parse(name, detail),
        ))) => {
            assert_eq!(name, "test-command-2");
            assert_eq!(detail.field, "message");
            assert_eq!(detail.kind, tetra::framework::ParseErrorKind::RequiredField);
        }
        other => panic!("unexpected outcome: {:?}", other),
    }
}

#[test]
fn event_that_is_no_command_reaches_no_handler() {
    let runtime = runtime();
    let _guard = runtime.enter();
    let shards = shards(1);
    let state = state_over(&shards);
    let mut ping = event("shutdown", vec![]);
    ping.kind = InteractionType::Ping;

    let outcome = Commands::run(ContextFactory::new(state.clone()), ping.clone());
    match outcome {
        Err(Error::FromInteraction(CommandFromInteractionError::NotACommand(kept))) => {
            assert_eq!(kept, ping);
        }
        other => panic!("unexpected outcome: {:?}", other),
    }
    assert!(!state.is_shutting_down());
}

#[test]
fn shutdown_command_closes_channels_and_still_acknowledges() {
    let runtime = runtime();
    let _guard = runtime.enter();
    let shards = shards(3);
    let state = state_over(&shards);

    let handled =
        Commands::run(ContextFactory::new(state.clone()), event("shutdown", vec![])).unwrap();

    assert!(state.is_shutting_down());
    assert_eq!(handled.command, Commands::Shutdown(shutdown::Command));
    assert_addressed_to_the_event(&handled.reply);
    assert_eq!(content_of(&handled.reply), Some("Shutdown initiated."));
    assert_eq!(shutdown::Command::notice(), "Shutdown initiated.");
    assert!(handled.complete(Ok(())).is_ok());
}

#[test]
fn second_shutdown_command_still_succeeds() {
    let runtime = runtime();
    let _guard = runtime.enter();
    let shards = shards(2);
    let state = state_over(&shards);

    let first =
        Commands::run(ContextFactory::new(state.clone()), event("shutdown", vec![])).unwrap();
    assert!(first.complete(Ok(())).is_ok());
    // Even with every channel gone by now, a second invocation closes nothing
    // and therefore has nothing to fail on.
    drop(shards);
    let second =
        Commands::run(ContextFactory::new(state.clone()), event("shutdown", vec![])).unwrap();
    assert_eq!(content_of(&second.reply), Some("Shutdown initiated."));
    assert!(second.complete(Ok(())).is_ok());
    assert!(state.is_shutting_down());
}

#[test]
fn shutdown_command_reports_channels_that_did_not_close() {
    let runtime = runtime();
    let _guard = runtime.enter();
    let mut shards = shards(5);
    let state = state_over(&shards);
    shards.truncate(3);

    let outcome = Commands::run(ContextFactory::new(state.clone()), event("shutdown", vec![]));
    match outcome {
        Err(error @ Error::Command(CommandError::Shutdown(shutdown::Error::Channel(_)))) => {
            assert_eq!(error.severity(), Severity::High);
            if let Error::Command(CommandError::Shutdown(shutdown::Error::Channel(errors))) = error
            {
                assert_eq!(errors.len(), 2);
            }
        }
        other => panic!("unexpected outcome: {:?}", other),
    }
    assert!(state.is_shutting_down());
}

#[test]
fn after_shutdown_keeps_close_failures_apart_from_reply_failures() {
    let runtime = runtime();
    let _guard = runtime.enter();
    let shards = shards(1);
    let state = state_over(&shards);
    let sender = state.senders[0].clone();
    drop(shards);
    let context = CommandContext { state: state.clone(), interaction: event("shutdown", vec![]) };

    let failure = sender.close(twilight_gateway::CloseFrame::NORMAL).unwrap_err();
    match shutdown::Command::after_shutdown(context.clone(), Err(vec![failure])) {
        Err(shutdown::Error::Channel(errors)) => assert_eq!(errors.len(), 1),
        other => panic!("unexpected outcome: {:?}", other),
    }
    match shutdown::Command::after_shutdown(context, Ok(())) {
        Ok(reply) => assert_eq!(content_of(&reply), Some("Shutdown initiated.")),
        other => panic!("unexpected outcome: {:?}", other),
    }
    match shutdown::Command.acknowledged(Err(transport_error())) {
        Err(shutdown::Error::Reply(_)) => {}
        other => panic!("unexpected outcome: {:?}", other),
    }
    assert!(shutdown::Command.acknowledged(Ok(())).is_ok());
}

#[test]
fn failed_delivery_is_the_handlers_failure() {
    let state = state_over(&[]);

    let handled =
        Commands::run(ContextFactory::new(state.clone()), event("test-command", vec![])).unwrap();
    match handled.complete(Err(transport_error())) {
        Err(error @ Error::Command(CommandError::A(_))) => {
            assert_eq!(error.severity(), Severity::High)
        }
        other => panic!("unexpected outcome: {:?}", other),
    }

    let handled =
        Commands::run(ContextFactory::new(state.clone()), event("test-command-2", message("m")))
            .unwrap();
    assert!(matches!(
        handled.complete(Err(transport_error())),
        Err(Error::Command(CommandError::B(_)))
    ));

    let handled = Commands::run(ContextFactory::new(state), event("shutdown", vec![])).unwrap();
    assert!(matches!(
        handled.complete(Err(transport_error())),
        Err(Error::Command(CommandError::Shutdown(shutdown::Error::Reply(_))))
    ));
}

#[test]
fn severity_by_branch() {
    let bare = Interaction { id: Id::new(1), kind: InteractionType::Ping, data: None, token: String::new() };
    let data = CommandData { id: 1, name: "foo".to_owned(), options: vec![] };
    let low: [Error<()>; 2] = [
        Error::FromInteraction(CommandFromInteractionError::NotACommand(bare.clone())),
        Error::FromInteraction(CommandFromInteractionError::FromCommandData(
            bare.clone(),
            FromCommandDataError::UnknownCommand(Box::new(data)),
        )),
    ];
    for error in low {
        assert_eq!(error.severity(), Severity::Low);
    }
    let high: [Error<()>; 3] = [
        Error::FromInteraction(CommandFromInteractionError::NoCommandData(bare.clone(), None)),
        Error::FromInteraction(CommandFromInteractionError::FromCommandData(
            bare,
            FromCommandDataError::Parse(
                "test-command-2".to_owned(),
                tetra::framework::ParseError {
                    field: "message".to_owned(),
                    kind: tetra::framework::ParseErrorKind::RequiredField,
                },
            ),
        )),
        Error::Command(()),
    ];
    for error in high {
        assert_eq!(error.severity(), Severity::High);
    }
}

#[test]
fn context_factory_pairs_state_and_event() {
    let state = state_over(&[]);
    let factory = ContextFactory::new(state.clone());
    let interaction = event("test-command", vec![]);
    let context = factory.create_context(interaction.clone());
    assert!(Arc::ptr_eq(&context.state, &state));
    assert_eq!(context.interaction, interaction);
}

#[test]
fn reply_addresses_the_event_of_the_context() {
    let state = state_over(&[]);
    let context = CommandContext { state, interaction: event("test-command", vec![]) };
    let data = twilight_model::http::interaction::InteractionResponseData {
        content: Some("body".to_owned()),
        tts: Some(true),
        ..Default::default()
    };
    let reply = context.reply(data.clone());
    assert_eq!(
        reply,
        Reply {
            interaction_id: Id::new(42),
            token: "reply-token".to_owned(),
            kind: InteractionResponseType::ChannelMessageWithSource,
            data: Some(data),
        }
    );
}

#[test]
fn services_always_admit() {
    let mut runner: ExecutableCommandService<Commands> = ExecutableCommandService::new();
    let admission: Admission<Error<CommandError>> =
        <ExecutableCommandService<Commands> as Service<(ContextFactory, Interaction)>>::poll_ready(
            &mut runner,
        );
    assert!(matches!(admission, Admission::Ready));

    let mut handler: CommandService<Commands> = CommandService::new();
    let admission =
        <CommandService<Commands> as Service<(Commands, CommandContext)>>::poll_ready(&mut handler);
    assert!(matches!(admission, Admission::Ready));
}

#[test]
fn executable_service_runs_the_pipeline() {
    let state = state_over(&[]);
    let mut service: ExecutableCommandService<Commands> = ExecutableCommandService::default();
    let handled: Handled<Commands> = service
        .call((ContextFactory::new(state.clone()), event("test-command-2", message("via service"))))
        .unwrap();
    assert_eq!(content_of(&handled.reply), Some("via service"));

    let mut copy = service.clone();
    let outcome = copy.call((ContextFactory::new(state), event("nope", vec![])));
    assert!(matches!(
        outcome,
        Err(Error::FromInteraction(CommandFromInteractionError::FromCommandData(
            _,
            FromCommandDataError::UnknownCommand(_)
        )))
    ));
}

#[test]
fn command_service_runs_the_handler() {
    let state = state_over(&[]);
    let context = CommandContext { state, interaction: event("test-command-2", message("x")) };
    let mut service: CommandService<Commands> = CommandService::default();
    let command = Commands::B(command_b::Command { message: "direct".to_owned() });
    let handled = service.clone().call((command.clone(), context)).unwrap();
    assert_eq!(handled.command, command);
    assert_eq!(content_of(&handled.reply), Some("direct"));
    assert!(matches!(
        <CommandService<Commands> as Service<(Commands, CommandContext)>>::poll_ready(&mut service),
        Admission::Ready
    ));
}

#[test]
fn state_layer_hands_the_state_to_the_inner_service() {
    let state = state_over(&[]);
    let layer: StateLayer<Interaction, ContextFactory> =
        StateLayer::new(ContextFactory::new(state.clone()));
    let mut service = layer.layer(ExecutableCommandService::<Commands>::new());

    assert!(matches!(service.poll_ready(), Admission::Ready));
    let handled = service.call(event("test-command-2", message("layered"))).unwrap();
    assert_eq!(content_of(&handled.reply), Some("layered"));
    // The layer keeps its state: a second request is served the same way.
    let handled = service.call(event("test-command", vec![])).unwrap();
    assert_eq!(content_of(&handled.reply), Some("HIIIII OMG HAII UWU UWU"));
    assert!(service.call(event("foo", vec![])).is_err());
}

#[test]
fn omitted_values_show_as_a_placeholder() {
    assert_eq!(OmitDebug.text(), "[omitted]");
}
