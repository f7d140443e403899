use std::ops::ControlFlow;
use std::sync::atomic::AtomicBool;
use std::sync::Arc;
use tetra::context::{ContextFactory, State};
use tetra::gateway::{handle_event, plan_event, EventAction, GatewayEvent};
use tetra::interaction::{Interaction, InteractionType};
use twilight_http::Client;
use twilight_model::id::Id;

fn factory() -> ContextFactory {
    ContextFactory::new(Arc::new(State {
        client: Client::new("token".to_owned()),
        senders: vec![],
        app_id: Id::new(1),
        shutdown: AtomicBool::new(false),
    }))
}

fn interaction() -> Interaction {
    Interaction {
        id: Id::new(5),
        kind: InteractionType::ApplicationCommand,
        data: None,
        token: "t".to_owned(),
    }
}

#[test]
fn relevant_event_is_dispatched() {
    let factory = factory();
    let action = handle_event::<&str>(&factory, Ok(GatewayEvent::InteractionCreate(interaction())));
    assert_eq!(action, EventAction::Dispatch(interaction()));
    assert_eq!(action.control_flow(), ControlFlow::Continue(()));
}

#[test]
fn relevant_event_is_dispatched_during_shutdown_too() {
    let factory = factory();
    factory.state.raise_shutdown();
    let action = handle_event::<&str>(&factory, Ok(GatewayEvent::InteractionCreate(interaction())));
    assert_eq!(action, EventAction::Dispatch(interaction()));
}

#[test]
fn transport_error_is_reported_and_the_loop_goes_on() {
    let factory = factory();
    let action = handle_event(&factory, Err("connection reset"));
    assert_eq!(action, EventAction::Report("connection reset"));
    assert_eq!(action.control_flow(), ControlFlow::Continue(()));

    factory.state.raise_shutdown();
    assert_eq!(handle_event(&factory, Err(7)), EventAction::Report(7));
}

#[test]
fn irrelevant_event_is_ignored() {
    let factory = factory();
    let action = handle_event::<()>(&factory, Ok(GatewayEvent::Other));
    assert_eq!(action, EventAction::Ignore);
    assert_eq!(action.control_flow(), ControlFlow::Continue(()));
}

#[test]
fn close_during_shutdown_ends_the_loop() {
    let factory = factory();
    factory.state.send_shutdown().unwrap();
    let action = handle_event::<()>(&factory, Ok(GatewayEvent::GatewayClose));
    assert_eq!(action, EventAction::Stop);
    assert_eq!(action.control_flow(), ControlFlow::Break(()));
}

#[test]
fn unexpected_close_does_not_end_the_loop() {
    let factory = factory();
    let action = handle_event::<()>(&factory, Ok(GatewayEvent::GatewayClose));
    assert_eq!(action, EventAction::Ignore);
    assert_eq!(action.control_flow(), ControlFlow::Continue(()));
}

#[test]
fn plan_event_covers_every_case() {
    for shutting_down in [false, true] {
        assert_eq!(
            plan_event::<u8>(Ok(GatewayEvent::InteractionCreate(interaction())), shutting_down),
            EventAction::Dispatch(interaction())
        );
        assert_eq!(plan_event::<u8>(Ok(GatewayEvent::Other), shutting_down), EventAction::Ignore);
        assert_eq!(plan_event(Err(3u8), shutting_down), EventAction::Report(3));
    }
    assert_eq!(plan_event::<u8>(Ok(GatewayEvent::GatewayClose), true), EventAction::Stop);
    assert_eq!(plan_event::<u8>(Ok(GatewayEvent::GatewayClose), false), EventAction::Ignore);
}
