//! The per-channel read loop, one decision at a time.
//!
//! A loop over an ingress channel awaits the next event, asks
//! [`handle_event`] what to do with it, does that, and goes on or stops as
//! the answer says. Only the awaiting and the doing are left to the loop.

use crate::context::{failures, ContextFactory, State};
use crate::interaction::Interaction;
use std::ops::ControlFlow;
use twilight_gateway::error::ChannelError;
use vstd::prelude::*;

verus! {

/// What an ingress channel delivers, as far as the loop tells events apart.
#[derive(Clone, Debug, PartialEq, Eq)]
pub enum GatewayEvent {
    /// A relevant event: something to dispatch.
    InteractionCreate(Interaction),
    /// The channel has closed.
    GatewayClose,
    /// Any other kind of event.
    Other,
}

/// What the loop is to do with one delivery.
#[derive(Clone, Debug, PartialEq, Eq)]
pub enum EventAction<E> {
    /// Hand the event to the pipeline in a task of its own, and read on
    /// without waiting for it.
    Dispatch(Interaction),
    /// The channel closed because the process is shutting down: leave the
    /// loop.
    Stop,
    /// Reading failed: report the error, and read on.
    Report(E),
    /// Nothing to do: read on.
    Ignore,
}

/// The decision for one delivery, given whether shutdown has begun.
///
/// A close ends the loop only during shutdown. A close at any other time is
/// passed over like an irrelevant event, and the loop reads on.
pub open spec fn plan<E>(event: Result<GatewayEvent, E>, shutting_down: bool) -> EventAction<E> {
    match event {
        Ok(GatewayEvent::InteractionCreate(interaction)) => EventAction::Dispatch(interaction),
        Ok(GatewayEvent::GatewayClose) => if shutting_down {
            EventAction::Stop
        } else {
            EventAction::Ignore
        },
        Ok(GatewayEvent::Other) => EventAction::Ignore,
        Err(error) => EventAction::Report(error),
    }
}

/// Decides what to do with one delivery, given whether shutdown has begun.
pub fn plan_event<E>(event: Result<GatewayEvent, E>, shutting_down: bool) -> (action: EventAction<E>)
    ensures
        action == plan(event, shutting_down),
{
    match event {
        Ok(GatewayEvent::InteractionCreate(interaction)) => EventAction::Dispatch(interaction),
        Ok(GatewayEvent::GatewayClose) => if shutting_down {
            EventAction::Stop
        } else {
            EventAction::Ignore
        },
        Ok(GatewayEvent::Other) => EventAction::Ignore,
        Err(error) => EventAction::Report(error),
    }
}

/// Decides what to do with one delivery. The shutdown flag is read only when
/// the channel has closed, and the decision is [`plan`]'s for the value that
/// was read.
pub fn handle_event<E>(context_factory: &ContextFactory, event: Result<GatewayEvent, E>) -> (action:
    EventAction<E>)
    ensures
        action == plan(event, true) || action == plan(event, false),
        !(event matches Ok(GatewayEvent::GatewayClose)) ==> action == plan(event, false),
{
    let shutting_down = match &event {
        Ok(GatewayEvent::GatewayClose) => context_factory.state.is_shutting_down(),
        _ => false,
    };
    plan_event(event, shutting_down)
}

impl<E> EventAction<E> {
    /// Whether the loop goes on after this action: it does, unless the action
    /// is to stop.
    pub open spec fn spec_control_flow(&self) -> ControlFlow<()> {
        match self {
            EventAction::Stop => ControlFlow::Break(()),
            _ => ControlFlow::Continue(()),
        }
    }

    #[verifier::when_used_as_spec(spec_control_flow)]
    pub fn control_flow(&self) -> (flow: ControlFlow<()>)
        ensures
            flow == self.spec_control_flow(),
    {
        match self {
            EventAction::Stop => ControlFlow::Break(()),
            _ => ControlFlow::Continue(()),
        }
    }
}

/// Shuts the process down through its shared state; see
/// [`State::send_shutdown`].
pub fn send_shutdown(state: &State) -> (r: Result<(), Vec<ChannelError>>)
    ensures
        state.senders@.len() == 0 ==> r is Ok,
        r matches Err(errors) ==> errors@.len() > 0 && exists|
            attempts: Seq<Result<(), ChannelError>>,
        |
            #![trigger failures(attempts)]
            attempts.len() == state.senders@.len() && errors@ == failures(attempts),
{
    state.send_shutdown()
}

} // verus!
