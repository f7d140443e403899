//! Process-wide state, the shutdown coordinator and the context factory.

use crate::framework::CommandContextFactory;
use crate::interaction::{Interaction, InteractionResponseType, Reply};
use crate::trusted::close_sender;
use std::sync::atomic::{AtomicBool, Ordering};
use std::sync::Arc;
use twilight_gateway::error::ChannelError;
use twilight_gateway::MessageSender;
use twilight_http::Client;
use twilight_model::http::interaction::InteractionResponseData;
use twilight_model::id::marker::ApplicationMarker;
use twilight_model::id::Id;
use vstd::prelude::*;

verus! {

/// The failures among a round of close attempts, in channel order.
pub open spec fn failures<E>(attempts: Seq<Result<(), E>>) -> Seq<E>
    decreases attempts.len(),
{
    if attempts.len() == 0 {
        Seq::empty()
    } else {
        match attempts.last() {
            Ok(_) => failures(attempts.drop_last()),
            Err(error) => failures(attempts.drop_last()).push(error),
        }
    }
}

/// How many close attempts a call of the coordinator makes, given the flag
/// value it found.
pub open spec fn round_size(previously_set: bool, channels: nat) -> nat {
    if previously_set {
        0
    } else {
        channels
    }
}

/// What a swap of the shutdown flag to "up" does to a flag value: the value
/// afterwards, and the value that the swap reports as found.
pub open spec fn raised(flag: bool) -> (bool, bool) {
    (true, flag)
}

/// The flag after `calls` calls of the coordinator, taken in the order in
/// which their swaps took effect.
pub open spec fn flag_after(initial: bool, calls: nat) -> bool
    decreases calls,
{
    if calls == 0 {
        initial
    } else {
        raised(flag_after(initial, (calls - 1) as nat)).0
    }
}

/// The close attempts that `calls` calls of the coordinator make between
/// them over `channels` channels.
pub open spec fn attempts_after(initial: bool, calls: nat, channels: nat) -> nat
    decreases calls,
{
    if calls == 0 {
        0
    } else {
        let found = raised(flag_after(initial, (calls - 1) as nat)).1;
        attempts_after(initial, (calls - 1) as nat, channels) + round_size(found, channels)
    }
}

/// However many calls of the coordinator a fresh state sees, they make
/// exactly one round of close attempts between them, one attempt for each
/// channel, and leave the flag up.
pub proof fn lemma_one_round_of_closing(calls: nat, channels: nat)
    requires
        calls >= 1,
    ensures
        flag_after(false, calls),
        attempts_after(false, calls, channels) == channels,
    decreases calls,
{
    if calls > 1 {
        lemma_one_round_of_closing((calls - 1) as nat, channels);
    } else {
        assert(flag_after(false, 0) == false);
        assert(attempts_after(false, 0, channels) == 0);
    }
}

/// Once the flag is up, further calls of the coordinator attempt nothing,
/// leave the flag up, and each of them answers with success.
pub proof fn lemma_repeated_shutdown_is_idle<E>(calls: nat, channels: nat)
    ensures
        flag_after(true, calls),
        attempts_after(true, calls, channels) == 0,
        round_size(true, channels) == 0,
        failures(Seq::<Result<(), E>>::empty()).len() == 0,
    decreases calls,
{
    if calls > 0 {
        lemma_repeated_shutdown_is_idle::<E>((calls - 1) as nat, channels);
    }
}

/// The failures of a round are exactly its failed attempts, each once and in
/// the order of the channels; the attempts that succeeded leave no trace.
pub proof fn lemma_failures_are_the_failed_attempts<E>(attempts: Seq<Result<(), E>>)
    ensures
        failures(attempts) == attempts.filter(|attempt: Result<(), E>| attempt is Err).map_values(
            |attempt: Result<(), E>| attempt->Err_0,
        ),
    decreases attempts.len(),
{
    let failed = |attempt: Result<(), E>| attempt is Err;
    let error = |attempt: Result<(), E>| attempt->Err_0;
    reveal(Seq::filter);
    if attempts.len() > 0 {
        lemma_failures_are_the_failed_attempts(attempts.drop_last());
        let before = attempts.drop_last().filter(failed);
        if attempts.last() is Err {
            assert(attempts.filter(failed) == before.push(attempts.last()));
            assert(before.push(attempts.last()).map_values(error) == before.map_values(error).push(
                attempts.last()->Err_0,
            ));
        } else {
            assert(attempts.filter(failed) == before);
        }
    } else {
        assert(attempts.filter(failed).map_values(error) == Seq::<E>::empty());
    }
}

/// Folds a round of close attempts into the coordinator's answer: success when
/// no channel failed, otherwise every failure, in channel order.
pub fn aggregate<E>(attempts: Vec<Result<(), E>>) -> (r: Result<(), Vec<E>>)
    ensures
        match r {
            Ok(_) => failures(attempts@).len() == 0,
            Err(errors) => errors@.len() > 0 && errors@ == failures(attempts@),
        },
{
    let mut errors: Vec<E> = Vec::new();
    let ghost all = attempts@;
    for attempt in it: attempts
        invariant
            it.seq() == all,
            errors@ == failures(all.take(it.index())),
    {
        proof {
            let done = all.take(it.index() + 1);
            assert(done.drop_last() == all.take(it.index()));
            assert(done.last() == attempt);
        }
        match attempt {
            Ok(_) => {},
            Err(error) => {
                errors.push(error);
            },
        }
    }
    proof {
        assert(all.take(all.len() as int) == all);
    }
    if errors.len() == 0 {
        Ok(())
    } else {
        Err(errors)
    }
}

/// The single shared, long-lived object of the process.
///
/// Nothing in it changes after start but the shutdown flag, and that only
/// from down to up.
#[derive(Debug)]
pub struct State {
    pub client: Client,
    pub senders: Vec<MessageSender>,
    pub app_id: Id<ApplicationMarker>,
    pub shutdown: AtomicBool,
}

impl State {
    /// Raises the shutdown flag and reports whether it had been raised before.
    pub fn raise_shutdown(&self) -> bool {
        self.shutdown.swap(true, Ordering::AcqRel)
    }

    /// Whether shutdown has begun.
    pub fn is_shutting_down(&self) -> bool {
        self.shutdown.load(Ordering::Acquire)
    }

    /// Attempts a graceful close on every channel, whatever the earlier ones
    /// answered.
    pub fn close_channels(&self) -> (attempts: Vec<Result<(), ChannelError>>)
        ensures
            attempts@.len() == self.senders@.len(),
    {
        let mut attempts: Vec<Result<(), ChannelError>> = Vec::new();
        let mut i: usize = 0;
        while i < self.senders.len()
            invariant
                i <= self.senders@.len(),
                attempts@.len() == i,
            decreases self.senders@.len() - i,
        {
            attempts.push(close_sender(&self.senders[i]));
            i += 1;
        }
        attempts
    }

    /// The coordinator's work once the flag has been swapped: a full round of
    /// close attempts for the caller that found the flag down, nothing for
    /// every other.
    pub fn shutdown_round(&self, previously_set: bool) -> (attempts: Vec<
        Result<(), ChannelError>,
    >)
        ensures
            attempts@.len() == round_size(previously_set, self.senders@.len()),
    {
        if previously_set {
            Vec::new()
        } else {
            self.close_channels()
        }
    }

    /// Shuts the process down: raises the flag and, if this call is the one
    /// that raised it, closes every channel. Safe to call any number of times.
    ///
    /// Without channels there is nothing that could fail, and the answer is
    /// `Ok` whatever the flag was. Otherwise the flag and the channels decide:
    /// an error holds the failures of one full round over the channels, in
    /// channel order, and there is at least one. A caller that found the flag
    /// up gets `Ok` (see [`aggregate`] and [`shutdown_round`](Self::shutdown_round)).
    pub fn send_shutdown(&self) -> (r: Result<(), Vec<ChannelError>>)
        ensures
            self.senders@.len() == 0 ==> r is Ok,
            r matches Err(errors) ==> errors@.len() > 0 && exists|
                attempts: Seq<Result<(), ChannelError>>,
            |
                #![trigger failures(attempts)]
                attempts.len() == self.senders@.len() && errors@ == failures(attempts),
    {
        let previously_set = self.raise_shutdown();
        let attempts = self.shutdown_round(previously_set);
        proof {
            if previously_set {
                assert(failures(attempts@).len() == 0);
            }
        }
        aggregate(attempts)
    }
}

/// Builds the context of one invocation from the shared state.
#[derive(Clone, Debug)]
pub struct ContextFactory {
    pub state: Arc<State>,
}

impl ContextFactory {
    pub fn new(state: Arc<State>) -> (factory: Self)
        ensures
            factory.state == state,
    {
        ContextFactory { state }
    }
}

impl CommandContextFactory for ContextFactory {
    type CommandContext = CommandContext;

    open spec fn context(self, interaction: Interaction) -> CommandContext {
        CommandContext { state: self.state, interaction }
    }

    fn create_context(self, interaction: Interaction) -> (context: CommandContext) {
        CommandContext { state: self.state, interaction }
    }
}

/// What a handler gets to see: the shared state and the event it answers.
#[derive(Clone, Debug)]
pub struct CommandContext {
    pub state: Arc<State>,
    pub interaction: Interaction,
}

impl CommandContext {
    /// The acknowledgement that answers this context's event with `response`,
    /// shown as a message in the channel the event came from.
    pub open spec fn spec_reply(&self, response: InteractionResponseData) -> Reply {
        Reply {
            interaction_id: self.interaction.id,
            token: self.interaction.token,
            kind: InteractionResponseType::ChannelMessageWithSource,
            data: Some(response),
        }
    }

    #[verifier::when_used_as_spec(spec_reply)]
    pub fn reply(&self, response: InteractionResponseData) -> (reply: Reply)
        ensures
            reply == self.spec_reply(response),
    {
        Reply {
            interaction_id: self.interaction.id,
            token: self.interaction.token.clone(),
            kind: InteractionResponseType::ChannelMessageWithSource,
            data: Some(response),
        }
    }
}

} // verus!
