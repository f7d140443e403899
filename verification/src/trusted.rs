//! The boundary to the gateway, HTTP and model crates.
//!
//! Everything here is believed, not proved: the opaque types that the core
//! carries around without looking inside, and the two calls it makes into
//! them.

use twilight_gateway::error::ChannelError;
use twilight_gateway::MessageSender;
use twilight_http::Error as TwilightError;
use twilight_model::gateway::CloseFrame;
use twilight_model::http::interaction::InteractionResponseData;
use twilight_util::builder::InteractionResponseDataBuilder;
use vstd::prelude::*;

verus! {

/// Close handle of one ingress channel. The coordinator only ever hands it to
/// [`close_sender`].
#[verifier::external_type_specification]
#[verifier::external_body]
pub struct ExMessageSender(twilight_gateway::MessageSender);

/// Failure of one channel to take a close signal. Collected, never inspected.
#[verifier::external_type_specification]
#[verifier::external_body]
pub struct ExChannelError(twilight_gateway::error::ChannelError);

/// Handle to the outbound reply transport. Carried, never used by the core.
#[verifier::external_type_specification]
#[verifier::external_body]
pub struct ExClient(twilight_http::Client);

/// Failure of the reply transport. Carried into handler errors as it came.
#[verifier::external_type_specification]
#[verifier::external_body]
pub struct ExTwilightError(TwilightError);

/// A non-zero identifier, typed by a marker.
#[verifier::external_type_specification]
#[verifier::external_body]
#[verifier::reject_recursive_types(T)]
pub struct ExId<T>(twilight_model::id::Id<T>);

/// `Id` is `Copy`, and its `clone` is written as the copy of `*self`.
pub assume_specification<T>[ <twilight_model::id::Id<T> as Clone>::clone ](
    id: &twilight_model::id::Id<T>,
) -> (copy: twilight_model::id::Id<T>)
    ensures
        copy == *id,
;

/// Marks the identifier of an application.
#[verifier::external_type_specification]
#[verifier::external_body]
pub struct ExApplicationMarker(twilight_model::id::marker::ApplicationMarker);

/// Marks the identifier of an inbound event.
#[verifier::external_type_specification]
#[verifier::external_body]
pub struct ExInteractionMarker(twilight_model::id::marker::InteractionMarker);

/// Body of an acknowledgement, as the reply transport wants it.
#[verifier::external_type_specification]
#[verifier::external_body]
pub struct ExInteractionResponseData(twilight_model::http::interaction::InteractionResponseData);

/// The acknowledgement body that carries `content` as its text and leaves
/// every other part unset.
pub uninterp spec fn text_response(content: Seq<char>) -> InteractionResponseData;

/// Sends the normal close frame over one channel with
/// `MessageSender::close`. Whether the channel takes it depends on whether
/// its shard is still alive, so nothing is claimed about the answer.
#[verifier::external_body]
pub(crate) fn close_sender(sender: &MessageSender) -> (attempt: Result<(), ChannelError>) {
    sender.close(CloseFrame::NORMAL)
}

/// Builds an acknowledgement body with `InteractionResponseDataBuilder`:
/// a fresh builder, `content`, `build`. The builder starts with every part
/// unset and `content` stores the text as it is, so the body is determined by
/// the text alone.
#[verifier::external_body]
pub(crate) fn build_text_response(content: String) -> (data: InteractionResponseData)
    ensures
        data == text_response(content@),
{
    InteractionResponseDataBuilder::new().content(content).build()
}

} // verus!
