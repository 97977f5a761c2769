//! The event dispatcher.
//!
//! `handle_event` consumes a tagged envelope and routes it to exactly one
//! matching handler. Because the envelope's source category is intrinsic to
//! the populated variant, no tag/payload mismatch can occur, and dispatch
//! never fails: a recognized variant yields its handler's result, and an
//! unrecognized variant under a known source category is a no-op.

use vstd::prelude::*;
use crate::error::HarTexError;
use crate::error::HarTexResult;
use crate::handler::EventHandler;
use crate::handler::spec_ready;
use crate::logging::LogMessage;
use crate::model::Envelope;
use crate::model::Event;
use crate::model::GuildCreate;
use crate::model::HarTexEvent;
use crate::model::InteractionCreate;
use crate::model::MessageCreate;

verus! {

/// What one dispatch decided.
#[derive(Clone, Debug, PartialEq)]
pub enum Dispatched {
    /// The variant is unrecognized under its source category: a no-op, kept
    /// forward-compatible rather than reported as an error.
    Ignored,
    /// A handler produced a log entry to write.
    Log(LogMessage),
    /// The joined guild must be checked against the whitelist; the caller
    /// runs the whitelist lookup and hands its outcome to
    /// [`EventHandler::guild_create`].
    GuildCheck(GuildCreate),
    /// The message's author must be considered for an experience award; the
    /// caller consults the award cache and hands the outcome to
    /// [`EventHandler::message_create`].
    Experience(MessageCreate),
    /// The interaction invokes a command; the caller identifies the command
    /// and runs it over a context built from the interaction.
    Command(InteractionCreate),
}

/// The routing table of the dispatcher: which handler one envelope reaches,
/// and what that handler decides.
pub open spec fn spec_dispatch(envelope: Envelope, startup_ms: u64) -> Dispatched {
    match envelope {
        Envelope::Twilight(event) => match event {
            Event::GuildCreate(payload) => Dispatched::GuildCheck(payload),
            Event::InteractionCreate(payload) => Dispatched::Command(payload),
            Event::MessageCreate(payload) => Dispatched::Experience(payload),
            Event::Ready(payload) => Dispatched::Log(spec_ready(payload, startup_ms)),
            Event::ShardIdentifying(payload) => Dispatched::Log(
                LogMessage::ShardIdentifying { shard_id: payload.shard_id },
            ),
            _ => Dispatched::Ignored,
        },
        Envelope::Custom(event) => match event {
            HarTexEvent::CommandExecuted(payload) => Dispatched::Log(
                LogMessage::CommandExecuted {
                    command: payload.command,
                    guild_name: payload.guild_name,
                },
            ),
        },
    }
}

/// Routes the envelope to exactly one matching handler. `startup_ms` is the
/// stopwatch collaborator's reading, consumed only by the ready handler.
/// Dispatch itself cannot fail: the envelope's tag is intrinsic to its
/// populated variant, so the mismatch the result type guards against cannot
/// be constructed, and an unrecognized variant is absorbed as a no-op.
pub fn handle_event(envelope: Envelope, startup_ms: u64) -> (r: HarTexResult<Dispatched>)
    ensures
        r == Ok::<Dispatched, HarTexError>(spec_dispatch(envelope, startup_ms)),
{
    match envelope {
        Envelope::Twilight(event) => match event {
            Event::GuildCreate(payload) => Ok(Dispatched::GuildCheck(payload)),
            Event::InteractionCreate(payload) => Ok(Dispatched::Command(payload)),
            Event::MessageCreate(payload) => Ok(Dispatched::Experience(payload)),
            Event::Ready(payload) => Ok(Dispatched::Log(EventHandler::ready(payload, startup_ms))),
            Event::ShardIdentifying(payload) => Ok(
                Dispatched::Log(EventHandler::shard_identifying(payload)),
            ),
            _ => Ok(Dispatched::Ignored),
        },
        Envelope::Custom(event) => match event {
            HarTexEvent::CommandExecuted(payload) => Ok(
                Dispatched::Log(EventHandler::command_executed(payload)),
            ),
        },
    }
}

/// Dispatching an envelope whose populated variant is unrecognized under the
/// platform-native source category succeeds and invokes no handler: the
/// dispatch is a no-op, so schema evolution on the event source is
/// forward-compatible.
pub proof fn lemma_unrecognized_variant_is_ignored(envelope: Envelope, startup_ms: u64)
    requires
        envelope matches Envelope::Twilight(event) && (event is ShardConnecting
            || event is ShardConnected || event is ShardReconnecting
            || event is ShardDisconnected),
    ensures
        spec_dispatch(envelope, startup_ms) == Dispatched::Ignored,
{
}

} // verus!
