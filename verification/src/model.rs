//! The event envelope and its payloads.
//!
//! An envelope is exactly one populated variant: the source category is the
//! variant itself, never a separately stored discriminant, so no tag/payload
//! mismatch can exist.

use vstd::prelude::*;
use crate::cmdsys::Interaction;

verus! {

/// An interaction was created: a user invoked a command or another
/// interaction the application answers.
#[derive(Clone, Debug, PartialEq)]
pub struct InteractionCreate {
    pub interaction: Interaction,
}

/// The gateway reported the session ready.
#[derive(Clone, Debug, PartialEq)]
pub struct Ready {
    pub user_name: String,
    pub user_id: u64,
    pub api_version: u64,
}

/// The application was added to a guild, or a known guild became available.
#[derive(Clone, Copy, Debug, PartialEq, Eq, Structural)]
pub struct GuildCreate {
    pub guild_id: u64,
}

/// A message was created in a channel the application can read.
#[derive(Clone, Copy, Debug, PartialEq, Eq, Structural)]
pub struct MessageCreate {
    pub guild_id: Option<u64>,
    pub author_id: u64,
    pub channel_id: u64,
    pub message_id: u64,
}

/// A shard began connecting to the gateway.
#[derive(Clone, Copy, Debug, PartialEq, Eq, Structural)]
pub struct Connecting {
    pub shard_id: u64,
}

/// A shard connected to the gateway.
#[derive(Clone, Copy, Debug, PartialEq, Eq, Structural)]
pub struct Connected {
    pub shard_id: u64,
    pub heartbeat_interval: u64,
}

/// A shard began reconnecting to the gateway.
#[derive(Clone, Copy, Debug, PartialEq, Eq, Structural)]
pub struct Reconnecting {
    pub shard_id: u64,
}

/// A shard was disconnected from the gateway.
#[derive(Clone, Debug, PartialEq)]
pub struct Disconnected {
    pub shard_id: u64,
    pub code: Option<u64>,
    pub reason: Option<String>,
}

/// A shard is identifying with the gateway.
#[derive(Clone, Copy, Debug, PartialEq, Eq, Structural)]
pub struct Identifying {
    pub shard_id: u64,
}

/// A command finished successfully.
#[derive(Clone, Debug, PartialEq)]
pub struct CommandExecuted {
    pub command: String,
    pub guild_name: String,
}

/// A command failed with an error.
#[derive(Clone, Debug, PartialEq)]
pub struct CommandFailed {
    pub command: String,
    pub error: String,
}

/// A command arrived and is about to be identified.
#[derive(Clone, Copy, Debug, PartialEq, Eq, Structural)]
pub struct CommandReceived {
}

/// A platform-native event payload.
#[derive(Clone, Debug, PartialEq)]
pub enum Event {
    GuildCreate(GuildCreate),
    InteractionCreate(InteractionCreate),
    MessageCreate(MessageCreate),
    Ready(Ready),
    ShardConnecting(Connecting),
    ShardConnected(Connected),
    ShardReconnecting(Reconnecting),
    ShardDisconnected(Disconnected),
    ShardIdentifying(Identifying),
}

/// An internally generated application event payload.
#[derive(Clone, Debug, PartialEq)]
pub enum HarTexEvent {
    CommandExecuted(CommandExecuted),
}

/// A tagged event envelope: exactly one populated variant, with the source
/// category intrinsic to the variant.
#[derive(Clone, Debug, PartialEq)]
pub enum Envelope {
    Twilight(Event),
    Custom(HarTexEvent),
}

} // verus!
