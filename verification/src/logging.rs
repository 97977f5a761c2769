//! Structured log entries the handlers produce.
//!
//! The library computes what to log as a structured value; rendering and
//! writing the entry is the logger collaborator's business.

use vstd::prelude::*;

verus! {

/// The severity of a log entry.
#[derive(Clone, Copy, Debug, PartialEq, Eq, Structural)]
pub enum Severity {
    Verbose,
    Debug,
    Info,
    Error,
}

/// A structured log entry.
#[derive(Clone, Debug, PartialEq)]
pub enum LogMessage {
    /// Startup finished: the gateway reported the session ready.
    Startup { user_name: String, user_id: u64, api_version: u64, startup_ms: u64 },
    /// A shard began connecting to the gateway.
    ShardConnecting { shard_id: u64 },
    /// A shard connected; the gateway reported its heartbeat interval.
    ShardConnected { shard_id: u64, heartbeat_interval: u64 },
    /// A shard began reconnecting to the gateway.
    ShardReconnecting { shard_id: u64 },
    /// A shard was disconnected from the gateway.
    ShardDisconnected { shard_id: u64, code: Option<u64>, reason: Option<String> },
    /// A shard is identifying with the gateway.
    ShardIdentifying { shard_id: u64 },
    /// The application joined a new guild and checks its whitelist entry.
    GuildJoined { guild_id: u64 },
    /// The joined guild is whitelisted.
    GuildWhitelisted { guild_id: u64 },
    /// The joined guild is not whitelisted and will be left.
    GuildNotWhitelisted { guild_id: u64 },
    /// A command finished successfully.
    CommandExecuted { command: String, guild_name: String },
    /// A command failed with an error.
    CommandFailed { command: String, error: String },
    /// A command arrived and is about to be identified.
    CommandReceived,
    /// A command was identified by name.
    CommandIdentified { command: String },
    /// The whitelist query task performed its deferred setup.
    ExecutingWhitelistQuery,
}

impl LogMessage {
    /// The severity at which the entry is reported.
    pub open spec fn spec_severity(&self) -> Severity {
        match self {
            LogMessage::Startup { .. } => Severity::Info,
            LogMessage::ShardConnecting { .. } => Severity::Verbose,
            LogMessage::ShardConnected { .. } => Severity::Verbose,
            LogMessage::ShardReconnecting { .. } => Severity::Verbose,
            LogMessage::ShardDisconnected { .. } => Severity::Verbose,
            LogMessage::ShardIdentifying { .. } => Severity::Verbose,
            LogMessage::GuildJoined { .. } => Severity::Debug,
            LogMessage::GuildWhitelisted { .. } => Severity::Debug,
            LogMessage::GuildNotWhitelisted { .. } => Severity::Debug,
            LogMessage::CommandExecuted { .. } => Severity::Info,
            LogMessage::CommandFailed { .. } => Severity::Error,
            LogMessage::CommandReceived => Severity::Verbose,
            LogMessage::CommandIdentified { .. } => Severity::Verbose,
            LogMessage::ExecutingWhitelistQuery => Severity::Verbose,
        }
    }

    /// Returns the severity at which the entry is reported.
    pub fn severity(&self) -> (s: Severity)
        ensures
            s == self.spec_severity(),
    {
        match self {
            LogMessage::Startup { .. } => Severity::Info,
            LogMessage::ShardConnecting { .. } => Severity::Verbose,
            LogMessage::ShardConnected { .. } => Severity::Verbose,
            LogMessage::ShardReconnecting { .. } => Severity::Verbose,
            LogMessage::ShardDisconnected { .. } => Severity::Verbose,
            LogMessage::ShardIdentifying { .. } => Severity::Verbose,
            LogMessage::GuildJoined { .. } => Severity::Debug,
            LogMessage::GuildWhitelisted { .. } => Severity::Debug,
            LogMessage::GuildNotWhitelisted { .. } => Severity::Debug,
            LogMessage::CommandExecuted { .. } => Severity::Info,
            LogMessage::CommandFailed { .. } => Severity::Error,
            LogMessage::CommandReceived => Severity::Verbose,
            LogMessage::CommandIdentified { .. } => Severity::Verbose,
            LogMessage::ExecutingWhitelistQuery => Severity::Verbose,
        }
    }
}

} // verus!
