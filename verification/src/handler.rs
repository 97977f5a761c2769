//! The event handlers.
//!
//! Each handler turns one event payload, plus the plain values its
//! collaborators supply, into a structured result: a log entry to write or an
//! action for the caller to perform. Each handler receives only the inputs it
//! declares; none holds state across invocations.

use vstd::prelude::*;
use crate::logging::LogMessage;
use crate::model::Connected;
use crate::model::Connecting;
use crate::model::CommandExecuted;
use crate::model::CommandFailed;
use crate::model::CommandReceived;
use crate::model::Disconnected;
use crate::model::GuildCreate;
use crate::model::Identifying;
use crate::model::MessageCreate;
use crate::model::Ready;
use crate::model::Reconnecting;

verus! {

/// What to do about a newly joined guild.
#[derive(Clone, Copy, Debug, PartialEq, Eq, Structural)]
pub enum GuildAction {
    /// The guild is whitelisted: stay.
    Stay,
    /// The guild is not whitelisted: message its owner, then leave.
    DmOwnerAndLeave,
}

/// The experience points to award for one message.
#[derive(Clone, Copy, Debug, PartialEq, Eq, Structural)]
pub struct ExperienceRequest {
    pub guild_id: u64,
    pub user_id: u64,
    pub xp: u64,
}

/// A congratulation to send after a level-up.
#[derive(Clone, Copy, Debug, PartialEq, Eq, Structural)]
pub struct LevelUpReply {
    pub channel_id: u64,
    pub message_id: u64,
    pub user_id: u64,
    pub level: u64,
}

/// What to do after an experience award came back.
#[derive(Clone, Copy, Debug, PartialEq, Eq, Structural)]
pub struct MessageCreateAction {
    /// Present exactly when the award raised the author's level.
    pub reply: Option<LevelUpReply>,
    /// Present exactly when points were awarded: how long the award cap for
    /// this author is to be cached, in seconds.
    pub cache_for_secs: Option<u64>,
}

/// Whether a whitelist holds a guild id.
pub fn contains_guild(whitelist: &Vec<u64>, guild_id: u64) -> (r: bool)
    ensures
        r == whitelist@.contains(guild_id),
{
    let mut i: usize = 0;
    while i < whitelist.len()
        invariant
            i <= whitelist@.len(),
            forall|k: int| 0 <= k < i ==> whitelist@[k] != guild_id,
        decreases whitelist@.len() - i,
    {
        if whitelist[i] == guild_id {
            return true;
        }
        i = i + 1;
    }
    false
}

/// The event handlers, one per recognized payload variant.
pub struct EventHandler;

/// The startup report for a ready session.
pub open spec fn spec_ready(payload: Ready, startup_ms: u64) -> LogMessage {
    LogMessage::Startup {
        user_name: payload.user_name,
        user_id: payload.user_id,
        api_version: payload.api_version,
        startup_ms,
    }
}

/// What a newly joined guild deserves, given its whitelist membership.
pub open spec fn spec_guild_create(payload: GuildCreate, whitelist: Seq<u64>) -> GuildAction {
    if whitelist.contains(payload.guild_id) {
        GuildAction::Stay
    } else {
        GuildAction::DmOwnerAndLeave
    }
}

/// The log entry reporting the whitelist decision for a newly joined guild.
pub open spec fn spec_guild_create_log(payload: GuildCreate, whitelist: Seq<u64>) -> LogMessage {
    if whitelist.contains(payload.guild_id) {
        LogMessage::GuildWhitelisted { guild_id: payload.guild_id }
    } else {
        LogMessage::GuildNotWhitelisted { guild_id: payload.guild_id }
    }
}

/// The points one message earns: none while the author's recent award is
/// still cached, otherwise the rolled amount.
pub open spec fn spec_experience(cached: bool, roll: u64) -> u64 {
    if cached {
        0u64
    } else {
        roll
    }
}

/// The follow-up after an experience award: congratulate exactly on a
/// level-up, and cache the award cap for a minute exactly when points were
/// awarded.
pub open spec fn spec_message_create_followup(
    payload: MessageCreate,
    xp: u64,
    level_up: bool,
    level: u64,
) -> MessageCreateAction {
    MessageCreateAction {
        reply: if level_up {
            Some(
                LevelUpReply {
                    channel_id: payload.channel_id,
                    message_id: payload.message_id,
                    user_id: payload.author_id,
                    level,
                },
            )
        } else {
            None
        },
        cache_for_secs: if xp > 0 {
            Some(60u64)
        } else {
            None
        },
    }
}

impl EventHandler {
    /// Reports the ready session: who connected, against which API version,
    /// and how long startup took.
    pub fn ready(payload: Ready, startup_ms: u64) -> (r: LogMessage)
        ensures
            r == spec_ready(payload, startup_ms),
    {
        LogMessage::Startup {
            user_name: payload.user_name,
            user_id: payload.user_id,
            api_version: payload.api_version,
            startup_ms,
        }
    }

    /// Decides what to do about a newly joined guild: stay exactly when the
    /// guild is whitelisted, otherwise message the owner and leave. The
    /// decision is reported alongside as a debug log entry.
    pub fn guild_create(payload: &GuildCreate, whitelist: &Vec<u64>) -> (r: (
        GuildAction,
        LogMessage,
    ))
        ensures
            r.0 == spec_guild_create(*payload, whitelist@),
            r.1 == spec_guild_create_log(*payload, whitelist@),
    {
        if contains_guild(whitelist, payload.guild_id) {
            (GuildAction::Stay, LogMessage::GuildWhitelisted { guild_id: payload.guild_id })
        } else {
            (
                GuildAction::DmOwnerAndLeave,
                LogMessage::GuildNotWhitelisted { guild_id: payload.guild_id },
            )
        }
    }

    /// Reports a shard connecting to the gateway.
    pub fn shard_connecting(payload: Connecting) -> (r: LogMessage)
        ensures
            r == (LogMessage::ShardConnecting { shard_id: payload.shard_id }),
    {
        LogMessage::ShardConnecting { shard_id: payload.shard_id }
    }

    /// Reports a shard connected to the gateway, with its heartbeat interval.
    pub fn shard_connected(payload: Connected) -> (r: LogMessage)
        ensures
            r == (LogMessage::ShardConnected {
                shard_id: payload.shard_id,
                heartbeat_interval: payload.heartbeat_interval,
            }),
    {
        LogMessage::ShardConnected {
            shard_id: payload.shard_id,
            heartbeat_interval: payload.heartbeat_interval,
        }
    }

    /// Reports a shard reconnecting to the gateway.
    pub fn shard_reconnecting(payload: Reconnecting) -> (r: LogMessage)
        ensures
            r == (LogMessage::ShardReconnecting { shard_id: payload.shard_id }),
    {
        LogMessage::ShardReconnecting { shard_id: payload.shard_id }
    }

    /// Reports a shard disconnected from the gateway, with the close code and
    /// reason the gateway gave, if any.
    pub fn shard_disconnected(payload: Disconnected) -> (r: LogMessage)
        ensures
            r == (LogMessage::ShardDisconnected {
                shard_id: payload.shard_id,
                code: payload.code,
                reason: payload.reason,
            }),
    {
        LogMessage::ShardDisconnected {
            shard_id: payload.shard_id,
            code: payload.code,
            reason: payload.reason,
        }
    }

    /// Reports a shard identifying with the gateway.
    pub fn shard_identifying(payload: Identifying) -> (r: LogMessage)
        ensures
            r == (LogMessage::ShardIdentifying { shard_id: payload.shard_id }),
    {
        LogMessage::ShardIdentifying { shard_id: payload.shard_id }
    }

    /// The experience award for one created message. While the author's
    /// recent award is still cached no points are given; otherwise the rolled
    /// amount, which the levelling rules keep between 15 and 25, is awarded.
    pub fn message_create(payload: &MessageCreate, cached: bool, roll: u64) -> (r:
        ExperienceRequest)
        requires
            payload.guild_id.is_some(),
            15 <= roll <= 25,
        ensures
            r.guild_id == payload.guild_id.unwrap(),
            r.user_id == payload.author_id,
            r.xp == spec_experience(cached, roll),
    {
        let xp = if cached {
            0u64
        } else {
            roll
        };
        ExperienceRequest { guild_id: payload.guild_id.unwrap(), user_id: payload.author_id, xp }
    }

    /// The follow-up once the experience award came back from the store:
    /// congratulate the author exactly on a level-up, and cache the award cap
    /// for sixty seconds exactly when points were awarded.
    pub fn message_create_followup(
        payload: &MessageCreate,
        xp: u64,
        level_up: bool,
        level: u64,
    ) -> (r: MessageCreateAction)
        ensures
            r == spec_message_create_followup(*payload, xp, level_up, level),
    {
        let reply = if level_up {
            Some(
                LevelUpReply {
                    channel_id: payload.channel_id,
                    message_id: payload.message_id,
                    user_id: payload.author_id,
                    level,
                },
            )
        } else {
            None
        };
        let cache_for_secs = if xp > 0 {
            Some(60u64)
        } else {
            None
        };
        MessageCreateAction { reply, cache_for_secs }
    }

    /// Reports a successfully executed command.
    pub fn command_executed(payload: CommandExecuted) -> (r: LogMessage)
        ensures
            r == (LogMessage::CommandExecuted {
                command: payload.command,
                guild_name: payload.guild_name,
            }),
    {
        LogMessage::CommandExecuted { command: payload.command, guild_name: payload.guild_name }
    }

    /// Reports a failed command with its error.
    pub fn command_failed(payload: CommandFailed) -> (r: LogMessage)
        ensures
            r == (LogMessage::CommandFailed { command: payload.command, error: payload.error }),
    {
        LogMessage::CommandFailed { command: payload.command, error: payload.error }
    }

    /// Reports that a command arrived and is about to be identified.
    pub fn command_received(_payload: CommandReceived) -> (r: LogMessage)
        ensures
            r == LogMessage::CommandReceived,
    {
        LogMessage::CommandReceived
    }

    /// Reports the name a received command was identified as.
    pub fn command_identified(payload: String) -> (r: LogMessage)
        ensures
            r == (LogMessage::CommandIdentified { command: payload }),
    {
        LogMessage::CommandIdentified { command: payload }
    }
}

} // verus!
