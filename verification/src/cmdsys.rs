//! The command system: the context a command invocation receives, and the
//! data model of the interaction it answers.

use vstd::prelude::*;

verus! {

/// The kind of a command.
#[derive(Clone, Copy, Debug, PartialEq, Eq, Structural)]
pub enum CommandType {
    ChatInput,
    Message,
    User,
}

/// The value of one command option.
#[derive(Clone, Debug, PartialEq)]
pub enum OptionValue {
    /// A string-typed option value.
    StringValue(String),
    /// A value of a type no command of this library reads.
    Other,
}

/// One option the invoker passed with the command.
#[derive(Clone, Debug, PartialEq)]
pub struct CommandDataOption {
    pub name: String,
    pub value: OptionValue,
}

/// An application command invocation, with what the commands of this library
/// read from it.
#[derive(Clone, Debug, PartialEq)]
pub struct ApplicationCommand {
    /// The id of the interaction, echoed back with every response.
    pub id: u64,
    /// The interaction token, echoed back with every response.
    pub token: String,
    /// The guild the command was invoked in, absent in a direct message.
    pub guild_id: Option<u64>,
    /// The invoking guild member's user id, when invoked in a guild.
    pub member_user_id: Option<u64>,
    /// The invoking user's id, present exactly when invoked outside a guild.
    pub user_id: Option<u64>,
    /// The options passed with the command.
    pub options: Vec<CommandDataOption>,
}

/// An interaction, as far as the commands of this library distinguish it.
#[derive(Clone, Debug, PartialEq)]
pub enum Interaction {
    /// An application command invocation.
    ApplicationCommand(ApplicationCommand),
    /// An interaction of a kind no command of this library answers.
    Other,
}

/// The inner structure of a [`CommandContext`].
#[derive(Clone, Debug, PartialEq)]
pub struct CommandContextInner {
    /// The interaction being answered.
    pub interaction: Interaction,
}

/// The command context used for command invocation.
#[derive(Clone, Debug, PartialEq)]
pub struct CommandContext {
    pub inner: CommandContextInner,
}

impl CommandContext {
    /// The inner structure of the context.
    pub fn inner(&self) -> (r: &CommandContextInner)
        ensures
            *r == self.inner,
    {
        &self.inner
    }
}

/// The data of a mentionable command option.
#[derive(Clone, Debug, PartialEq)]
pub struct BaseCommandOptionData {
    pub description: String,
    pub name: String,
    pub required: bool,
}

/// An option a command declares it accepts.
#[derive(Clone, Debug, PartialEq)]
pub enum CommandOption {
    Mentionable(BaseCommandOptionData),
}

} // verus!
