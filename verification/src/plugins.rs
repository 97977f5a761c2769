//! The commands: `ping` and `about` from the global plugin, `userinfo` from
//! the information plugin.
//!
//! Each command's computation is split from the client calls that carry it
//! out: the functions here validate the interaction, resolve inputs, and
//! build the response data; issuing the response is the client
//! collaborator's business.

use vstd::prelude::*;
use crate::cmdsys::ApplicationCommand;
use crate::cmdsys::BaseCommandOptionData;
use crate::cmdsys::CommandContext;
use crate::cmdsys::CommandDataOption;
use crate::cmdsys::CommandOption;
use crate::cmdsys::CommandType;
use crate::cmdsys::Interaction;
use crate::cmdsys::OptionValue;
use crate::error::HarTexError;
use crate::error::HarTexResult;
use crate::utils::CdnResource;
use crate::utils::CdnResourceFormat;

verus! {

/// A decimal digit.
pub open spec fn is_digit(c: char) -> bool {
    '0' <= c && c <= '9'
}

/// The value of a decimal digit.
pub open spec fn digit_val(c: char) -> int {
    c as int - '0' as int
}

/// Every character of the sequence is a decimal digit.
pub open spec fn all_digits(s: Seq<char>) -> bool {
    forall|i: int| 0 <= i < s.len() ==> is_digit(s[i])
}

/// The number the digit sequence denotes in base ten.
pub open spec fn digits_value(s: Seq<char>) -> int
    decreases s.len(),
{
    if s.len() <= 0 {
        0
    } else {
        digits_value(s.drop_last()) * 10 + digit_val(s.last())
    }
}

/// The sequence is a well-formed decimal numeral whose value fits in a `u64`.
pub open spec fn parses_to_u64(s: Seq<char>) -> bool {
    s.len() > 0 && all_digits(s) && digits_value(s) <= u64::MAX
}

proof fn lemma_digits_value_nonneg(s: Seq<char>)
    requires
        all_digits(s),
    ensures
        digits_value(s) >= 0,
    decreases s.len(),
{
    if s.len() > 0 {
        assert(all_digits(s.drop_last()));
        lemma_digits_value_nonneg(s.drop_last());
        assert(is_digit(s.last()));
    }
}

/// Reading more digits never shrinks the value: the numeral's prefixes
/// denote at most the full numeral's value.
proof fn lemma_digits_value_prefix(s: Seq<char>, i: int)
    requires
        all_digits(s),
        0 <= i <= s.len(),
    ensures
        digits_value(s.take(i)) <= digits_value(s),
    decreases s.len() - i,
{
    if i == s.len() {
        assert(s.take(i) =~= s);
    } else {
        assert(s.take(i + 1).drop_last() =~= s.take(i));
        assert(s.take(i + 1).last() == s[i]);
        assert(all_digits(s.take(i)));
        lemma_digits_value_nonneg(s.take(i));
        assert(is_digit(s[i]));
        assert(digits_value(s.take(i + 1)) == digits_value(s.take(i)) * 10 + digit_val(s[i]));
        lemma_digits_value_prefix(s, i + 1);
    }
}

/// Parses a decimal numeral: the whole string must consist of digits and the
/// value must fit in a `u64`.
pub fn parse_u64(s: &str) -> (r: Option<u64>)
    ensures
        r is Some <==> parses_to_u64(s@),
        r matches Some(v) ==> v == digits_value(s@),
{
    let n = s.unicode_len();
    if n == 0 {
        return None;
    }
    let mut value: u64 = 0;
    let mut i: usize = 0;
    while i < n
        invariant
            n == s@.len(),
            i <= n,
            all_digits(s@.take(i as int)),
            value == digits_value(s@.take(i as int)),
        decreases n - i,
    {
        let c = s.get_char(i);
        if c < '0' || c > '9' {
            assert(!is_digit(s@[i as int]));
            return None;
        }
        let d: u64 = ((c as u32) - ('0' as u32)) as u64;
        proof {
            assert(s@.take(i as int + 1).drop_last() =~= s@.take(i as int));
            assert(s@.take(i as int + 1).last() == s@[i as int]);
        }
        let next = match value.checked_mul(10) {
            Some(v10) => v10.checked_add(d),
            None => None,
        };
        match next {
            Some(v) => {
                value = v;
            },
            None => {
                proof {
                    lemma_digits_value_nonneg(s@.take(i as int));
                    assert(digits_value(s@.take(i as int + 1)) > u64::MAX);
                    if all_digits(s@) {
                        lemma_digits_value_prefix(s@, i as int + 1);
                    }
                }
                return None;
            },
        }
        i = i + 1;
    }
    proof {
        assert(s@.take(n as int) =~= s@);
    }
    Some(value)
}

/// The `ping` command.
pub struct Ping;

impl Ping {
    /// The command's name.
    pub fn name(&self) -> (r: String)
        ensures
            r@ == "ping"@,
    {
        "ping".to_owned()
    }

    /// The command's description key.
    pub fn description(&self) -> (r: String)
        ensures
            r@ == "GlobalPlugin.PingCommand"@,
    {
        "GlobalPlugin.PingCommand".to_owned()
    }

    /// The command's kind.
    pub fn command_type(&self) -> (r: CommandType)
        ensures
            r == CommandType::ChatInput,
    {
        CommandType::ChatInput
    }
}

/// The immediate response of the `ping` command: the greeting, echoed back
/// with the interaction it answers. The caller appends the measured gateway
/// latency and updates the response afterwards.
#[derive(Clone, Debug, PartialEq)]
pub struct PingCallback {
    pub interaction_id: u64,
    pub token: String,
    pub content: String,
}

/// Builds the immediate response of the `ping` command. Succeeds exactly on
/// an application command interaction; any other interaction kind is a
/// handler failure, propagated unchanged to the dispatcher's caller.
pub fn execute_ping_command(ctx: &CommandContext) -> (r: HarTexResult<PingCallback>)
    ensures
        r is Ok <==> ctx.inner.interaction is ApplicationCommand,
        r matches Ok(c) ==> ctx.inner.interaction matches Interaction::ApplicationCommand(cmd)
            && c.interaction_id == cmd.id && c.token == cmd.token && c.content@
            == "Hello! Did you need anything? :eyes:"@,
        r matches Err(e) ==> e matches HarTexError::HandlerFailure { message } && message@
            == "invalid interaction type: expected ApplicationCommand"@,
{
    match &ctx.inner.interaction {
        Interaction::ApplicationCommand(cmd) => Ok(
            PingCallback {
                interaction_id: cmd.id,
                token: cmd.token.clone(),
                content: "Hello! Did you need anything? :eyes:".to_owned(),
            },
        ),
        _ => Err(
            HarTexError::HandlerFailure {
                message: "invalid interaction type: expected ApplicationCommand".to_owned(),
            },
        ),
    }
}

/// The `about` command.
pub struct About;

impl About {
    /// The command's name.
    pub fn name(&self) -> (r: String)
        ensures
            r@ == "about"@,
    {
        "about".to_owned()
    }

    /// The command's description key.
    pub fn description(&self) -> (r: String)
        ensures
            r@ == "GlobalPlugin.AboutCommand"@,
    {
        "GlobalPlugin.AboutCommand".to_owned()
    }

    /// The command's kind.
    pub fn command_type(&self) -> (r: CommandType)
        ensures
            r == CommandType::ChatInput,
    {
        CommandType::ChatInput
    }
}

/// The response of the `about` command: the embed's variable field, echoed
/// back with the interaction it answers. The embed's fixed texts are the
/// renderer's business.
#[derive(Clone, Debug, PartialEq)]
pub struct AboutCallback {
    pub interaction_id: u64,
    pub token: String,
    /// How many guilds the whitelist currently holds.
    pub whitelisted_guilds: usize,
}

/// Builds the response of the `about` command from the completed whitelist
/// count. Succeeds exactly on an application command interaction; any other
/// interaction kind is a handler failure.
pub fn execute_about_command(ctx: &CommandContext, whitelists: usize) -> (r: HarTexResult<
    AboutCallback,
>)
    ensures
        r is Ok <==> ctx.inner.interaction is ApplicationCommand,
        r matches Ok(c) ==> ctx.inner.interaction matches Interaction::ApplicationCommand(cmd)
            && c.interaction_id == cmd.id && c.token == cmd.token && c.whitelisted_guilds
            == whitelists,
        r matches Err(e) ==> e matches HarTexError::HandlerFailure { message } && message@
            == "invalid interaction type: expected ApplicationCommand"@,
{
    match &ctx.inner.interaction {
        Interaction::ApplicationCommand(cmd) => Ok(
            AboutCallback {
                interaction_id: cmd.id,
                token: cmd.token.clone(),
                whitelisted_guilds: whitelists,
            },
        ),
        _ => Err(
            HarTexError::HandlerFailure {
                message: "invalid interaction type: expected ApplicationCommand".to_owned(),
            },
        ),
    }
}

/// The `userinfo` command.
pub struct Userinfo;

impl Userinfo {
    /// The command's name.
    pub fn name(&self) -> (r: String)
        ensures
            r@ == "userinfo"@,
    {
        "userinfo".to_owned()
    }

    /// The command's description key.
    pub fn description(&self) -> (r: String)
        ensures
            r@ == "InformationPlugin.UserinfoCommand"@,
    {
        "InformationPlugin.UserinfoCommand".to_owned()
    }

    /// The command's kind.
    pub fn command_type(&self) -> (r: CommandType)
        ensures
            r == CommandType::ChatInput,
    {
        CommandType::ChatInput
    }

    /// The options the command accepts: one optional mentionable `user`.
    pub fn optional_cmdopts(&self) -> (r: Vec<CommandOption>)
        ensures
            r@.len() == 1,
            r@[0] matches CommandOption::Mentionable(data) && data.name@ == "user"@
                && data.description@ == "(optional) the user to query the information"@
                && data.required == false,
    {
        let data = BaseCommandOptionData {
            description: "(optional) the user to query the information".to_owned(),
            name: "user".to_owned(),
            required: false,
        };
        let mut opts: Vec<CommandOption> = Vec::new();
        opts.push(CommandOption::Mentionable(data));
        opts
    }
}

/// The option is named `user` and carries a string value.
pub open spec fn is_user_string_option(option: CommandDataOption) -> bool {
    option.name@ == "user"@ && option.value is StringValue
}

/// The string carried by a string-valued option.
pub open spec fn option_string_value(option: CommandDataOption) -> Seq<char> {
    match option.value {
        OptionValue::StringValue(value) => value@,
        OptionValue::Other => Seq::<char>::empty(),
    }
}

/// The value of the first option named `user` that carries a string, if any.
pub open spec fn spec_find_user_option(options: Seq<CommandDataOption>) -> Option<Seq<char>>
    decreases options.len(),
{
    if options.len() == 0 {
        None
    } else if is_user_string_option(options[0]) {
        Some(option_string_value(options[0]))
    } else {
        spec_find_user_option(options.drop_first())
    }
}

/// Whom the `userinfo` command is about.
#[derive(Clone, Copy, Debug, PartialEq, Eq, Structural)]
pub enum UserinfoTarget {
    /// The invoking member; its data already travels with the interaction.
    Invoker { user_id: u64 },
    /// Another user, to be fetched from the client by id.
    Fetch { user_id: u64 },
}

/// The plan the `userinfo` command settles on before any client call.
#[derive(Clone, Debug, PartialEq)]
pub enum UserinfoPlan {
    /// The command was invoked outside a guild: answer with the guild-only
    /// notice and do nothing else.
    GuildOnly { interaction_id: u64, token: String },
    /// Resolve the target user in the guild, then render its information.
    Resolve { interaction_id: u64, token: String, guild_id: u64, target: UserinfoTarget },
}

/// Settles the plan of the `userinfo` command from the interaction alone.
/// Succeeds exactly on an application command that either was invoked outside
/// a guild (then the guild-only notice is the whole plan) or names a
/// resolvable target: the invoking member when no option was passed, or the
/// user whose id the string-valued `user` option carries as a decimal
/// numeral. Every other input is a handler failure.
pub fn execute_userinfo_command(ctx: &CommandContext) -> (r: HarTexResult<UserinfoPlan>)
    ensures
        r matches Err(e) ==> e is HandlerFailure,
        ctx.inner.interaction is Other ==> r is Err,
        ctx.inner.interaction matches Interaction::ApplicationCommand(cmd) ==> {
            if cmd.guild_id is None || cmd.user_id is Some {
                r == Ok::<UserinfoPlan, HarTexError>(
                    UserinfoPlan::GuildOnly { interaction_id: cmd.id, token: cmd.token },
                )
            } else if cmd.options@.len() == 0 {
                match cmd.member_user_id {
                    Some(user_id) => r == Ok::<UserinfoPlan, HarTexError>(
                        UserinfoPlan::Resolve {
                            interaction_id: cmd.id,
                            token: cmd.token,
                            guild_id: cmd.guild_id.unwrap(),
                            target: UserinfoTarget::Invoker { user_id },
                        },
                    ),
                    None => r is Err,
                }
            } else {
                match spec_find_user_option(cmd.options@) {
                    Some(value) => if parses_to_u64(value) {
                        r == Ok::<UserinfoPlan, HarTexError>(
                            UserinfoPlan::Resolve {
                                interaction_id: cmd.id,
                                token: cmd.token,
                                guild_id: cmd.guild_id.unwrap(),
                                target: UserinfoTarget::Fetch {
                                    user_id: digits_value(value) as u64,
                                },
                            },
                        )
                    } else {
                        r is Err
                    },
                    None => r is Err,
                }
            }
        },
{
    let cmd = match &ctx.inner.interaction {
        Interaction::ApplicationCommand(cmd) => cmd,
        _ => {
            return Err(
                HarTexError::HandlerFailure {
                    message: "invalid interaction type: expected ApplicationCommand".to_owned(),
                },
            );
        },
    };
    let guild_id = match cmd.guild_id {
        Some(guild_id) => {
            if cmd.user_id.is_some() {
                return Ok(
                    UserinfoPlan::GuildOnly { interaction_id: cmd.id, token: cmd.token.clone() },
                );
            }
            guild_id
        },
        None => {
            return Ok(
                UserinfoPlan::GuildOnly { interaction_id: cmd.id, token: cmd.token.clone() },
            );
        },
    };
    if cmd.options.len() == 0 {
        match cmd.member_user_id {
            Some(user_id) => Ok(
                UserinfoPlan::Resolve {
                    interaction_id: cmd.id,
                    token: cmd.token.clone(),
                    guild_id,
                    target: UserinfoTarget::Invoker { user_id },
                },
            ),
            None => Err(
                HarTexError::HandlerFailure {
                    message: "missing member data for a guild interaction".to_owned(),
                },
            ),
        }
    } else {
        match find_user_option(&cmd.options) {
            Some(value) => match parse_u64(value.as_str()) {
                Some(user_id) => Ok(
                    UserinfoPlan::Resolve {
                        interaction_id: cmd.id,
                        token: cmd.token.clone(),
                        guild_id,
                        target: UserinfoTarget::Fetch { user_id },
                    },
                ),
                None => Err(
                    HarTexError::HandlerFailure {
                        message: "the user option does not hold a user id".to_owned(),
                    },
                ),
            },
            None => Err(
                HarTexError::HandlerFailure {
                    message: "no string-valued user option was passed".to_owned(),
                },
            ),
        }
    }
}

/// Finds the first option named `user` that carries a string value.
fn find_user_option(options: &Vec<CommandDataOption>) -> (r: Option<&String>)
    ensures
        r matches Some(value) ==> spec_find_user_option(options@) == Some(value@),
        r is None ==> spec_find_user_option(options@) is None,
{
    let user_name: String = "user".to_owned();
    let mut i: usize = 0;
    proof {
        assert(options@.skip(0) =~= options@);
    }
    while i < options.len()
        invariant
            i <= options@.len(),
            user_name@ == "user"@,
            spec_find_user_option(options@) == spec_find_user_option(options@.skip(i as int)),
        decreases options@.len() - i,
    {
        proof {
            assert(options@.skip(i as int)[0] == options@[i as int]);
            assert(options@.skip(i as int).drop_first() =~= options@.skip(i as int + 1));
        }
        let option = &options[i];
        if option.name == user_name {
            match &option.value {
                OptionValue::StringValue(value) => {
                    return Some(value);
                },
                _ => {},
            }
        }
        i = i + 1;
    }
    proof {
        assert(options@.skip(options@.len() as int) =~= Seq::<CommandDataOption>::empty());
    }
    None
}

/// The presence status of a user.
#[derive(Clone, Copy, Debug, PartialEq, Eq, Structural)]
pub enum Status {
    DoNotDisturb,
    Idle,
    Invisible,
    Offline,
    Online,
}

/// The label a status is rendered as.
pub open spec fn spec_status_label(status: Status) -> Seq<char> {
    match status {
        Status::DoNotDisturb => "do not disturb"@,
        Status::Idle => "idle"@,
        Status::Invisible => "invisible"@,
        Status::Offline => "offline"@,
        Status::Online => "online"@,
    }
}

/// Renders a presence status as its label.
pub fn status_label(status: &Status) -> (r: &'static str)
    ensures
        r@ == spec_status_label(*status),
{
    match status {
        Status::DoNotDisturb => "do not disturb",
        Status::Idle => "idle",
        Status::Invisible => "invisible",
        Status::Offline => "offline",
        Status::Online => "online",
    }
}

/// The kind of an activity a presence reports.
#[derive(Clone, Copy, Debug, PartialEq, Eq, Structural)]
pub enum ActivityType {
    Competing,
    Custom,
    Listening,
    Playing,
    Streaming,
    Watching,
}

/// The label an activity kind is rendered as.
pub open spec fn spec_activity_type_label(kind: ActivityType) -> Seq<char> {
    match kind {
        ActivityType::Competing => "Competing"@,
        ActivityType::Custom => "Custom"@,
        ActivityType::Listening => "Listening"@,
        ActivityType::Playing => "Playing"@,
        ActivityType::Streaming => "Streaming"@,
        ActivityType::Watching => "Watching"@,
    }
}

/// Renders an activity kind as its label.
pub fn activity_type_label(kind: &ActivityType) -> (r: &'static str)
    ensures
        r@ == spec_activity_type_label(*kind),
{
    match kind {
        ActivityType::Competing => "Competing",
        ActivityType::Custom => "Custom",
        ActivityType::Listening => "Listening",
        ActivityType::Playing => "Playing",
        ActivityType::Streaming => "Streaming",
        ActivityType::Watching => "Watching",
    }
}

/// One activity a presence reports.
#[derive(Clone, Debug, PartialEq)]
pub struct Activity {
    pub kind: ActivityType,
    pub name: String,
}

/// A user's presence in a guild.
#[derive(Clone, Debug, PartialEq)]
pub struct PresenceData {
    pub status: Status,
    pub activities: Vec<Activity>,
}

/// A user, with what the `userinfo` embed reads.
#[derive(Clone, Debug, PartialEq)]
pub struct UserinfoUser {
    pub id: u64,
    pub name: String,
    pub discriminator: u16,
    /// The hash of the avatar the user uploaded, if any.
    pub avatar: Option<String>,
}

/// A guild member, with what the `userinfo` embed reads.
#[derive(Clone, Debug, PartialEq)]
pub struct UserinfoMember {
    pub nick: Option<String>,
}

/// An avatar hash that denotes an animated avatar.
pub open spec fn spec_animated_hash(hash: Seq<char>) -> bool {
    hash.len() >= 2 && hash[0] == 'a' && hash[1] == '_'
}

/// The format a user's avatar is served in: animated avatars as GIF,
/// everything else as PNG.
pub fn avatar_format(hash: &str) -> (r: CdnResourceFormat)
    ensures
        r == (if spec_animated_hash(hash@) {
            CdnResourceFormat::GIF
        } else {
            CdnResourceFormat::PNG
        }),
{
    let n = hash.unicode_len();
    if n >= 2 {
        let c0 = hash.get_char(0);
        let c1 = hash.get_char(1);
        if c0 == 'a' && c1 == '_' {
            return CdnResourceFormat::GIF;
        }
    }
    CdnResourceFormat::PNG
}

/// The avatar resource of a user: the uploaded avatar in the format its hash
/// calls for, or the default avatar assigned from the discriminator.
pub open spec fn spec_avatar_resource(user: UserinfoUser) -> CdnResource {
    match user.avatar {
        Some(hash) => CdnResource::UserAvatar {
            user_id: user.id,
            hash,
            format: if spec_animated_hash(hash@) {
                CdnResourceFormat::GIF
            } else {
                CdnResourceFormat::PNG
            },
        },
        None => CdnResource::DefaultUserAvatar { discriminator: user.discriminator },
    }
}

/// The `userinfo` embed: every field rendered, as data.
#[derive(Clone, Debug, PartialEq)]
pub struct UserinfoEmbed {
    pub avatar: CdnResource,
    pub username: String,
    pub discriminator: u16,
    pub user_id: u64,
    /// The guild nickname; rendered as absent when the member has none.
    pub nickname: Option<String>,
    /// The presence status; rendered as unknown when no presence is cached.
    pub status: Option<Status>,
    /// The reported activities; rendered as none when empty.
    pub activities: Vec<Activity>,
}

/// Assembles the `userinfo` embed from the resolved user, member and cached
/// presence.
pub fn build_userinfo_embed(
    user: UserinfoUser,
    member: UserinfoMember,
    presence: Option<PresenceData>,
) -> (r: UserinfoEmbed)
    ensures
        r.avatar == spec_avatar_resource(user),
        r.username == user.name,
        r.discriminator == user.discriminator,
        r.user_id == user.id,
        r.nickname == member.nick,
        presence matches Some(p) ==> r.status == Some(p.status) && r.activities == p.activities,
        presence is None ==> r.status is None && r.activities@ == Seq::<Activity>::empty(),
{
    let avatar = match user.avatar {
        Some(hash) => {
            let format = avatar_format(hash.as_str());
            CdnResource::UserAvatar { user_id: user.id, hash, format }
        },
        None => CdnResource::DefaultUserAvatar { discriminator: user.discriminator },
    };
    let (status, activities) = match presence {
        Some(p) => (Some(p.status), p.activities),
        None => (None, Vec::new()),
    };
    proof {
        if presence is None {
            assert(activities@ =~= Seq::<Activity>::empty());
        }
    }
    UserinfoEmbed {
        avatar,
        username: user.name,
        discriminator: user.discriminator,
        user_id: user.id,
        nickname: member.nick,
        status,
        activities,
    }
}

} // verus!
