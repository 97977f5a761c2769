//! The dispatcher and the handlers.

use hartex::cmdsys::ApplicationCommand;
use hartex::cmdsys::Interaction;
use hartex::events::handle_event;
use hartex::events::Dispatched;
use hartex::handler::EventHandler;
use hartex::handler::GuildAction;
use hartex::handler::contains_guild;
use hartex::logging::LogMessage;
use hartex::logging::Severity;
use hartex::model::CommandExecuted;
use hartex::model::Connected;
use hartex::model::Connecting;
use hartex::model::Disconnected;
use hartex::model::Envelope;
use hartex::model::Event;
use hartex::model::GuildCreate;
use hartex::model::HarTexEvent;
use hartex::model::Identifying;
use hartex::model::InteractionCreate;
use hartex::model::MessageCreate;
use hartex::model::Ready;
use hartex::model::Reconnecting;

#[test]
fn unrecognized_variant_is_a_silent_no_op() {
    let envelope = Envelope::Twilight(Event::ShardConnecting(Connecting { shard_id: 4 }));
    let r = handle_event(envelope, 0);
    assert_eq!(r, Ok(Dispatched::Ignored));

    let envelope = Envelope::Twilight(Event::ShardConnected(Connected {
        shard_id: 4,
        heartbeat_interval: 41_250,
    }));
    assert_eq!(handle_event(envelope, 0), Ok(Dispatched::Ignored));

    let envelope = Envelope::Twilight(Event::ShardReconnecting(Reconnecting { shard_id: 4 }));
    assert_eq!(handle_event(envelope, 0), Ok(Dispatched::Ignored));

    let envelope = Envelope::Twilight(Event::ShardDisconnected(Disconnected {
        shard_id: 4,
        code: Some(4000),
        reason: None,
    }));
    assert_eq!(handle_event(envelope, 0), Ok(Dispatched::Ignored));
}

#[test]
fn ready_routes_to_the_startup_report() {
    let envelope = Envelope::Twilight(Event::Ready(Ready {
        user_name: String::from("HarTex"),
        user_id: 100,
        api_version: 9,
    }));
    let r = handle_event(envelope, 1250);
    assert_eq!(
        r,
        Ok(Dispatched::Log(LogMessage::Startup {
            user_name: String::from("HarTex"),
            user_id: 100,
            api_version: 9,
            startup_ms: 1250,
        }))
    );
}

#[test]
fn shard_identifying_routes_to_its_log() {
    let envelope = Envelope::Twilight(Event::ShardIdentifying(Identifying { shard_id: 2 }));
    let r = handle_event(envelope, 0);
    assert_eq!(r, Ok(Dispatched::Log(LogMessage::ShardIdentifying { shard_id: 2 })));
}

#[test]
fn guild_create_routes_to_the_whitelist_check() {
    let payload = GuildCreate { guild_id: 9000 };
    let envelope = Envelope::Twilight(Event::GuildCreate(payload));
    assert_eq!(handle_event(envelope, 0), Ok(Dispatched::GuildCheck(payload)));
}

#[test]
fn interaction_create_routes_to_the_command_flow() {
    let payload = InteractionCreate {
        interaction: Interaction::ApplicationCommand(ApplicationCommand {
            id: 11,
            token: String::from("tok"),
            guild_id: Some(900),
            member_user_id: Some(42),
            user_id: None,
            options: Vec::new(),
        }),
    };
    let envelope = Envelope::Twilight(Event::InteractionCreate(payload.clone()));
    assert_eq!(handle_event(envelope, 0), Ok(Dispatched::Command(payload)));
}

#[test]
fn message_create_routes_to_the_experience_flow() {
    let payload = MessageCreate { guild_id: Some(1), author_id: 2, channel_id: 3, message_id: 4 };
    let envelope = Envelope::Twilight(Event::MessageCreate(payload));
    assert_eq!(handle_event(envelope, 0), Ok(Dispatched::Experience(payload)));
}

#[test]
fn custom_command_executed_routes_to_its_log() {
    let envelope = Envelope::Custom(HarTexEvent::CommandExecuted(CommandExecuted {
        command: String::from("ping"),
        guild_name: String::from("A Guild"),
    }));
    let r = handle_event(envelope, 0);
    assert_eq!(
        r,
        Ok(Dispatched::Log(LogMessage::CommandExecuted {
            command: String::from("ping"),
            guild_name: String::from("A Guild"),
        }))
    );
}

#[test]
fn guild_create_decides_by_whitelist_membership() {
    let whitelist = vec![5, 9000, 77];
    assert!(contains_guild(&whitelist, 9000));
    assert!(!contains_guild(&whitelist, 9001));

    let (action, log) = EventHandler::guild_create(&GuildCreate { guild_id: 9000 }, &whitelist);
    assert_eq!(action, GuildAction::Stay);
    assert_eq!(log, LogMessage::GuildWhitelisted { guild_id: 9000 });
    assert_eq!(log.severity(), Severity::Debug);
    let (action, log) = EventHandler::guild_create(&GuildCreate { guild_id: 9001 }, &whitelist);
    assert_eq!(action, GuildAction::DmOwnerAndLeave);
    assert_eq!(log, LogMessage::GuildNotWhitelisted { guild_id: 9001 });
}

#[test]
fn experience_is_zero_while_the_award_is_cached() {
    let payload = MessageCreate { guild_id: Some(1), author_id: 2, channel_id: 3, message_id: 4 };
    let request = EventHandler::message_create(&payload, true, 20);
    assert_eq!(request.xp, 0);
    assert_eq!(request.guild_id, 1);
    assert_eq!(request.user_id, 2);

    let request = EventHandler::message_create(&payload, false, 20);
    assert_eq!(request.xp, 20);
}

#[test]
fn followup_congratulates_exactly_on_level_up() {
    let payload = MessageCreate { guild_id: Some(1), author_id: 2, channel_id: 3, message_id: 4 };

    let action = EventHandler::message_create_followup(&payload, 20, true, 5);
    let reply = action.reply.expect("a level-up deserves a congratulation");
    assert_eq!(reply.channel_id, 3);
    assert_eq!(reply.message_id, 4);
    assert_eq!(reply.user_id, 2);
    assert_eq!(reply.level, 5);
    assert_eq!(action.cache_for_secs, Some(60));

    let action = EventHandler::message_create_followup(&payload, 0, false, 4);
    assert!(action.reply.is_none());
    assert!(action.cache_for_secs.is_none());
}

#[test]
fn shard_handlers_report_their_payloads() {
    let log = EventHandler::shard_connecting(Connecting { shard_id: 1 });
    assert_eq!(log, LogMessage::ShardConnecting { shard_id: 1 });
    assert_eq!(log.severity(), Severity::Verbose);

    let log = EventHandler::shard_connected(Connected { shard_id: 1, heartbeat_interval: 41_250 });
    assert_eq!(log, LogMessage::ShardConnected { shard_id: 1, heartbeat_interval: 41_250 });

    let log = EventHandler::shard_reconnecting(Reconnecting { shard_id: 1 });
    assert_eq!(log, LogMessage::ShardReconnecting { shard_id: 1 });

    let log = EventHandler::shard_disconnected(Disconnected {
        shard_id: 1,
        code: Some(4000),
        reason: Some(String::from("invalid session")),
    });
    assert_eq!(
        log,
        LogMessage::ShardDisconnected {
            shard_id: 1,
            code: Some(4000),
            reason: Some(String::from("invalid session")),
        }
    );
}

#[test]
fn command_lifecycle_logs_carry_their_severities() {
    let executed = EventHandler::command_executed(CommandExecuted {
        command: String::from("about"),
        guild_name: String::from("A Guild"),
    });
    assert_eq!(executed.severity(), Severity::Info);

    let failed = EventHandler::command_failed(hartex::model::CommandFailed {
        command: String::from("about"),
        error: String::from("remote operation failed"),
    });
    assert_eq!(
        failed,
        LogMessage::CommandFailed {
            command: String::from("about"),
            error: String::from("remote operation failed"),
        }
    );
    assert_eq!(failed.severity(), Severity::Error);

    let received = EventHandler::command_received(hartex::model::CommandReceived {});
    assert_eq!(received, LogMessage::CommandReceived);
    assert_eq!(received.severity(), Severity::Verbose);

    let identified = EventHandler::command_identified(String::from("userinfo"));
    assert_eq!(identified, LogMessage::CommandIdentified { command: String::from("userinfo") });
    assert_eq!(identified.severity(), Severity::Verbose);
}

#[test]
fn startup_log_is_informational() {
    let log = EventHandler::ready(
        Ready { user_name: String::from("HarTex"), user_id: 1, api_version: 9 },
        300,
    );
    assert_eq!(log.severity(), Severity::Info);
}
