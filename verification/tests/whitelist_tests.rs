//! The deferred whitelist query task.

use hartex::error::HarTexError;
use hartex::logging::LogMessage;
use hartex::whitelist::GetWhitelistedGuilds;
use hartex::whitelist::RemoteEvent;
use hartex::whitelist::TaskPoll;
use hartex::whitelist::WhitelistedGuild;

#[test]
fn setup_runs_exactly_once_across_polls() {
    let mut task = GetWhitelistedGuilds::default();
    let mut setup_logs: u32 = 0;

    let (status, log) = task.poll(Ok(String::from("SECRET-REDACTED")), RemoteEvent::Pending);
    assert_eq!(status, TaskPoll::Pending);
    if log == Some(LogMessage::ExecutingWhitelistQuery) {
        setup_logs += 1;
    }

    let (status, log) = task.poll(Ok(String::from("SECRET-REDACTED")), RemoteEvent::Pending);
    assert_eq!(status, TaskPoll::Pending);
    if log == Some(LogMessage::ExecutingWhitelistQuery) {
        setup_logs += 1;
    }
    assert!(log.is_none());

    assert_eq!(setup_logs, 1);
}

#[test]
fn missing_configuration_completes_on_the_first_poll() {
    let mut task = GetWhitelistedGuilds::default();
    let (status, log) = task.poll(
        Err(String::from("failed to get database credentials")),
        RemoteEvent::Pending,
    );
    assert_eq!(log, Some(LogMessage::ExecutingWhitelistQuery));
    match status {
        TaskPoll::Ready(Err(HarTexError::ConfigurationMissing { message })) => {
            assert_eq!(message, "failed to get database credentials");
        }
        other => panic!("expected a configuration failure, got {other:?}"),
    }
}

#[test]
fn connection_failure_is_normalized() {
    let mut task = GetWhitelistedGuilds::default();
    let (status, _) = task.poll(
        Ok(String::from("SECRET-REDACTED")),
        RemoteEvent::ConnectFailed { message: String::from("pool refused") },
    );
    assert_eq!(
        status,
        TaskPoll::Ready(Err(HarTexError::ConnectionFailure {
            message: String::from("pool refused"),
        }))
    );
}

#[test]
fn query_failure_is_normalized() {
    let mut task = GetWhitelistedGuilds::default();
    let (status, _) = task.poll(Ok(String::from("SECRET-REDACTED")), RemoteEvent::Pending);
    assert_eq!(status, TaskPoll::Pending);
    let (status, log) = task.poll(
        Ok(String::from("SECRET-REDACTED")),
        RemoteEvent::QueryFailed { message: String::from("relation does not exist") },
    );
    assert!(log.is_none());
    assert_eq!(
        status,
        TaskPoll::Ready(Err(HarTexError::RemoteOperationFailure {
            message: String::from("relation does not exist"),
        }))
    );
}

#[test]
fn rows_complete_the_task_with_its_result() {
    let mut task = GetWhitelistedGuilds::default();
    let rows = vec![
        WhitelistedGuild { guild_id: 1, name: String::from("First") },
        WhitelistedGuild { guild_id: 2, name: String::from("Second") },
    ];
    let (status, log) = task.poll(
        Ok(String::from("SECRET-REDACTED")),
        RemoteEvent::Rows(rows.clone()),
    );
    assert_eq!(log, Some(LogMessage::ExecutingWhitelistQuery));
    assert_eq!(status, TaskPoll::Ready(Ok(rows)));
}

#[test]
fn error_messages_are_reachable() {
    let error = HarTexError::ConfigurationMissing { message: String::from("no credentials") };
    assert_eq!(error.message().as_str(), "no credentials");
    let error = HarTexError::HandlerFailure { message: String::from("handler said no") };
    assert_eq!(error.message().as_str(), "handler said no");
    let error = HarTexError::UnrecognizedVariant { message: String::from("unknown") };
    assert_eq!(error.message().as_str(), "unknown");
}
