//! The whitelist query, a deferred task.
//!
//! [`GetWhitelistedGuilds`] is constructible without side effects. Its
//! fallible setup — reading the database credentials and beginning the remote
//! query — runs on the first poll, exactly once per instance, and is never
//! retried. Once the setup has run, every poll delegates to the remote
//! operation until it completes; each failure is normalized into one
//! [`HarTexError`] form carrying a human-readable message.
//!
//! The remote work itself (connecting, running the query) suspends and is
//! performed by the caller, who reports its progress back as a
//! [`RemoteEvent`] on each poll.

use vstd::prelude::*;
use crate::error::HarTexError;
use crate::error::HarTexResult;
use crate::logging::LogMessage;

verus! {

/// One whitelisted guild, as the whitelist store records it.
#[derive(Clone, Debug, PartialEq)]
pub struct WhitelistedGuild {
    pub guild_id: u64,
    pub name: String,
}

/// The lifecycle phase of a deferred task.
#[derive(Clone, Copy, Debug, PartialEq, Eq, Structural)]
pub enum TaskPhase {
    /// Constructed; no side effect has been performed yet.
    NotStarted,
    /// Setup succeeded; the remote operation is under way.
    Running,
    /// The task completed and handed out its result.
    Done,
}

/// The progress of the remote operation, as the caller observed it since the
/// previous poll.
#[derive(Clone, Debug, PartialEq)]
pub enum RemoteEvent {
    /// The remote operation has not finished yet.
    Pending,
    /// The connection to the database pool could not be established.
    ConnectFailed { message: String },
    /// The query was issued and failed.
    QueryFailed { message: String },
    /// The query succeeded with the fully materialized rows.
    Rows(Vec<WhitelistedGuild>),
}

/// The outcome of one poll.
#[derive(Debug, PartialEq)]
pub enum TaskPoll {
    /// Not complete yet; poll again once the remote operation progressed.
    Pending,
    /// Complete, with the task's result.
    Ready(HarTexResult<Vec<WhitelistedGuild>>),
}

/// What one report of remote progress does to a running task: the phase it
/// moves to and the poll outcome it yields, with each failure normalized.
pub open spec fn spec_remote_step(event: RemoteEvent) -> (TaskPhase, TaskPoll) {
    match event {
        RemoteEvent::Pending => (TaskPhase::Running, TaskPoll::Pending),
        RemoteEvent::ConnectFailed { message } => (
            TaskPhase::Done,
            TaskPoll::Ready(Err(HarTexError::ConnectionFailure { message })),
        ),
        RemoteEvent::QueryFailed { message } => (
            TaskPhase::Done,
            TaskPoll::Ready(Err(HarTexError::RemoteOperationFailure { message })),
        ),
        RemoteEvent::Rows(rows) => (TaskPhase::Done, TaskPoll::Ready(Ok(rows))),
    }
}

/// Gets the whitelisted guilds of the application: a deferred task over the
/// whitelist store.
pub struct GetWhitelistedGuilds {
    phase: TaskPhase,
    setup_attempts: u64,
}

impl GetWhitelistedGuilds {
    /// The task's lifecycle phase.
    pub closed spec fn spec_phase(&self) -> TaskPhase {
        self.phase
    }

    /// How many times the task has performed its setup side effect.
    pub closed spec fn spec_setup_attempts(&self) -> u64 {
        self.setup_attempts
    }

    /// The task invariant: setup has run exactly once, unless the task has
    /// not started, in which case it has not run at all.
    pub open spec fn wf(&self) -> bool {
        &&& self.spec_setup_attempts() <= 1
        &&& (self.spec_phase() == TaskPhase::NotStarted <==> self.spec_setup_attempts() == 0)
    }

    /// Performs the setup side effect: reads the credentials and begins the
    /// remote query. Runs at most once per instance; a missing credential
    /// completes the task at once with `ConfigurationMissing`, never retried.
    fn start(&mut self, credentials: Result<String, String>) -> (r: (HarTexResult<
        (),
    >, LogMessage))
        requires
            old(self).wf(),
            old(self).spec_phase() == TaskPhase::NotStarted,
        ensures
            final(self).wf(),
            final(self).spec_setup_attempts() == old(self).spec_setup_attempts() + 1,
            r.1 == LogMessage::ExecutingWhitelistQuery,
            credentials matches Ok(_) ==> r.0 == Ok::<(), HarTexError>(())
                && final(self).spec_phase() == TaskPhase::Running,
            credentials matches Err(message) ==> r.0 == Err::<(), HarTexError>(
                HarTexError::ConfigurationMissing { message },
            ) && final(self).spec_phase() == TaskPhase::Done,
    {
        self.setup_attempts = self.setup_attempts + 1;
        match credentials {
            Ok(_credentials) => {
                self.phase = TaskPhase::Running;
                (Ok(()), LogMessage::ExecutingWhitelistQuery)
            },
            Err(message) => {
                self.phase = TaskPhase::Done;
                (
                    Err(HarTexError::ConfigurationMissing { message }),
                    LogMessage::ExecutingWhitelistQuery,
                )
            },
        }
    }

    /// Applies one report of remote progress to a running task.
    fn remote_step(&mut self, event: RemoteEvent) -> (r: TaskPoll)
        requires
            old(self).wf(),
            old(self).spec_phase() == TaskPhase::Running,
        ensures
            final(self).wf(),
            final(self).spec_setup_attempts() == old(self).spec_setup_attempts(),
            final(self).spec_phase() == spec_remote_step(event).0,
            r == spec_remote_step(event).1,
    {
        match event {
            RemoteEvent::Pending => TaskPoll::Pending,
            RemoteEvent::ConnectFailed { message } => {
                self.phase = TaskPhase::Done;
                TaskPoll::Ready(Err(HarTexError::ConnectionFailure { message }))
            },
            RemoteEvent::QueryFailed { message } => {
                self.phase = TaskPhase::Done;
                TaskPoll::Ready(Err(HarTexError::RemoteOperationFailure { message }))
            },
            RemoteEvent::Rows(rows) => {
                self.phase = TaskPhase::Done;
                TaskPoll::Ready(Ok(rows))
            },
        }
    }

    /// Polls the task. On the first poll the setup runs — exactly then is the
    /// starting instrumentation entry returned — and a missing credential
    /// completes the task at once with `ConfigurationMissing`. On this and
    /// every later poll of a running task, the reported remote progress
    /// decides the outcome. A completed task hands out its result with the
    /// completing poll and is not polled again.
    pub fn poll(&mut self, credentials: Result<String, String>, event: RemoteEvent) -> (r: (
        TaskPoll,
        Option<LogMessage>,
    ))
        requires
            old(self).wf(),
            old(self).spec_phase() != TaskPhase::Done,
        ensures
            final(self).wf(),
            final(self).spec_setup_attempts() == if old(self).spec_phase()
                == TaskPhase::NotStarted {
                old(self).spec_setup_attempts() + 1
            } else {
                old(self).spec_setup_attempts() as int
            },
            r.1 == if old(self).spec_phase() == TaskPhase::NotStarted {
                Some(LogMessage::ExecutingWhitelistQuery)
            } else {
                None::<LogMessage>
            },
            old(self).spec_phase() == TaskPhase::NotStarted ==> (credentials matches Err(message)
                ==> r.0 == TaskPoll::Ready(Err(HarTexError::ConfigurationMissing { message }))
                && final(self).spec_phase() == TaskPhase::Done),
            old(self).spec_phase() == TaskPhase::Running || credentials is Ok ==> r.0
                == spec_remote_step(event).1 && final(self).spec_phase()
                == spec_remote_step(event).0,
    {
        match self.phase {
            TaskPhase::NotStarted => {
                let (started, log) = self.start(credentials);
                match started {
                    Ok(_) => (self.remote_step(event), Some(log)),
                    Err(error) => (TaskPoll::Ready(Err(error)), Some(log)),
                }
            },
            _ => (self.remote_step(event), None),
        }
    }
}

impl Default for GetWhitelistedGuilds {
    /// A fresh task: not started, owning nothing externally observable, and
    /// with no setup performed.
    fn default() -> (r: Self)
        ensures
            r.wf(),
            r.spec_phase() == TaskPhase::NotStarted,
            r.spec_setup_attempts() == 0,
    {
        GetWhitelistedGuilds { phase: TaskPhase::NotStarted, setup_attempts: 0u64 }
    }
}

/// However often a task is polled before completion, its setup side effect is
/// performed exactly once: a well-formed task that has left its not-started
/// phase has performed setup exactly once, and a not-started one not at all.
/// Together with the contract of [`GetWhitelistedGuilds::poll`] — the setup
/// count rises only on the poll that leaves the not-started phase — a task
/// polled twice before completion performs its setup on the first poll only.
pub proof fn lemma_setup_exactly_once(t: GetWhitelistedGuilds)
    requires
        t.wf(),
    ensures
        t.spec_setup_attempts() <= 1,
        t.spec_phase() != TaskPhase::NotStarted ==> t.spec_setup_attempts() == 1,
        t.spec_phase() == TaskPhase::NotStarted ==> t.spec_setup_attempts() == 0,
{
}

} // verus!
