//! The supervisor: one slot that holds the handle of the running backend, or
//! nothing, and the two conversations that fill and empty it.
//!
//! A conversation starts with `Requested`. Each step returns an action; where
//! the action asks for outside work, the caller performs it and reports the
//! outcome as the next event, until a step returns an answer.

use vstd::prelude::*;
use vstd::string::*;

verus! {

/// How long the caller waits after a successful spawn before it answers, in
/// milliseconds. The wait gives the backend a moment to come up; it is no
/// readiness check.
pub const GRACE_PERIOD_MILLIS: u64 = 500;

/// The name of the executable that is started as the backend.
pub open spec fn sidecar_text() -> Seq<char> {
    "localai-backend"@
}

/// The answer to a start request while a backend is tracked.
pub open spec fn already_running_text() -> Seq<char> {
    "Backend already running"@
}

/// The answer to a start request that spawned the backend.
pub open spec fn started_text() -> Seq<char> {
    "Backend started"@
}

/// The error for a launch command that could not be prepared.
pub open spec fn command_failure_text(cause: Seq<char>) -> Seq<char> {
    "Failed to create sidecar command: "@ + cause
}

/// The error for a process that could not be spawned.
pub open spec fn spawn_failure_text(cause: Seq<char>) -> Seq<char> {
    "Failed to spawn backend: "@ + cause
}

/// The answer to a stop request that killed the backend.
pub open spec fn stopped_text() -> Seq<char> {
    "Backend stopped"@
}

/// The answer to a stop request while nothing is tracked.
pub open spec fn not_running_text() -> Seq<char> {
    "Backend was not running"@
}

/// The error for a process that could not be killed.
pub open spec fn kill_failure_text(cause: Seq<char>) -> Seq<char> {
    "Failed to kill backend: "@ + cause
}

/// The supervisor's state: the handle of the backend process while one is
/// tracked. `H` is whatever the caller uses to reach a running process; the
/// supervisor stores it and hands it back, and never looks inside.
#[derive(Debug)]
pub struct BackendState<H> {
    process: Option<H>,
}

impl<H> View for BackendState<H> {
    type V = Option<H>;

    /// The handle that is held, if any.
    closed spec fn view(&self) -> Option<H> {
        self.process
    }
}

impl<H> BackendState<H> {
    /// A supervisor that tracks nothing.
    pub fn new() -> (state: Self)
        ensures
            state@ is None,
    {
        BackendState { process: None }
    }
}

impl<H> Default for BackendState<H> {
    fn default() -> (state: Self)
        ensures
            state@ is None,
    {
        BackendState::new()
    }
}

/// What a start conversation is told.
#[derive(Debug, PartialEq, Eq)]
pub enum StartEvent<H> {
    /// A caller asks for the backend to be started.
    Requested,
    /// The launch command could not be prepared; the text says why.
    CommandFailed(String),
    /// The process could not be spawned; the text says why.
    SpawnFailed(String),
    /// The process runs; this is its handle.
    Spawned(H),
}

/// What a start conversation asks of the caller.
#[derive(Debug, PartialEq, Eq)]
pub enum StartAction<H> {
    /// Answer the request with this result. The conversation is over.
    Reply(Result<String, String>),
    /// Spawn the executable of this name, without arguments, and report
    /// `Spawned`, `CommandFailed` or `SpawnFailed`.
    Spawn { executable: String },
    /// The new handle is tracked. Relay the events of its process, wait for
    /// the grace period, then answer with `Ok(reply)`. The conversation is
    /// over.
    Watch { grace_millis: u64, reply: String },
    /// A backend was tracked already, so the new handle was not stored and
    /// comes back. Dispose of its process and answer with `Ok(reply)`. The
    /// conversation is over.
    Discard { handle: H, reply: String },
}

/// What a stop conversation is told.
#[derive(Debug, PartialEq, Eq)]
pub enum StopEvent {
    /// A caller asks for the backend to be stopped.
    Requested,
    /// The process was killed.
    Killed,
    /// The process could not be killed; the text says why.
    KillFailed(String),
}

/// What a stop conversation asks of the caller.
#[derive(Debug, PartialEq, Eq)]
pub enum StopAction<H> {
    /// Answer the request with this result. The conversation is over.
    Reply(Result<String, String>),
    /// The handle is no longer tracked. Kill its process and report `Killed`
    /// or `KillFailed`.
    Kill(H),
}

/// `StartEvent` with its texts as sequences of characters.
pub enum StartEventView<H> {
    Requested,
    CommandFailed(Seq<char>),
    SpawnFailed(Seq<char>),
    Spawned(H),
}

/// `StartAction` with its texts as sequences of characters.
pub enum StartActionView<H> {
    Reply(Result<Seq<char>, Seq<char>>),
    Spawn { executable: Seq<char> },
    Watch { grace_millis: u64, reply: Seq<char> },
    Discard { handle: H, reply: Seq<char> },
}

/// `StopEvent` with its text as a sequence of characters.
pub enum StopEventView {
    Requested,
    Killed,
    KillFailed(Seq<char>),
}

/// `StopAction` with its texts as sequences of characters.
pub enum StopActionView<H> {
    Reply(Result<Seq<char>, Seq<char>>),
    Kill(H),
}

/// An answer with its text as a sequence of characters.
pub open spec fn reply_view(reply: Result<String, String>) -> Result<Seq<char>, Seq<char>> {
    match reply {
        Ok(text) => Ok(text@),
        Err(text) => Err(text@),
    }
}

impl<H> View for StartEvent<H> {
    type V = StartEventView<H>;

    open spec fn view(&self) -> StartEventView<H> {
        match *self {
            StartEvent::Requested => StartEventView::Requested,
            StartEvent::CommandFailed(cause) => StartEventView::CommandFailed(cause@),
            StartEvent::SpawnFailed(cause) => StartEventView::SpawnFailed(cause@),
            StartEvent::Spawned(handle) => StartEventView::Spawned(handle),
        }
    }
}

impl<H> View for StartAction<H> {
    type V = StartActionView<H>;

    open spec fn view(&self) -> StartActionView<H> {
        match *self {
            StartAction::Reply(reply) => StartActionView::Reply(reply_view(reply)),
            StartAction::Spawn { executable } => StartActionView::Spawn { executable: executable@ },
            StartAction::Watch { grace_millis, reply } => StartActionView::Watch {
                grace_millis,
                reply: reply@,
            },
            StartAction::Discard { handle, reply } => StartActionView::Discard {
                handle,
                reply: reply@,
            },
        }
    }
}

impl View for StopEvent {
    type V = StopEventView;

    open spec fn view(&self) -> StopEventView {
        match *self {
            StopEvent::Requested => StopEventView::Requested,
            StopEvent::Killed => StopEventView::Killed,
            StopEvent::KillFailed(cause) => StopEventView::KillFailed(cause@),
        }
    }
}

impl<H> View for StopAction<H> {
    type V = StopActionView<H>;

    open spec fn view(&self) -> StopActionView<H> {
        match *self {
            StopAction::Reply(reply) => StopActionView::Reply(reply_view(reply)),
            StopAction::Kill(handle) => StopActionView::Kill(handle),
        }
    }
}

/// What the status query answers for a slot: whether a handle is held.
pub open spec fn status<H>(held: Option<H>) -> bool {
    held is Some
}

/// The slot after a start step. Only a spawned process fills it, and only
/// while it is empty: a handle that is held is never replaced.
pub open spec fn start_slot<H>(held: Option<H>, event: StartEventView<H>) -> Option<H> {
    match event {
        StartEventView::Spawned(handle) => if held is None {
            Some(handle)
        } else {
            held
        },
        _ => held,
    }
}

/// The action of a start step.
pub open spec fn start_action<H>(held: Option<H>, event: StartEventView<H>) -> StartActionView<H> {
    match event {
        StartEventView::Requested => if held is Some {
            StartActionView::Reply(Ok(already_running_text()))
        } else {
            StartActionView::Spawn { executable: sidecar_text() }
        },
        StartEventView::CommandFailed(cause) => StartActionView::Reply(
            Err(command_failure_text(cause)),
        ),
        StartEventView::SpawnFailed(cause) => StartActionView::Reply(
            Err(spawn_failure_text(cause)),
        ),
        StartEventView::Spawned(handle) => if held is None {
            StartActionView::Watch { grace_millis: GRACE_PERIOD_MILLIS, reply: started_text() }
        } else {
            StartActionView::Discard { handle, reply: already_running_text() }
        },
    }
}

/// The slot after a stop step. A stop request empties it, before the kill is
/// attempted; what the kill reports changes nothing.
pub open spec fn stop_slot<H>(held: Option<H>, event: StopEventView) -> Option<H> {
    match event {
        StopEventView::Requested => None,
        _ => held,
    }
}

/// The action of a stop step.
pub open spec fn stop_action<H>(held: Option<H>, event: StopEventView) -> StopActionView<H> {
    match event {
        StopEventView::Requested => match held {
            Some(handle) => StopActionView::Kill(handle),
            None => StopActionView::Reply(Ok(not_running_text())),
        },
        StopEventView::Killed => StopActionView::Reply(Ok(stopped_text())),
        StopEventView::KillFailed(cause) => StopActionView::Reply(Err(kill_failure_text(cause))),
    }
}

/// One step of a start conversation.
///
/// A request is answered at once while a backend is tracked, with the slot
/// untouched and no spawn asked for, and asks for a spawn otherwise. A
/// failure report becomes the error answer and leaves the slot as it was. A
/// spawned process is tracked if the slot is empty; if a backend is tracked
/// already, it stays and the new handle comes back for disposal.
pub fn start_backend<H>(
    state: &mut BackendState<H>,
    event: StartEvent<H>,
) -> (action: StartAction<H>)
    ensures
        final(state)@ == start_slot(old(state)@, event@),
        action@ == start_action(old(state)@, event@),
        status(old(state)@) && event@ is Requested ==> final(state)@ == old(state)@ && action@
            == StartActionView::<H>::Reply(Ok(already_running_text())),
{
    match event {
        StartEvent::Requested => {
            if state.process.is_some() {
                StartAction::Reply(Ok(String::from_str("Backend already running")))
            } else {
                StartAction::Spawn { executable: String::from_str("localai-backend") }
            }
        },
        StartEvent::CommandFailed(cause) => {
            let text = String::from_str("Failed to create sidecar command: ").concat(
                cause.as_str(),
            );
            StartAction::Reply(Err(text))
        },
        StartEvent::SpawnFailed(cause) => {
            let text = String::from_str("Failed to spawn backend: ").concat(cause.as_str());
            StartAction::Reply(Err(text))
        },
        StartEvent::Spawned(handle) => {
            if state.process.is_some() {
                StartAction::Discard { handle, reply: String::from_str("Backend already running") }
            } else {
                state.process = Some(handle);
                StartAction::Watch {
                    grace_millis: GRACE_PERIOD_MILLIS,
                    reply: String::from_str("Backend started"),
                }
            }
        },
    }
}

/// One step of a stop conversation.
///
/// A request takes the handle out of the slot and asks for the kill, or is
/// answered at once while nothing is tracked. The report of the kill becomes
/// the answer; the slot is empty by then whatever the report says.
pub fn stop_backend<H>(state: &mut BackendState<H>, event: StopEvent) -> (action: StopAction<H>)
    ensures
        final(state)@ == stop_slot(old(state)@, event@),
        action@ == stop_action(old(state)@, event@),
        !status(old(state)@) && event@ is Requested ==> final(state)@ == old(state)@ && action@
            == StopActionView::<H>::Reply(Ok(not_running_text())),
{
    match event {
        StopEvent::Requested => {
            match state.process.take() {
                Some(handle) => StopAction::Kill(handle),
                None => StopAction::Reply(Ok(String::from_str("Backend was not running"))),
            }
        },
        StopEvent::Killed => StopAction::Reply(Ok(String::from_str("Backend stopped"))),
        StopEvent::KillFailed(cause) => {
            let text = String::from_str("Failed to kill backend: ").concat(cause.as_str());
            StopAction::Reply(Err(text))
        },
    }
}

/// Whether a backend process is tracked. Reads the slot and nothing else.
pub fn get_backend_status<H>(state: &BackendState<H>) -> (running: bool)
    ensures
        running == status(state@),
{
    state.process.is_some()
}

/// The step for the application's shutdown: empties the slot and hands out
/// the handle that was held, for the caller to kill its process. Whether
/// that kill succeeds is of no concern to the supervisor.
pub fn shutdown<H>(state: &mut BackendState<H>) -> (handle: Option<H>)
    ensures
        handle == old(state)@,
        final(state)@ is None,
{
    state.process.take()
}

} // verus!
