//! The transport listener lifecycle and its graceful-shutdown protocol.
//!
//! A listener runs over one of two transports. Its life is the state
//! machine below: `NotStarted` until the caller starts it, `Running` while
//! it accepts connections or pipe opens, `ShuttingDown` once the
//! coordinator has signaled, and `Stopped` once the background execution
//! context has been joined. The surrounding code performs the blocking
//! work (bind, accept, open, read, join) and feeds the outcome back as
//! events; every decision about what to do next is taken here.

use vstd::prelude::*;

verus! {

/// How many times the shutdown coordinator of the pipe transport opens the
/// pipe for writing, non-blocking, to unblock a reader stuck in a blocking
/// open. Empirical: at least one attempt landing is enough, because the
/// shutdown flag check that follows the unblock is authoritative.
pub const UNBLOCK_ATTEMPTS: usize = 3;

/// The two interchangeable transports.
#[derive(Debug, Clone, Copy, PartialEq, Eq, Structural)]
pub enum Transport {
    Socket,
    Pipe,
}

/// The conceptual lifecycle of a listener.
#[derive(Debug, Clone, Copy, PartialEq, Eq, Structural)]
pub enum ListenerState {
    NotStarted,
    Running,
    ShuttingDown,
    Stopped,
}

/// What the outside world reports to the listener.
#[derive(Debug, Clone, Copy, PartialEq, Eq, Structural)]
pub enum ListenerEvent {
    /// The caller asked the listener to run; bind or pipe creation
    /// succeeded.
    StartRequested,
    /// A new inbound connection arrived (socket), or the blocking
    /// open-for-read returned (pipe).
    ConnectionReady,
    /// One session ended: the peer disconnected, or the pipe writer side
    /// closed (end-of-stream).
    SessionEnded,
    /// The shutdown coordinator signaled.
    ShutdownSignaled,
    /// The accept/read loop returned.
    LoopExited,
    /// The background execution context was joined.
    Joined,
}

/// What the surrounding code must do next.
#[derive(Debug, Clone, Copy, PartialEq, Eq, Structural)]
pub enum ListenerAction {
    /// Enter the accept/read loop.
    BeginAccepting,
    /// Socket only: hand the connection to an independent concurrent
    /// reader task; the listener keeps accepting.
    SpawnSessionReader,
    /// Pipe only: read every line of the open pipe until end-of-stream,
    /// parsing and enqueuing each.
    DrainSession,
    /// Pipe only: perform the next blocking open-for-read.
    ReopenPipe,
    /// Leave the accept/read loop.
    ExitLoop,
    /// Pipe only: open the pipe for writing, non-blocking, up to
    /// `UNBLOCK_ATTEMPTS` times, ignoring every failure, to unblock a
    /// pending blocking open on the reader side.
    NudgeOpen,
    /// Join the background execution context.
    JoinBackground,
    /// Nothing.
    DoNothing,
}

/// The transition function of the listener lifecycle.
pub open spec fn spec_listener_step(
    transport: Transport,
    state: ListenerState,
    event: ListenerEvent,
) -> (ListenerState, ListenerAction) {
    match (state, event) {
        (ListenerState::NotStarted, ListenerEvent::StartRequested) => (
            ListenerState::Running,
            ListenerAction::BeginAccepting,
        ),
        // A listener shut down before it ever ran never starts: it stops
        // at once, with no background context to join.
        (ListenerState::NotStarted, ListenerEvent::ShutdownSignaled) => (
            ListenerState::Stopped,
            ListenerAction::DoNothing,
        ),
        (ListenerState::Running, ListenerEvent::ConnectionReady) => (
            ListenerState::Running,
            if transport is Socket {
                ListenerAction::SpawnSessionReader
            } else {
                ListenerAction::DrainSession
            },
        ),
        // Socket sessions run in independent tasks, so their end does not
        // concern the accept loop; the pipe reader loops back to reopen.
        (ListenerState::Running, ListenerEvent::SessionEnded) => (
            ListenerState::Running,
            if transport is Socket {
                ListenerAction::DoNothing
            } else {
                ListenerAction::ReopenPipe
            },
        ),
        // The socket loop observes the signal on its next scheduling
        // opportunity and exits; the pipe coordinator must first unblock
        // the reader's blocking open.
        (ListenerState::Running, ListenerEvent::ShutdownSignaled) => (
            ListenerState::ShuttingDown,
            if transport is Socket {
                ListenerAction::ExitLoop
            } else {
                ListenerAction::NudgeOpen
            },
        ),
        // If shutdown races with a writer actually connecting, the pipe
        // reader drains a final batch of real commands before it observes
        // the flag; the flag is checked once per full open cycle.
        (ListenerState::ShuttingDown, ListenerEvent::ConnectionReady) => (
            ListenerState::ShuttingDown,
            if transport is Socket {
                ListenerAction::DoNothing
            } else {
                ListenerAction::DrainSession
            },
        ),
        (ListenerState::ShuttingDown, ListenerEvent::SessionEnded) => (
            ListenerState::ShuttingDown,
            if transport is Socket {
                ListenerAction::DoNothing
            } else {
                ListenerAction::ExitLoop
            },
        ),
        (ListenerState::ShuttingDown, ListenerEvent::LoopExited) => (
            ListenerState::ShuttingDown,
            ListenerAction::JoinBackground,
        ),
        (ListenerState::ShuttingDown, ListenerEvent::Joined) => (
            ListenerState::Stopped,
            ListenerAction::DoNothing,
        ),
        _ => (state, ListenerAction::DoNothing),
    }
}

/// One step of the listener lifecycle.
pub fn listener_step(transport: Transport, state: ListenerState, event: ListenerEvent) -> (r: (
    ListenerState,
    ListenerAction,
))
    ensures
        r == spec_listener_step(transport, state, event),
{
    match (state, event) {
        (ListenerState::NotStarted, ListenerEvent::StartRequested) => (
            ListenerState::Running,
            ListenerAction::BeginAccepting,
        ),
        (ListenerState::NotStarted, ListenerEvent::ShutdownSignaled) => (
            ListenerState::Stopped,
            ListenerAction::DoNothing,
        ),
        (ListenerState::Running, ListenerEvent::ConnectionReady) => (
            ListenerState::Running,
            match transport {
                Transport::Socket => ListenerAction::SpawnSessionReader,
                Transport::Pipe => ListenerAction::DrainSession,
            },
        ),
        (ListenerState::Running, ListenerEvent::SessionEnded) => (
            ListenerState::Running,
            match transport {
                Transport::Socket => ListenerAction::DoNothing,
                Transport::Pipe => ListenerAction::ReopenPipe,
            },
        ),
        (ListenerState::Running, ListenerEvent::ShutdownSignaled) => (
            ListenerState::ShuttingDown,
            match transport {
                Transport::Socket => ListenerAction::ExitLoop,
                Transport::Pipe => ListenerAction::NudgeOpen,
            },
        ),
        (ListenerState::ShuttingDown, ListenerEvent::ConnectionReady) => (
            ListenerState::ShuttingDown,
            match transport {
                Transport::Socket => ListenerAction::DoNothing,
                Transport::Pipe => ListenerAction::DrainSession,
            },
        ),
        (ListenerState::ShuttingDown, ListenerEvent::SessionEnded) => (
            ListenerState::ShuttingDown,
            match transport {
                Transport::Socket => ListenerAction::DoNothing,
                Transport::Pipe => ListenerAction::ExitLoop,
            },
        ),
        (ListenerState::ShuttingDown, ListenerEvent::LoopExited) => (
            ListenerState::ShuttingDown,
            ListenerAction::JoinBackground,
        ),
        (ListenerState::ShuttingDown, ListenerEvent::Joined) => (
            ListenerState::Stopped,
            ListenerAction::DoNothing,
        ),
        _ => (state, ListenerAction::DoNothing),
    }
}

/// The authoritative per-cycle check of the pipe reader: the loop goes on
/// exactly while the shared shutdown flag is unset.
pub fn pipe_reader_continue(shutdown_flag_set: bool) -> (r: bool)
    ensures
        r == !shutdown_flag_set,
{
    !shutdown_flag_set
}

/// A listener handle: the transport it was built for and where it stands
/// in its lifecycle.
#[derive(Debug, Clone, Copy, PartialEq, Eq, Structural)]
pub struct ChannelModel {
    pub transport: Transport,
    pub state: ListenerState,
}

impl ChannelModel {
    /// A fresh listener over the given transport, not yet running.
    pub fn new(transport: Transport) -> (m: ChannelModel)
        ensures
            m.transport == transport,
            m.state is NotStarted,
    {
        ChannelModel { transport, state: ListenerState::NotStarted }
    }

    /// Feeds one event to the listener and says what to do next.
    pub fn step(&mut self, event: ListenerEvent) -> (a: ListenerAction)
        ensures
            final(self).transport == old(self).transport,
            (final(self).state, a) == spec_listener_step(
                old(self).transport,
                old(self).state,
                event,
            ),
    {
        let (next, action) = listener_step(self.transport, self.state, event);
        self.state = next;
        action
    }

    /// Signals shutdown. Consumes the handle: a listener cannot be used
    /// again after shutdown has been signaled, and signaling is the only
    /// correct way to release it.
    pub fn shutdown(self) -> (r: (ChannelModel, ListenerAction))
        ensures
            r.0.transport == self.transport,
            (r.0.state, r.1) == spec_listener_step(
                self.transport,
                self.state,
                ListenerEvent::ShutdownSignaled,
            ),
    {
        let (next, action) = listener_step(
            self.transport,
            self.state,
            ListenerEvent::ShutdownSignaled,
        );
        (ChannelModel { transport: self.transport, state: next }, action)
    }
}

/// Law: signaling shutdown on a running listener always leaves `Running`,
/// and the step that follows leads out of the loop: the socket loop exits
/// at once, while the pipe coordinator nudges the blocking open, whose
/// cycle then ends in `ExitLoop`.
pub proof fn lemma_shutdown_terminates(transport: Transport)
    ensures
        spec_listener_step(transport, ListenerState::Running, ListenerEvent::ShutdownSignaled).0
            is ShuttingDown,
        spec_listener_step(Transport::Socket, ListenerState::Running, ListenerEvent::ShutdownSignaled).1
            is ExitLoop,
        spec_listener_step(Transport::Pipe, ListenerState::Running, ListenerEvent::ShutdownSignaled).1
            is NudgeOpen,
        spec_listener_step(Transport::Pipe, ListenerState::ShuttingDown, ListenerEvent::SessionEnded).1
            is ExitLoop,
        spec_listener_step(transport, ListenerState::ShuttingDown, ListenerEvent::Joined).0
            is Stopped,
{
}

/// Law: once shutdown has been signaled, the listener never accepts a new
/// connection and never returns to a running state; only a pipe session
/// already racing the signal may still be drained.
pub proof fn lemma_no_new_sessions_after_shutdown(
    transport: Transport,
    state: ListenerState,
    event: ListenerEvent,
)
    requires
        state is ShuttingDown || state is Stopped,
    ensures
        !(spec_listener_step(transport, state, event).1 is SpawnSessionReader),
        !(spec_listener_step(transport, state, event).1 is BeginAccepting),
        !(spec_listener_step(transport, state, event).0 is Running),
        !(spec_listener_step(transport, state, event).0 is NotStarted),
{
}

/// Law: a stopped listener is final: no event moves it, and no event makes
/// it act, so no further sends to the command queue will occur.
pub proof fn lemma_stopped_is_final(transport: Transport, event: ListenerEvent)
    ensures
        spec_listener_step(transport, ListenerState::Stopped, event).0 is Stopped,
        spec_listener_step(transport, ListenerState::Stopped, event).1 is DoNothing,
{
}

} // verus!
