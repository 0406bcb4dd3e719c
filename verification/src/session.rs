//! The session orchestrator: topology, startup order and shutdown order.
//!
//! A session is started in one of three topologies. Its orchestrator
//! brings up the identity first, the listening endpoint second and the
//! loops last, and takes them down in the opposite order: the shutdown
//! flag is set, a spawned server loop is joined, and only then are the
//! endpoint and the identity released and the process left.
//!
//! [`Session`] decides; it performs nothing. The driver hands it what
//! happened as a [`SessionEvent`] and gets back, as a [`SessionAction`],
//! what to do next.
use crate::schedule::{ConfigError, TickSchedule};
use vstd::prelude::*;

verus! {

/// How the loops of a session are laid out over processes and threads.
#[derive(Clone, Copy, Debug, PartialEq, Eq, Structural)]
pub enum Topology {
    /// A server loop and nothing else in this process.
    Dedicated,
    /// A client loop in the primary thread and a server loop in a worker
    /// thread, on one identity and one shutdown flag.
    ClientWithColocatedServer,
    /// A client loop and no local server.
    ClientOnly,
}

impl Topology {
    /// Whether a server loop runs in this process.
    pub open spec fn hosts(self) -> bool {
        self != Topology::ClientOnly
    }

    /// Whether a client loop runs in this process.
    pub open spec fn has_client(self) -> bool {
        self != Topology::Dedicated
    }

    /// Whether a server loop runs in this process.
    pub fn hosts_server(self) -> (hosts: bool)
        ensures
            hosts == self.hosts(),
    {
        match self {
            Topology::ClientOnly => false,
            _ => true,
        }
    }

    /// Whether a client loop runs in this process.
    pub fn runs_client(self) -> (client: bool)
        ensures
            client == self.has_client(),
    {
        match self {
            Topology::Dedicated => false,
            _ => true,
        }
    }
}

/// What the process was started with.
#[derive(Clone, Copy, Debug, PartialEq, Eq, Structural)]
pub struct SessionConfig {
    /// Run the server loop only.
    pub dedicated: bool,
    /// Run no local server.
    pub no_server: bool,
    /// Ticks per second of the server loop.
    pub tickrate: u16,
}

/// The topology that a pair of switches asks for.
pub open spec fn topology_of(dedicated: bool, no_server: bool) -> Result<Topology, ConfigError> {
    if dedicated {
        if no_server {
            Err(ConfigError::NothingToRun)
        } else {
            Ok(Topology::Dedicated)
        }
    } else {
        if no_server {
            Ok(Topology::ClientOnly)
        } else {
            Ok(Topology::ClientWithColocatedServer)
        }
    }
}

impl SessionConfig {
    /// The topology the configuration asks for. A dedicated server
    /// without a server is nothing to run.
    pub fn topology(&self) -> (topology: Result<Topology, ConfigError>)
        ensures
            topology == topology_of(self.dedicated, self.no_server),
    {
        if self.dedicated {
            if self.no_server {
                Err(ConfigError::NothingToRun)
            } else {
                Ok(Topology::Dedicated)
            }
        } else {
            if self.no_server {
                Ok(Topology::ClientOnly)
            } else {
                Ok(Topology::ClientWithColocatedServer)
            }
        }
    }

    /// The tick schedule of the server loop.
    pub fn schedule(&self) -> (schedule: Result<TickSchedule, ConfigError>)
        ensures
            match schedule {
                Ok(s) => self.tickrate > 0 && s.wf() && s.ticks_per_second() == self.tickrate,
                Err(e) => self.tickrate == 0 && e == ConfigError::ZeroTickRate,
            },
    {
        TickSchedule::new(self.tickrate)
    }
}

impl Default for SessionConfig {
    /// A client with a colocated server that ticks 60 times a second.
    fn default() -> (config: SessionConfig)
        ensures
            config == (SessionConfig { dedicated: false, no_server: false, tickrate: 60 }),
    {
        SessionConfig { dedicated: false, no_server: false, tickrate: 60 }
    }
}

/// What can go wrong while a session starts.
#[derive(Clone, Copy, Debug, PartialEq, Eq, Structural)]
pub enum StartupError {
    /// The identity could not be established. Fatal to the process.
    IdentityInitFailed,
    /// The listening endpoint could not be created. Fatal to the server.
    BindFailed,
    /// The transport did not take on the outbound connection attempt.
    /// Not fatal: it is logged and the client loop runs all the same.
    ConnectFailed,
}

impl StartupError {
    /// Whether the error ends the execution context it occurred in.
    pub open spec fn fatal(self) -> bool {
        self != StartupError::ConnectFailed
    }

    /// Whether the error ends the execution context it occurred in.
    pub fn is_fatal(self) -> (fatal: bool)
        ensures
            fatal == self.fatal(),
    {
        match self {
            StartupError::ConnectFailed => false,
            _ => true,
        }
    }
}

/// How the process ends.
#[derive(Clone, Copy, Debug, PartialEq, Eq, Structural)]
pub enum ExitStatus {
    Success,
    Failure,
}

/// What the driver reports to the orchestrator.
#[derive(Clone, Copy, Debug, PartialEq, Eq, Structural)]
pub enum SessionEvent {
    /// The process has started.
    Launch,
    /// The identity is established.
    IdentityReady,
    /// The identity could not be established.
    IdentityFailed,
    /// The listening endpoint is bound.
    EndpointBound,
    /// The listening endpoint could not be bound.
    BindFailed,
    /// The worker thread of the server loop runs.
    ServerLoopSpawned,
    /// The server loop has ended: the call that ran it in place has
    /// returned, or the join of its worker thread has completed.
    ServerLoopExited,
    /// The transport took on the outbound connection attempt.
    ConnectAccepted,
    /// The transport refused the outbound connection attempt.
    ConnectFailed,
    /// The client loop has ended.
    ClientLoopExited,
    /// The shutdown flag is set.
    ShutdownFlagSet,
    /// The error was brought to the user's notice.
    Reported,
    /// The endpoint and the identity are released.
    Released,
}

/// What the orchestrator asks the driver to do.
#[derive(Clone, Copy, Debug, PartialEq, Eq, Structural)]
pub enum SessionAction {
    /// Establish the identity.
    InitIdentity,
    /// Create the listening endpoint.
    CreateListenEndpoint,
    /// Run the server loop in this thread until it stops.
    RunServerLoop,
    /// Start the server loop in a worker thread.
    SpawnServerLoop,
    /// Let the grace period pass, then open the outbound connection.
    OpenOutboundConnection,
    /// Run the client loop in this thread until it stops.
    RunClientLoop,
    /// Set the shutdown flag.
    SetShutdownFlag,
    /// Wait for the worker thread of the server loop to end.
    JoinServerLoop,
    /// Bring the error to the user's notice.
    Report(StartupError),
    /// Release the endpoint, if any, and the identity.
    ReleaseResources,
    /// Leave the process.
    Exit(ExitStatus),
    /// The event was not due: there is nothing to do.
    Idle,
}

/// What the orchestrator is waiting for.
#[derive(Clone, Copy, Debug, PartialEq, Eq, Structural)]
pub enum SessionPhase {
    /// Not launched yet.
    Created,
    /// The identity is being established.
    Identity,
    /// The listening endpoint is being created.
    Binding,
    /// The worker thread is being started.
    Spawning,
    /// The server loop runs in this thread.
    Serving,
    /// The outbound connection is being opened.
    Connecting,
    /// The client loop runs in this thread.
    ClientRunning,
    /// The shutdown flag is being set.
    Signalling,
    /// The worker thread is being joined.
    Joining,
    /// An error is being reported.
    Reporting(StartupError),
    /// The endpoint and the identity are being released.
    Releasing,
    /// The process is left.
    Exited(ExitStatus),
}

/// All that the orchestrator knows.
#[derive(Clone, Copy, Debug, PartialEq, Eq, Structural)]
pub struct SessionState {
    pub topology: Topology,
    pub phase: SessionPhase,
    /// The identity is established and not released.
    pub identity_live: bool,
    /// The listening endpoint is bound and not released.
    pub endpoint_live: bool,
    /// A worker thread runs the server loop and is not joined.
    pub server_live: bool,
    /// The orchestrator has set the shutdown flag.
    pub flag_set: bool,
    /// A fatal startup error occurred.
    pub failed: bool,
}

/// The state of a session that is not launched yet.
pub open spec fn created(topology: Topology) -> SessionState {
    SessionState {
        topology,
        phase: SessionPhase::Created,
        identity_live: false,
        endpoint_live: false,
        server_live: false,
        flag_set: false,
        failed: false,
    }
}

/// The exit status of a session in state `state`.
pub open spec fn status_of(state: SessionState) -> ExitStatus {
    if state.failed {
        ExitStatus::Failure
    } else {
        ExitStatus::Success
    }
}

/// What follows once the error that is being reported has been reported.
pub open spec fn after_report(state: SessionState, error: StartupError) -> (
    SessionState,
    SessionAction,
) {
    match error {
        StartupError::IdentityInitFailed => (
            SessionState { phase: SessionPhase::Exited(ExitStatus::Failure), ..state },
            SessionAction::Exit(ExitStatus::Failure),
        ),
        StartupError::BindFailed => if state.topology.has_client() {
            (
                SessionState { phase: SessionPhase::Connecting, ..state },
                SessionAction::OpenOutboundConnection,
            )
        } else {
            (
                SessionState { phase: SessionPhase::Releasing, ..state },
                SessionAction::ReleaseResources,
            )
        },
        StartupError::ConnectFailed => (
            SessionState { phase: SessionPhase::ClientRunning, ..state },
            SessionAction::RunClientLoop,
        ),
    }
}

/// The orchestrator's rule: the state after `event`, and what to do.
/// An event that is not due in the current phase changes nothing.
pub open spec fn react(state: SessionState, event: SessionEvent) -> (SessionState, SessionAction) {
    match (state.phase, event) {
        (SessionPhase::Created, SessionEvent::Launch) => (
            SessionState { phase: SessionPhase::Identity, ..state },
            SessionAction::InitIdentity,
        ),
        (SessionPhase::Identity, SessionEvent::IdentityReady) => if state.topology.hosts() {
            (
                SessionState { phase: SessionPhase::Binding, identity_live: true, ..state },
                SessionAction::CreateListenEndpoint,
            )
        } else {
            (
                SessionState { phase: SessionPhase::Connecting, identity_live: true, ..state },
                SessionAction::OpenOutboundConnection,
            )
        },
        (SessionPhase::Identity, SessionEvent::IdentityFailed) => (
            SessionState {
                phase: SessionPhase::Reporting(StartupError::IdentityInitFailed),
                failed: true,
                ..state
            },
            SessionAction::Report(StartupError::IdentityInitFailed),
        ),
        (SessionPhase::Binding, SessionEvent::EndpointBound) => if state.topology.has_client() {
            (
                SessionState { phase: SessionPhase::Spawning, endpoint_live: true, ..state },
                SessionAction::SpawnServerLoop,
            )
        } else {
            (
                SessionState { phase: SessionPhase::Serving, endpoint_live: true, ..state },
                SessionAction::RunServerLoop,
            )
        },
        (SessionPhase::Binding, SessionEvent::BindFailed) => (
            SessionState {
                phase: SessionPhase::Reporting(StartupError::BindFailed),
                failed: true,
                ..state
            },
            SessionAction::Report(StartupError::BindFailed),
        ),
        (SessionPhase::Spawning, SessionEvent::ServerLoopSpawned) => (
            SessionState { phase: SessionPhase::Connecting, server_live: true, ..state },
            SessionAction::OpenOutboundConnection,
        ),
        (SessionPhase::Serving, SessionEvent::ServerLoopExited) => (
            SessionState { phase: SessionPhase::Signalling, ..state },
            SessionAction::SetShutdownFlag,
        ),
        (SessionPhase::Connecting, SessionEvent::ConnectAccepted) => (
            SessionState { phase: SessionPhase::ClientRunning, ..state },
            SessionAction::RunClientLoop,
        ),
        (SessionPhase::Connecting, SessionEvent::ConnectFailed) => (
            SessionState { phase: SessionPhase::Reporting(StartupError::ConnectFailed), ..state },
            SessionAction::Report(StartupError::ConnectFailed),
        ),
        (SessionPhase::ClientRunning, SessionEvent::ClientLoopExited) => (
            SessionState { phase: SessionPhase::Signalling, ..state },
            SessionAction::SetShutdownFlag,
        ),
        (SessionPhase::Signalling, SessionEvent::ShutdownFlagSet) => if state.server_live {
            (
                SessionState { phase: SessionPhase::Joining, flag_set: true, ..state },
                SessionAction::JoinServerLoop,
            )
        } else {
            (
                SessionState { phase: SessionPhase::Releasing, flag_set: true, ..state },
                SessionAction::ReleaseResources,
            )
        },
        (SessionPhase::Joining, SessionEvent::ServerLoopExited) => (
            SessionState { phase: SessionPhase::Releasing, server_live: false, ..state },
            SessionAction::ReleaseResources,
        ),
        (SessionPhase::Reporting(error), SessionEvent::Reported) => after_report(state, error),
        (SessionPhase::Releasing, SessionEvent::Released) => (
            SessionState {
                phase: SessionPhase::Exited(status_of(state)),
                identity_live: false,
                endpoint_live: false,
                ..state
            },
            SessionAction::Exit(status_of(state)),
        ),
        _ => (state, SessionAction::Idle),
    }
}

/// The state after a run of events.
pub open spec fn after(state: SessionState, events: Seq<SessionEvent>) -> SessionState
    decreases events.len(),
{
    if events.len() == 0 {
        state
    } else {
        react(after(state, events.drop_last()), events.last()).0
    }
}

/// What the orchestrator asks for on the event at `index` of a run.
pub open spec fn action_at(state: SessionState, events: Seq<SessionEvent>, index: int) -> SessionAction
    recommends
        0 <= index < events.len(),
{
    react(after(state, events.take(index)), events[index]).1
}

/// The shutdown order and the lifetime of the shared resources, as they
/// hold in every state that a session can reach.
pub open spec fn orderly(state: SessionState) -> bool {
    // The endpoint is derived from the identity and does not outlive it.
    &&& state.endpoint_live ==> state.identity_live
    // As long as the spawned server loop may run, what it touches is there.
    &&& state.server_live ==> state.endpoint_live && state.identity_live
    // Only a colocated server loop is ever spawned.
    &&& state.server_live ==> state.topology == Topology::ClientWithColocatedServer
    // The join comes after the flag is set.
    &&& state.phase == SessionPhase::Joining ==> state.flag_set && state.server_live
    // The release comes after the join.
    &&& state.phase == SessionPhase::Releasing ==> !state.server_live
    // The process is left with nothing running and nothing held.
    &&& state.phase is Exited ==> !state.server_live && !state.endpoint_live
        && !state.identity_live
    // The exit status tells whether a fatal error occurred.
    &&& state.phase is Exited ==> state.phase == SessionPhase::Exited(status_of(state))
}

spec fn inv(state: SessionState) -> bool {
    &&& orderly(state)
    &&& match state.phase {
        SessionPhase::Created | SessionPhase::Identity => !state.identity_live
            && !state.endpoint_live && !state.server_live && !state.failed,
        SessionPhase::Reporting(StartupError::IdentityInitFailed) => !state.identity_live
            && !state.endpoint_live && !state.server_live && state.failed,
        SessionPhase::Binding => state.identity_live && !state.endpoint_live && !state.server_live
            && state.topology.hosts(),
        SessionPhase::Reporting(StartupError::BindFailed) => state.identity_live
            && !state.endpoint_live && !state.server_live && state.failed,
        SessionPhase::Spawning => state.identity_live && state.endpoint_live && !state.server_live
            && state.topology == Topology::ClientWithColocatedServer,
        SessionPhase::Serving => state.identity_live && state.endpoint_live && !state.server_live,
        SessionPhase::Connecting | SessionPhase::ClientRunning | SessionPhase::Reporting(
            StartupError::ConnectFailed,
        ) => state.identity_live && state.topology.has_client(),
        SessionPhase::Signalling => state.identity_live,
        SessionPhase::Joining => true,
        SessionPhase::Releasing => true,
        SessionPhase::Exited(_) => true,
    }
}

proof fn lemma_inv_step(state: SessionState, event: SessionEvent)
    requires
        inv(state),
    ensures
        inv(react(state, event).0),
{
}

proof fn lemma_inv_reachable(topology: Topology, events: Seq<SessionEvent>)
    ensures
        inv(after(created(topology), events)),
    decreases events.len(),
{
    if events.len() > 0 {
        lemma_inv_reachable(topology, events.drop_last());
        lemma_inv_step(after(created(topology), events.drop_last()), events.last());
    }
}

/// The orchestrator of one process.
#[derive(Clone, Copy, Debug)]
pub struct Session {
    state: SessionState,
}

impl View for Session {
    type V = SessionState;

    closed spec fn view(&self) -> SessionState {
        self.state
    }
}

impl Session {
    /// A session in the given topology, not launched yet.
    pub fn new(topology: Topology) -> (session: Session)
        ensures
            session@ == created(topology),
    {
        Session {
            state: SessionState {
                topology,
                phase: SessionPhase::Created,
                identity_live: false,
                endpoint_live: false,
                server_live: false,
                flag_set: false,
                failed: false,
            },
        }
    }

    /// All that the orchestrator knows.
    pub fn state(&self) -> (state: SessionState)
        ensures
            state == self@,
    {
        self.state
    }

    /// What the orchestrator is waiting for.
    pub fn phase(&self) -> (phase: SessionPhase)
        ensures
            phase == self@.phase,
    {
        self.state.phase
    }

    /// How the process ended, once it has.
    pub fn exit_status(&self) -> (status: Option<ExitStatus>)
        ensures
            status == match self@.phase {
                SessionPhase::Exited(s) => Some(s),
                _ => None,
            },
    {
        match self.state.phase {
            SessionPhase::Exited(s) => Some(s),
            _ => None,
        }
    }

    fn finish_report(&mut self, error: StartupError) -> (action: SessionAction)
        ensures
            (final(self)@, action) == after_report(old(self)@, error),
    {
        match error {
            StartupError::IdentityInitFailed => {
                self.state.phase = SessionPhase::Exited(ExitStatus::Failure);
                SessionAction::Exit(ExitStatus::Failure)
            },
            StartupError::BindFailed => {
                if self.state.topology.runs_client() {
                    self.state.phase = SessionPhase::Connecting;
                    SessionAction::OpenOutboundConnection
                } else {
                    self.state.phase = SessionPhase::Releasing;
                    SessionAction::ReleaseResources
                }
            },
            StartupError::ConnectFailed => {
                self.state.phase = SessionPhase::ClientRunning;
                SessionAction::RunClientLoop
            },
        }
    }

    /// Takes in what happened and says what to do next, by the rule
    /// [`react`].
    pub fn step(&mut self, event: SessionEvent) -> (action: SessionAction)
        ensures
            (final(self)@, action) == react(old(self)@, event),
    {
        match (self.state.phase, event) {
            (SessionPhase::Created, SessionEvent::Launch) => {
                self.state.phase = SessionPhase::Identity;
                SessionAction::InitIdentity
            },
            (SessionPhase::Identity, SessionEvent::IdentityReady) => {
                self.state.identity_live = true;
                if self.state.topology.hosts_server() {
                    self.state.phase = SessionPhase::Binding;
                    SessionAction::CreateListenEndpoint
                } else {
                    self.state.phase = SessionPhase::Connecting;
                    SessionAction::OpenOutboundConnection
                }
            },
            (SessionPhase::Identity, SessionEvent::IdentityFailed) => {
                self.state.failed = true;
                self.state.phase = SessionPhase::Reporting(StartupError::IdentityInitFailed);
                SessionAction::Report(StartupError::IdentityInitFailed)
            },
            (SessionPhase::Binding, SessionEvent::EndpointBound) => {
                self.state.endpoint_live = true;
                if self.state.topology.runs_client() {
                    self.state.phase = SessionPhase::Spawning;
                    SessionAction::SpawnServerLoop
                } else {
                    self.state.phase = SessionPhase::Serving;
                    SessionAction::RunServerLoop
                }
            },
            (SessionPhase::Binding, SessionEvent::BindFailed) => {
                self.state.failed = true;
                self.state.phase = SessionPhase::Reporting(StartupError::BindFailed);
                SessionAction::Report(StartupError::BindFailed)
            },
            (SessionPhase::Spawning, SessionEvent::ServerLoopSpawned) => {
                self.state.server_live = true;
                self.state.phase = SessionPhase::Connecting;
                SessionAction::OpenOutboundConnection
            },
            (SessionPhase::Serving, SessionEvent::ServerLoopExited) => {
                self.state.phase = SessionPhase::Signalling;
                SessionAction::SetShutdownFlag
            },
            (SessionPhase::Connecting, SessionEvent::ConnectAccepted) => {
                self.state.phase = SessionPhase::ClientRunning;
                SessionAction::RunClientLoop
            },
            (SessionPhase::Connecting, SessionEvent::ConnectFailed) => {
                self.state.phase = SessionPhase::Reporting(StartupError::ConnectFailed);
                SessionAction::Report(StartupError::ConnectFailed)
            },
            (SessionPhase::ClientRunning, SessionEvent::ClientLoopExited) => {
                self.state.phase = SessionPhase::Signalling;
                SessionAction::SetShutdownFlag
            },
            (SessionPhase::Signalling, SessionEvent::ShutdownFlagSet) => {
                self.state.flag_set = true;
                if self.state.server_live {
                    self.state.phase = SessionPhase::Joining;
                    SessionAction::JoinServerLoop
                } else {
                    self.state.phase = SessionPhase::Releasing;
                    SessionAction::ReleaseResources
                }
            },
            (SessionPhase::Joining, SessionEvent::ServerLoopExited) => {
                self.state.server_live = false;
                self.state.phase = SessionPhase::Releasing;
                SessionAction::ReleaseResources
            },
            (SessionPhase::Reporting(error), SessionEvent::Reported) => self.finish_report(error),
            (SessionPhase::Releasing, SessionEvent::Released) => {
                let status = if self.state.failed {
                    ExitStatus::Failure
                } else {
                    ExitStatus::Success
                };
                self.state.identity_live = false;
                self.state.endpoint_live = false;
                self.state.phase = SessionPhase::Exited(status);
                SessionAction::Exit(status)
            },
            _ => SessionAction::Idle,
        }
    }
}

/// Every state that a session reaches, on whatever events in whatever
/// order, keeps the shutdown order: see [`orderly`].
pub proof fn law_sessions_stay_orderly(topology: Topology, events: Seq<SessionEvent>)
    ensures
        orderly(after(created(topology), events)),
{
    lemma_inv_reachable(topology, events);
}

/// What the orchestrator asks for is always in order: an endpoint and an
/// outbound connection only on a live identity, a loop only on a live
/// identity, the join only after the flag is set, the release only when
/// no spawned server loop is left, the exit only with nothing held.
pub proof fn law_actions_keep_order(
    topology: Topology,
    events: Seq<SessionEvent>,
    event: SessionEvent,
)
    ensures
        ({
            let before = after(created(topology), events);
            let (next, action) = react(before, event);
            &&& action == SessionAction::CreateListenEndpoint ==> next.identity_live
            &&& action == SessionAction::OpenOutboundConnection ==> next.identity_live
            &&& action == SessionAction::RunServerLoop ==> next.identity_live && next.endpoint_live
            &&& action == SessionAction::SpawnServerLoop ==> next.identity_live
                && next.endpoint_live
            &&& action == SessionAction::RunClientLoop ==> next.identity_live
            &&& action == SessionAction::JoinServerLoop ==> next.flag_set
            &&& action == SessionAction::ReleaseResources ==> !next.server_live
            &&& action is Exit ==> !next.server_live && !next.endpoint_live && !next.identity_live
        }),
{
    lemma_inv_reachable(topology, events);
    lemma_inv_step(after(created(topology), events), event);
}

/// A failed identity is the end: once the identity could not be
/// established, the orchestrator reports the failure and leaves with a
/// failure status. Whatever is reported to it afterwards, it never asks
/// for a listening endpoint, an outbound connection or a loop.
pub proof fn law_identity_failure_is_fatal(
    state: SessionState,
    later: Seq<SessionEvent>,
    index: int,
)
    requires
        state.phase == SessionPhase::Identity,
        0 <= index < later.len(),
    ensures
        react(state, SessionEvent::IdentityFailed).1 == SessionAction::Report(
            StartupError::IdentityInitFailed,
        ),
        action_at(react(state, SessionEvent::IdentityFailed).0, later, index) == SessionAction::Idle
            || action_at(react(state, SessionEvent::IdentityFailed).0, later, index)
            == SessionAction::Exit(ExitStatus::Failure),
{
    lemma_failed_identity(react(state, SessionEvent::IdentityFailed).0, later.take(index));
}

spec fn doomed(state: SessionState) -> bool {
    state.phase == SessionPhase::Reporting(StartupError::IdentityInitFailed) || state.phase
        == SessionPhase::Exited(ExitStatus::Failure)
}

proof fn lemma_failed_identity(state: SessionState, events: Seq<SessionEvent>)
    requires
        doomed(state),
    ensures
        doomed(after(state, events)),
    decreases events.len(),
{
    if events.len() > 0 {
        lemma_failed_identity(state, events.drop_last());
    }
}

/// Without an established identity there is no endpoint and no
/// connection: in a run in which the identity is never reported ready,
/// the orchestrator asks for neither, and for no loop.
pub proof fn law_no_endpoint_without_identity(
    topology: Topology,
    events: Seq<SessionEvent>,
    index: int,
)
    requires
        0 <= index < events.len(),
        forall|i: int| 0 <= i <= index ==> #[trigger] events[i] != SessionEvent::IdentityReady,
    ensures
        action_at(created(topology), events, index) != SessionAction::CreateListenEndpoint,
        action_at(created(topology), events, index) != SessionAction::OpenOutboundConnection,
        action_at(created(topology), events, index) != SessionAction::RunServerLoop,
        action_at(created(topology), events, index) != SessionAction::SpawnServerLoop,
        action_at(created(topology), events, index) != SessionAction::RunClientLoop,
{
    lemma_before_identity(topology, events, index);
}

spec fn unidentified(state: SessionState) -> bool {
    state.phase == SessionPhase::Created || state.phase == SessionPhase::Identity || doomed(state)
}

proof fn lemma_before_identity(topology: Topology, events: Seq<SessionEvent>, upto: int)
    requires
        0 <= upto <= events.len(),
        forall|i: int| 0 <= i < upto ==> #[trigger] events[i] != SessionEvent::IdentityReady,
    ensures
        unidentified(after(created(topology), events.take(upto))),
    decreases upto,
{
    if upto > 0 {
        lemma_before_identity(topology, events, upto - 1);
        assert(events.take(upto).drop_last() =~= events.take(upto - 1));
    }
}

spec fn progress(phase: SessionPhase) -> int {
    match phase {
        SessionPhase::Created => 0,
        SessionPhase::Identity => 1,
        SessionPhase::Reporting(StartupError::IdentityInitFailed) => 2,
        SessionPhase::Binding => 2,
        SessionPhase::Reporting(StartupError::BindFailed) => 3,
        SessionPhase::Spawning => 3,
        SessionPhase::Serving => 3,
        SessionPhase::Connecting => 4,
        SessionPhase::Reporting(StartupError::ConnectFailed) => 5,
        SessionPhase::ClientRunning => 6,
        SessionPhase::Signalling => 7,
        SessionPhase::Joining => 8,
        SessionPhase::Releasing => 9,
        SessionPhase::Exited(_) => 10,
    }
}

spec fn entered_by(action: SessionAction) -> int {
    match action {
        SessionAction::InitIdentity => 1,
        SessionAction::CreateListenEndpoint => 2,
        SessionAction::RunServerLoop => 3,
        SessionAction::SpawnServerLoop => 3,
        SessionAction::OpenOutboundConnection => 4,
        SessionAction::RunClientLoop => 6,
        SessionAction::SetShutdownFlag => 7,
        SessionAction::JoinServerLoop => 8,
        SessionAction::Report(StartupError::IdentityInitFailed) => 2,
        SessionAction::Report(StartupError::BindFailed) => 3,
        SessionAction::Report(StartupError::ConnectFailed) => 5,
        SessionAction::ReleaseResources => 9,
        SessionAction::Exit(_) => 10,
        SessionAction::Idle => 0,
    }
}

proof fn lemma_step_moves_forward(state: SessionState, event: SessionEvent)
    ensures
        react(state, event).1 == SessionAction::Idle ==> react(state, event).0 == state,
        react(state, event).1 != SessionAction::Idle ==> progress(state.phase) < progress(
            react(state, event).0.phase,
        ) && progress(react(state, event).0.phase) == entered_by(react(state, event).1),
{
}

proof fn lemma_run_moves_forward(state: SessionState, events: Seq<SessionEvent>, from: int, upto: int)
    requires
        0 <= from <= upto <= events.len(),
    ensures
        progress(after(state, events.take(from)).phase) <= progress(
            after(state, events.take(upto)).phase,
        ),
    decreases upto - from,
{
    if from < upto {
        lemma_run_moves_forward(state, events, from, upto - 1);
        assert(events.take(upto).drop_last() =~= events.take(upto - 1));
        lemma_step_moves_forward(after(state, events.take(upto - 1)), events[upto - 1]);
    }
}

/// Nothing is asked for twice. Whatever is reported and in whatever
/// order, the orchestrator asks once at most for the identity, for the
/// endpoint, for each loop, for the connection, for the flag, the join
/// and the release: a process has one identity and, next to its primary
/// loop, one spawned server loop at most.
pub proof fn law_nothing_is_asked_twice(
    state: SessionState,
    events: Seq<SessionEvent>,
    first: int,
    second: int,
)
    requires
        0 <= first < second < events.len(),
        action_at(state, events, first) == action_at(state, events, second),
    ensures
        action_at(state, events, first) == SessionAction::Idle,
{
    assert(events.take(first + 1).drop_last() =~= events.take(first));
    lemma_step_moves_forward(after(state, events.take(first)), events[first]);
    lemma_step_moves_forward(after(state, events.take(second)), events[second]);
    lemma_run_moves_forward(state, events, first + 1, second);
}

/// Every session comes to an end: each event that is due moves the
/// orchestrator one phase forward and none moves it back, so that after
/// ten events that were due the process is left.
pub proof fn law_sessions_end(state: SessionState, events: Seq<SessionEvent>, due: Seq<int>)
    requires
        due.len() >= 10,
        forall|k: int| 0 <= k < due.len() ==> 0 <= #[trigger] due[k] < events.len(),
        forall|j: int, k: int| 0 <= j < k < due.len() ==> due[j] < due[k],
        forall|k: int|
            0 <= k < due.len() ==> action_at(state, events, #[trigger] due[k])
                != SessionAction::Idle,
    ensures
        after(state, events).phase is Exited,
{
    lemma_due_events_count(state, events, due, due.len() as int);
    let last: int = due[due.len() - 1];
    lemma_run_moves_forward(state, events, last + 1, events.len() as int);
    assert(events.take(events.len() as int) =~= events);
}

proof fn lemma_due_events_count(
    state: SessionState,
    events: Seq<SessionEvent>,
    due: Seq<int>,
    count: int,
)
    requires
        1 <= count <= due.len(),
        forall|k: int| 0 <= k < due.len() ==> 0 <= #[trigger] due[k] < events.len(),
        forall|j: int, k: int| 0 <= j < k < due.len() ==> due[j] < due[k],
        forall|k: int|
            0 <= k < due.len() ==> action_at(state, events, #[trigger] due[k])
                != SessionAction::Idle,
    ensures
        progress(after(state, events.take(due[count - 1] + 1)).phase) >= count,
    decreases count,
{
    let at: int = due[count - 1];
    assert(events.take(at + 1).drop_last() =~= events.take(at));
    lemma_step_moves_forward(after(state, events.take(at)), events[at]);
    if count > 1 {
        lemma_due_events_count(state, events, due, count - 1);
        let before: int = due[count - 2];
        lemma_run_moves_forward(state, events, before + 1, at);
    }
}

} // verus!
