use session_runtime::schedule::ConfigError;
use session_runtime::session::{
    ExitStatus, Session, SessionAction, SessionConfig, SessionEvent, SessionPhase, StartupError,
    Topology,
};
use session_runtime::shutdown::ShouldExit;
use session_runtime::tick::{watch_exit, TickLoop, TickPhase};

const EVERY_EVENT: [SessionEvent; 13] = [
    SessionEvent::Launch,
    SessionEvent::IdentityReady,
    SessionEvent::IdentityFailed,
    SessionEvent::EndpointBound,
    SessionEvent::BindFailed,
    SessionEvent::ServerLoopSpawned,
    SessionEvent::ServerLoopExited,
    SessionEvent::ConnectAccepted,
    SessionEvent::ConnectFailed,
    SessionEvent::ClientLoopExited,
    SessionEvent::ShutdownFlagSet,
    SessionEvent::Reported,
    SessionEvent::Released,
];

const EVERY_TOPOLOGY: [Topology; 3] =
    [Topology::Dedicated, Topology::ClientWithColocatedServer, Topology::ClientOnly];

fn run(topology: Topology, events: &[SessionEvent]) -> (Session, Vec<SessionAction>) {
    let mut session = Session::new(topology);
    let actions = events.iter().map(|event| session.step(*event)).collect();
    (session, actions)
}

#[test]
fn switches_choose_the_topology() {
    let config = |dedicated, no_server| SessionConfig { dedicated, no_server, tickrate: 60 };
    assert_eq!(config(false, false).topology(), Ok(Topology::ClientWithColocatedServer));
    assert_eq!(config(false, true).topology(), Ok(Topology::ClientOnly));
    assert_eq!(config(true, false).topology(), Ok(Topology::Dedicated));
    assert_eq!(config(true, true).topology(), Err(ConfigError::NothingToRun));
}

#[test]
fn default_config_is_a_client_with_its_own_server_at_sixty_ticks() {
    let config = SessionConfig::default();
    assert!(!config.dedicated);
    assert!(!config.no_server);
    assert_eq!(config.tickrate, 60);
    assert_eq!(config.topology(), Ok(Topology::ClientWithColocatedServer));
    assert_eq!(config.schedule().unwrap().period_nanos(), 16_666_666);
}

#[test]
fn config_with_zero_tick_rate_has_no_schedule() {
    let config = SessionConfig { dedicated: true, no_server: false, tickrate: 0 };
    assert_eq!(config.schedule().err(), Some(ConfigError::ZeroTickRate));
}

#[test]
fn topology_says_which_loops_run() {
    assert!(Topology::Dedicated.hosts_server());
    assert!(!Topology::Dedicated.runs_client());
    assert!(Topology::ClientWithColocatedServer.hosts_server());
    assert!(Topology::ClientWithColocatedServer.runs_client());
    assert!(!Topology::ClientOnly.hosts_server());
    assert!(Topology::ClientOnly.runs_client());
}

#[test]
fn only_a_failed_connect_is_not_fatal() {
    assert!(StartupError::IdentityInitFailed.is_fatal());
    assert!(StartupError::BindFailed.is_fatal());
    assert!(!StartupError::ConnectFailed.is_fatal());
}

#[test]
fn new_session_waits_for_its_launch() {
    let session = Session::new(Topology::ClientOnly);
    assert_eq!(session.phase(), SessionPhase::Created);
    assert_eq!(session.exit_status(), None);
    let state = session.state();
    assert_eq!(state.topology, Topology::ClientOnly);
    assert!(!state.identity_live && !state.endpoint_live && !state.server_live);
    assert!(!state.flag_set && !state.failed);
}

#[test]
fn dedicated_server_starts_and_stops_in_order() {
    let (session, actions) = run(
        Topology::Dedicated,
        &[
            SessionEvent::Launch,
            SessionEvent::IdentityReady,
            SessionEvent::EndpointBound,
            SessionEvent::ServerLoopExited,
            SessionEvent::ShutdownFlagSet,
            SessionEvent::Released,
        ],
    );
    assert_eq!(
        actions,
        vec![
            SessionAction::InitIdentity,
            SessionAction::CreateListenEndpoint,
            SessionAction::RunServerLoop,
            SessionAction::SetShutdownFlag,
            SessionAction::ReleaseResources,
            SessionAction::Exit(ExitStatus::Success),
        ]
    );
    assert_eq!(session.exit_status(), Some(ExitStatus::Success));
}

#[test]
fn client_only_session_never_binds() {
    let (session, actions) = run(
        Topology::ClientOnly,
        &[
            SessionEvent::Launch,
            SessionEvent::IdentityReady,
            SessionEvent::ConnectAccepted,
            SessionEvent::ClientLoopExited,
            SessionEvent::ShutdownFlagSet,
            SessionEvent::Released,
        ],
    );
    assert_eq!(
        actions,
        vec![
            SessionAction::InitIdentity,
            SessionAction::OpenOutboundConnection,
            SessionAction::RunClientLoop,
            SessionAction::SetShutdownFlag,
            SessionAction::ReleaseResources,
            SessionAction::Exit(ExitStatus::Success),
        ]
    );
    assert_eq!(session.exit_status(), Some(ExitStatus::Success));
}

#[test]
fn colocated_session_joins_the_server_before_it_exits() {
    let mut session = Session::new(Topology::ClientWithColocatedServer);
    assert_eq!(session.step(SessionEvent::Launch), SessionAction::InitIdentity);
    assert_eq!(session.step(SessionEvent::IdentityReady), SessionAction::CreateListenEndpoint);
    assert_eq!(session.step(SessionEvent::EndpointBound), SessionAction::SpawnServerLoop);
    assert_eq!(
        session.step(SessionEvent::ServerLoopSpawned),
        SessionAction::OpenOutboundConnection
    );
    assert!(session.state().server_live);
    assert_eq!(session.step(SessionEvent::ConnectAccepted), SessionAction::RunClientLoop);
    // The primary loop exits: first the flag, then the join.
    assert_eq!(session.step(SessionEvent::ClientLoopExited), SessionAction::SetShutdownFlag);
    assert_eq!(session.step(SessionEvent::ShutdownFlagSet), SessionAction::JoinServerLoop);
    assert_eq!(session.phase(), SessionPhase::Joining);
    // Until the join completes nothing is released and nobody leaves.
    for event in EVERY_EVENT {
        if event != SessionEvent::ServerLoopExited {
            assert_eq!(session.step(event), SessionAction::Idle);
            assert_eq!(session.phase(), SessionPhase::Joining);
            assert_eq!(session.exit_status(), None);
        }
    }
    assert_eq!(session.step(SessionEvent::ServerLoopExited), SessionAction::ReleaseResources);
    assert!(!session.state().server_live);
    assert_eq!(session.step(SessionEvent::Released), SessionAction::Exit(ExitStatus::Success));
    assert_eq!(session.exit_status(), Some(ExitStatus::Success));
}

#[test]
fn spawned_server_stops_within_a_tick_of_the_primary_loops_exit() {
    let flag = ShouldExit::new();
    let mut session = Session::new(Topology::ClientWithColocatedServer);
    for event in [
        SessionEvent::Launch,
        SessionEvent::IdentityReady,
        SessionEvent::EndpointBound,
        SessionEvent::ServerLoopSpawned,
        SessionEvent::ConnectAccepted,
    ] {
        session.step(event);
    }
    let mut primary = TickLoop::new();
    let mut server = TickLoop::new();
    let server_flag = flag.clone();
    // The primary loop sets the flag in its third tick; the server ticks
    // at its own pace, here a little ahead of the primary loop.
    for _ in 0..8 {
        watch_exit(&server_flag, &mut server);
    }
    while !primary.is_stopped() {
        if primary.ticks() == 3 && primary.phase() == TickPhase::Simulate {
            flag.request();
        }
        watch_exit(&flag, &mut primary);
        watch_exit(&server_flag, &mut server);
    }
    assert_eq!(primary.ticks(), 3);
    assert_eq!(session.step(SessionEvent::ClientLoopExited), SessionAction::SetShutdownFlag);
    flag.request();
    assert_eq!(session.step(SessionEvent::ShutdownFlagSet), SessionAction::JoinServerLoop);
    // The join: the server loop is over after at most one more tick.
    let ticks_at_exit = server.ticks();
    let mut steps = 0;
    while !server.is_stopped() {
        watch_exit(&server_flag, &mut server);
        steps += 1;
        assert!(steps <= 6);
    }
    assert!(server.ticks() <= ticks_at_exit + 1);
    assert_eq!(session.exit_status(), None);
    assert_eq!(session.step(SessionEvent::ServerLoopExited), SessionAction::ReleaseResources);
    assert_eq!(session.step(SessionEvent::Released), SessionAction::Exit(ExitStatus::Success));
}

#[test]
fn dedicated_server_on_an_unbindable_address_fails_without_a_loop() {
    let (session, actions) = run(
        Topology::Dedicated,
        &[
            SessionEvent::Launch,
            SessionEvent::IdentityReady,
            SessionEvent::BindFailed,
            SessionEvent::Reported,
            SessionEvent::Released,
        ],
    );
    assert_eq!(
        actions,
        vec![
            SessionAction::InitIdentity,
            SessionAction::CreateListenEndpoint,
            SessionAction::Report(StartupError::BindFailed),
            SessionAction::ReleaseResources,
            SessionAction::Exit(ExitStatus::Failure),
        ]
    );
    assert!(!actions.contains(&SessionAction::RunServerLoop));
    assert_eq!(session.exit_status(), Some(ExitStatus::Failure));
    assert!(session.state().failed);
}

#[test]
fn colocated_bind_failure_leaves_the_client_running() {
    let (session, actions) = run(
        Topology::ClientWithColocatedServer,
        &[
            SessionEvent::Launch,
            SessionEvent::IdentityReady,
            SessionEvent::BindFailed,
            SessionEvent::Reported,
            SessionEvent::ConnectAccepted,
            SessionEvent::ClientLoopExited,
            SessionEvent::ShutdownFlagSet,
            SessionEvent::Released,
        ],
    );
    assert_eq!(
        actions,
        vec![
            SessionAction::InitIdentity,
            SessionAction::CreateListenEndpoint,
            SessionAction::Report(StartupError::BindFailed),
            SessionAction::OpenOutboundConnection,
            SessionAction::RunClientLoop,
            SessionAction::SetShutdownFlag,
            // No server loop was spawned, so there is nothing to join.
            SessionAction::ReleaseResources,
            SessionAction::Exit(ExitStatus::Failure),
        ]
    );
    assert_eq!(session.exit_status(), Some(ExitStatus::Failure));
}

#[test]
fn failed_connect_is_reported_and_the_client_loop_runs() {
    let (session, actions) = run(
        Topology::ClientOnly,
        &[
            SessionEvent::Launch,
            SessionEvent::IdentityReady,
            SessionEvent::ConnectFailed,
            SessionEvent::Reported,
            SessionEvent::ClientLoopExited,
            SessionEvent::ShutdownFlagSet,
            SessionEvent::Released,
        ],
    );
    assert_eq!(
        actions,
        vec![
            SessionAction::InitIdentity,
            SessionAction::OpenOutboundConnection,
            SessionAction::Report(StartupError::ConnectFailed),
            SessionAction::RunClientLoop,
            SessionAction::SetShutdownFlag,
            SessionAction::ReleaseResources,
            SessionAction::Exit(ExitStatus::Success),
        ]
    );
    assert!(!session.state().failed);
}

#[test]
fn failed_identity_ends_the_process_at_once() {
    for topology in EVERY_TOPOLOGY {
        let (session, actions) = run(
            topology,
            &[SessionEvent::Launch, SessionEvent::IdentityFailed, SessionEvent::Reported],
        );
        assert_eq!(
            actions,
            vec![
                SessionAction::InitIdentity,
                SessionAction::Report(StartupError::IdentityInitFailed),
                SessionAction::Exit(ExitStatus::Failure),
            ]
        );
        assert_eq!(session.exit_status(), Some(ExitStatus::Failure));
        assert!(!session.state().identity_live);
    }
}

#[test]
fn nothing_is_bound_or_connected_after_a_failed_identity() {
    // Every run of three further events after the failure, in every
    // topology, before and after the report.
    for topology in EVERY_TOPOLOGY {
        for a in EVERY_EVENT {
            for b in EVERY_EVENT {
                for c in EVERY_EVENT {
                    let mut session = Session::new(topology);
                    session.step(SessionEvent::Launch);
                    session.step(SessionEvent::IdentityFailed);
                    for event in [a, b, c] {
                        let action = session.step(event);
                        assert!(
                            action == SessionAction::Idle
                                || action == SessionAction::Exit(ExitStatus::Failure)
                        );
                    }
                    assert!(!session.state().identity_live);
                    assert!(!session.state().endpoint_live);
                }
            }
        }
    }
}

#[test]
fn events_out_of_turn_change_nothing() {
    let mut session = Session::new(Topology::Dedicated);
    for event in EVERY_EVENT {
        if event != SessionEvent::Launch {
            assert_eq!(session.step(event), SessionAction::Idle);
            assert_eq!(session.state(), Session::new(Topology::Dedicated).state());
        }
    }
    session.step(SessionEvent::Launch);
    let waiting = session.state();
    assert_eq!(session.step(SessionEvent::Launch), SessionAction::Idle);
    assert_eq!(session.step(SessionEvent::EndpointBound), SessionAction::Idle);
    assert_eq!(session.state(), waiting);
}

#[test]
fn exited_session_answers_nothing() {
    let (mut session, _) = run(
        Topology::ClientOnly,
        &[SessionEvent::Launch, SessionEvent::IdentityFailed, SessionEvent::Reported],
    );
    for event in EVERY_EVENT {
        assert_eq!(session.step(event), SessionAction::Idle);
        assert_eq!(session.exit_status(), Some(ExitStatus::Failure));
    }
}

#[test]
fn every_reachable_state_keeps_the_shutdown_order() {
    // All runs of up to five events in every topology.
    for topology in EVERY_TOPOLOGY {
        let mut frontier = vec![Session::new(topology)];
        for _ in 0..5 {
            let mut next = Vec::new();
            for session in &frontier {
                for event in EVERY_EVENT {
                    let mut stepped = *session;
                    let action = stepped.step(event);
                    let state = stepped.state();
                    assert!(!state.endpoint_live || state.identity_live);
                    assert!(!state.server_live || state.endpoint_live);
                    if action == SessionAction::JoinServerLoop {
                        assert!(state.flag_set);
                    }
                    if action == SessionAction::ReleaseResources {
                        assert!(!state.server_live);
                    }
                    if let SessionAction::Exit(_) = action {
                        assert!(!state.server_live);
                        assert!(!state.identity_live && !state.endpoint_live);
                    }
                    if action != SessionAction::Idle {
                        next.push(stepped);
                    }
                }
            }
            frontier = next;
        }
    }
}

fn follow(session: Session, asked: &mut Vec<SessionAction>, ended: &mut usize) {
    let mut moved = false;
    for event in EVERY_EVENT {
        let mut next = session;
        let action = next.step(event);
        if action == SessionAction::Idle {
            assert_eq!(next.state(), session.state());
            continue;
        }
        moved = true;
        assert!(!asked.contains(&action));
        asked.push(action);
        assert!(asked.len() <= 10);
        follow(next, asked, ended);
        asked.pop();
    }
    if !moved {
        // Nothing is due any more: the process has been left.
        assert!(session.exit_status().is_some());
        *ended += 1;
    }
}

#[test]
fn every_session_ends_and_asks_for_nothing_twice() {
    for topology in EVERY_TOPOLOGY {
        let mut ended = 0;
        follow(Session::new(topology), &mut Vec::new(), &mut ended);
        assert!(ended >= 2);
    }
}
