use std::path::PathBuf;

use kameo::error::SendError;
use persona_introspect::client::IntrospectionSignalClient;
use persona_introspect::codec::{FrameBody, IncomingFrame};
use persona_introspect::daemon::{
    BindAction, BindStep, IntrospectionDaemon, IntrospectionDaemonCommandLine,
    IntrospectionSocket, SocketMode,
};
use persona_introspect::environment::{Environment, EnvironmentVariable};
use persona_introspect::error::Error;
use persona_introspect::runtime::{IntrospectionRoot, IntrospectionRootInput};
use persona_introspect::serving::{
    BoundIntrospectionDaemon, ForeverStep, IntrospectionConnection, RunSupervising,
};
use persona_introspect::signal::{
    ComponentReadiness, ComponentSnapshotQuery, CorrelationId, DeliveryTraceQuery,
    DeliveryTraceStatus, EngineId, EngineSnapshotQuery, IntrospectionReply, IntrospectionRequest,
    IntrospectionTarget, PrototypeWitnessQuery,
};
use persona_introspect::targets::TargetSocketDirectory;

fn environment(variables: &[(&str, &str)]) -> Environment {
    Environment::new(
        variables
            .iter()
            .map(|(name, value)| EnvironmentVariable {
                name: name.to_string(),
                value: PathBuf::from(value),
            })
            .collect(),
    )
}

/// Brings a daemon up and gives what was asked for on the way.
fn come_up(daemon: IntrospectionDaemon) -> (BoundIntrospectionDaemon, Vec<BindAction>) {
    let mut actions = Vec::new();
    let mut step = daemon.bind();
    loop {
        match step {
            BindStep::Act { binding, action } => {
                actions.push(action);
                step = binding.advance(Ok(()));
            }
            BindStep::Finish { result } => return (result.expect("daemon binds"), actions),
        }
    }
}

type Frame = IncomingFrame<IntrospectionRequest, IntrospectionReply>;

fn arrived(body: FrameBody<IntrospectionRequest, IntrospectionReply>) -> Frame {
    let rendering = format!("{body:?}");
    IncomingFrame { body, rendering }
}

/// Asks one question of a daemon and gives the answer, as the daemon and the client both see it.
fn serve_one(request: IntrospectionRequest) -> IntrospectionReply {
    let socket = PathBuf::from("/run/persona/introspect.sock");
    let (bound, actions) = come_up(
        IntrospectionDaemon::from_socket(socket.clone(), &environment(&[]))
            .with_socket_mode(SocketMode::from_octal(0o600)),
    );
    assert!(actions.contains(&BindAction::SetMode {
        path: socket.clone(),
        mode: SocketMode::from_octal(0o600)
    }));
    let mut root = IntrospectionRoot::start_root(IntrospectionRootInput {
        targets: TargetSocketDirectory::empty(),
    })
    .root;

    let (connecting, connected_to) = IntrospectionSignalClient::new(socket.clone()).submit(request);
    assert_eq!(connected_to, socket);
    let (sending, question) = connecting.connected(Ok(())).expect("client connects");
    let (receiving, _codec) = sending.sent(Ok(())).expect("client sends");

    let handle = bound.serve_one().accepted(Ok(())).expect("daemon accepts");
    let (asking, message) = IntrospectionDaemon::handle_connection(
        IntrospectionConnection::accepted(),
        Ok(arrived(question)),
    )
    .expect("request arrives");
    let answer = root.handle_request(message.request);
    let (writing, reply) = asking
        .answered(Ok(answer))
        .expect("root answers");
    let stop = handle
        .handled(writing.written(Ok(())))
        .expect("connection is handled");
    let (remove, removed) = stop.stopped(Ok(())).expect("root stops").shut_down();
    assert_eq!(removed, socket);
    let served = remove.removed(Ok(()));

    let reply = receiving
        .received(Ok(arrived(reply)))
        .expect("client receives reply");
    assert_eq!(served, reply);
    reply
}

#[test]
fn daemon_applies_spawn_envelope_socket_mode() {
    let socket = PathBuf::from("/run/persona/introspect.sock");
    let (bound, actions) = come_up(
        IntrospectionDaemon::from_socket(socket.clone(), &environment(&[]))
            .with_socket_mode(SocketMode::from_octal(0o600)),
    );

    let mode = actions
        .iter()
        .find_map(|action| match action {
            BindAction::SetMode { path, mode } if path == bound.socket() => Some(mode.as_octal()),
            _ => None,
        })
        .expect("socket gets permissions")
        & 0o777;

    assert_eq!(mode, 0o600);
}

#[test]
fn daemon_serves_prototype_witness_over_signal_socket() {
    let reply = serve_one(IntrospectionRequest::PrototypeWitness(
        PrototypeWitnessQuery {
            engine: EngineId::new("prototype"),
        },
    ));

    match reply {
        IntrospectionReply::PrototypeWitness(witness) => {
            assert_eq!(witness.engine, EngineId::new("prototype"));
            assert_eq!(witness.manager_seen, ComponentReadiness::Unknown);
            assert_eq!(witness.router_seen, ComponentReadiness::Unknown);
            assert_eq!(witness.terminal_seen, ComponentReadiness::Unknown);
            assert_eq!(witness.delivery_status, DeliveryTraceStatus::Unknown);
        }
        other => panic!("expected prototype witness, got {other:?}"),
    }
}

#[test]
fn daemon_serves_scaffold_observation_replies_for_all_request_families() {
    let engine = EngineId::new("prototype");

    let engine_reply = serve_one(IntrospectionRequest::EngineSnapshot(EngineSnapshotQuery {
        engine: engine.clone(),
    }));
    match engine_reply {
        IntrospectionReply::EngineSnapshot(snapshot) => {
            assert_eq!(snapshot.engine, engine);
            assert!(snapshot
                .observed_components
                .contains(&IntrospectionTarget::EngineManager));
            assert!(snapshot
                .observed_components
                .contains(&IntrospectionTarget::Router));
            assert!(snapshot
                .observed_components
                .contains(&IntrospectionTarget::Terminal));
        }
        other => panic!("expected engine snapshot, got {other:?}"),
    }

    let component_reply = serve_one(IntrospectionRequest::ComponentSnapshot(
        ComponentSnapshotQuery {
            engine: EngineId::new("prototype"),
            target: IntrospectionTarget::Router,
        },
    ));
    match component_reply {
        IntrospectionReply::ComponentSnapshot(snapshot) => {
            assert_eq!(snapshot.target, IntrospectionTarget::Router);
            assert_eq!(snapshot.readiness, ComponentReadiness::Unknown);
        }
        other => panic!("expected component snapshot, got {other:?}"),
    }

    let delivery_reply = serve_one(IntrospectionRequest::DeliveryTrace(DeliveryTraceQuery {
        engine: EngineId::new("prototype"),
        correlation: CorrelationId::new("delivery-aab"),
    }));
    match delivery_reply {
        IntrospectionReply::DeliveryTrace(trace) => {
            assert_eq!(trace.correlation, CorrelationId::new("delivery-aab"));
            assert_eq!(trace.status, DeliveryTraceStatus::Unknown);
        }
        other => panic!("expected delivery trace, got {other:?}"),
    }
}

#[test]
fn socket_mode_keeps_its_value() {
    assert_eq!(SocketMode::from_octal(0o600).as_octal(), 0o600);
    assert_eq!(SocketMode::from_octal(u32::MAX).as_octal(), u32::MAX);
}

#[test]
fn socket_mode_is_read_in_octal() {
    let mode = |text: &str| SocketMode::from_text(&text.to_string()).map(|mode| mode.as_octal());
    assert_eq!(mode("600"), Some(384));
    assert_eq!(mode("+0600"), Some(384));
    assert_eq!(mode("37777777777"), Some(u32::MAX));
    assert_eq!(mode("40000000000"), None);
    assert_eq!(mode("608"), None);
    assert_eq!(mode("-600"), None);
    assert_eq!(mode(" 600"), None);
    assert_eq!(mode("6_00"), None);
    assert_eq!(mode("0o600"), None);
    assert_eq!(mode(""), None);
    assert_eq!(mode("+"), None);
}

#[test]
fn socket_mode_comes_from_the_environment() {
    assert_eq!(
        SocketMode::from_environment(&environment(&[("PERSONA_SOCKET_MODE", "640")])),
        Some(SocketMode::from_octal(0o640))
    );
    assert_eq!(
        SocketMode::from_environment(&environment(&[("PERSONA_SOCKET_MODE", "rw")])),
        None
    );
    assert_eq!(SocketMode::from_environment(&environment(&[])), None);
}

#[test]
fn socket_of_its_own_name_is_asked_first() {
    let path = |variables: &[(&str, &str)]| {
        IntrospectionSocket::from_environment(&environment(variables))
            .map(|socket| socket.path().clone())
    };
    assert_eq!(
        path(&[
            ("PERSONA_SOCKET_PATH", "/run/any.sock"),
            ("PERSONA_INTROSPECT_SOCKET", "/run/introspect.sock"),
        ]),
        Some(PathBuf::from("/run/introspect.sock"))
    );
    assert_eq!(
        path(&[("PERSONA_SOCKET_PATH", "/run/any.sock")]),
        Some(PathBuf::from("/run/any.sock"))
    );
    assert_eq!(path(&[]), None);
}

#[test]
fn socket_gives_a_client_of_its_path() {
    let socket = IntrospectionSocket::from_path(PathBuf::from("/run/introspect.sock"));
    assert_eq!(
        socket.client(),
        IntrospectionSignalClient::new(PathBuf::from("/run/introspect.sock"))
    );
    assert_ne!(
        socket.client(),
        IntrospectionSignalClient::new(PathBuf::from("/run/other.sock"))
    );
}

#[test]
fn command_line_says_where_the_daemon_listens() {
    let surroundings = environment(&[
        ("PERSONA_INTROSPECT_SOCKET", "/run/environment.sock"),
        ("PERSONA_SOCKET_MODE", "600"),
        ("PERSONA_MANAGER_SOCKET_PATH", "/run/manager.sock"),
    ]);
    let expected = |socket: &str| {
        IntrospectionDaemon::from_socket(PathBuf::from(socket), &environment(&[]))
            .with_socket_mode(SocketMode::from_octal(0o600))
            .with_targets(TargetSocketDirectory {
                manager_socket: Some(PathBuf::from("/run/manager.sock")),
                router_socket: None,
                terminal_socket: None,
            })
    };

    let argument =
        IntrospectionDaemonCommandLine::from_arguments(vec![PathBuf::from("/run/argument.sock")]);
    let daemon = argument.daemon(&surroundings).expect("daemon is made");
    assert_eq!(daemon, expected("/run/argument.sock"));
    assert_eq!(daemon.socket(), &PathBuf::from("/run/argument.sock"));

    let none = IntrospectionDaemonCommandLine::from_arguments(vec![]);
    assert_eq!(
        none.daemon(&surroundings).expect("daemon is made"),
        expected("/run/environment.sock")
    );
    assert!(matches!(
        none.daemon(&environment(&[])),
        Err(Error::IntrospectionSocketMissing)
    ));
}

#[test]
fn command_line_turns_down_a_second_argument() {
    let line = IntrospectionDaemonCommandLine::from_arguments(vec![
        PathBuf::from("/run/one.sock"),
        PathBuf::from("two"),
        PathBuf::from("three"),
    ]);
    match line.daemon(&environment(&[])) {
        Err(Error::UnexpectedArgument { got }) => assert_eq!(got, "two"),
        other => panic!("expected an unexpected argument, got {other:?}"),
    }
}

#[test]
fn settings_may_come_in_either_order() {
    let daemon = IntrospectionDaemon::from_socket(
        PathBuf::from("/run/introspect.sock"),
        &environment(&[("PERSONA_SOCKET_MODE", "666")]),
    );
    let targets = TargetSocketDirectory {
        manager_socket: None,
        router_socket: Some(PathBuf::from("/run/router.sock")),
        terminal_socket: None,
    };
    let mode = SocketMode::from_octal(0o600);
    assert_eq!(
        daemon
            .clone()
            .with_targets(targets.clone())
            .with_socket_mode(mode),
        daemon
            .clone()
            .with_socket_mode(SocketMode::from_octal(0o644))
            .with_socket_mode(mode)
            .with_targets(targets)
    );
    assert_ne!(daemon.clone().with_socket_mode(mode), daemon);
}

#[test]
fn daemon_comes_up_in_order() {
    let path = PathBuf::from("/run/persona/introspect.sock");
    let targets = TargetSocketDirectory {
        manager_socket: Some(PathBuf::from("/run/manager.sock")),
        router_socket: None,
        terminal_socket: None,
    };
    let daemon = IntrospectionDaemon::from_socket(path.clone(), &environment(&[]))
        .with_targets(targets.clone());

    let (bound, actions) = come_up(daemon.clone());
    assert_eq!(bound.socket(), &path);
    assert_eq!(
        actions,
        vec![
            BindAction::CreateDirectory {
                path: PathBuf::from("/run/persona")
            },
            BindAction::RemoveFile { path: path.clone() },
            BindAction::Listen { path: path.clone() },
            BindAction::StartRuntime,
            BindAction::StartRoot {
                input: IntrospectionRootInput {
                    targets: targets.clone()
                }
            },
        ]
    );

    let mode = SocketMode::from_octal(0o600);
    let (_bound, actions) = come_up(daemon.with_socket_mode(mode));
    assert_eq!(
        actions[2..4],
        [
            BindAction::Listen { path: path.clone() },
            BindAction::SetMode { path, mode },
        ]
    );
    assert_eq!(actions.len(), 6);
}

#[test]
fn socket_without_a_directory_needs_none() {
    let daemon = IntrospectionDaemon::from_socket(PathBuf::from("/"), &environment(&[]));
    let (_bound, actions) = come_up(daemon);
    assert_eq!(
        actions[0],
        BindAction::RemoveFile {
            path: PathBuf::from("/")
        }
    );
}

#[test]
fn failed_stage_ends_the_coming_up() {
    let failed = || Err(Error::SignalFrame { detail: "stage".to_string() });
    for failing in 0..6 {
        let daemon = IntrospectionDaemon::from_socket(
            PathBuf::from("/run/persona/introspect.sock"),
            &environment(&[("PERSONA_SOCKET_MODE", "600")]),
        );
        let mut step = daemon.run();
        let mut stage = 0;
        let result = loop {
            match step {
                BindStep::Act { binding, .. } => {
                    step = binding.advance(if stage == failing { failed() } else { Ok(()) });
                    stage += 1;
                }
                BindStep::Finish { result } => break result,
            }
        };
        if failing == 1 {
            assert!(result.is_ok());
            assert_eq!(stage, 6);
        } else {
            assert!(matches!(result, Err(Error::SignalFrame { .. })));
            assert_eq!(stage, failing + 1);
        }
    }
}

#[test]
fn frame_without_a_question_ends_the_connection() {
    let ended = IntrospectionDaemon::handle_connection::<()>(
        IntrospectionConnection::accepted(),
        Ok(IncomingFrame {
            body: FrameBody::ReplyOperation(()),
            rendering: "Reply(())".to_string(),
        }),
    );
    match ended {
        Err(Error::UnexpectedSignalFrame { got }) => assert_eq!(got, "Reply(())"),
        other => panic!("expected an unexpected frame, got {other:?}"),
    }

    let ended = IntrospectionDaemon::handle_connection::<()>(
        IntrospectionConnection::accepted(),
        Err(Error::from(std::io::Error::from(
            std::io::ErrorKind::UnexpectedEof,
        ))),
    );
    match ended {
        Err(Error::Io(error)) => assert_eq!(error.kind(), std::io::ErrorKind::UnexpectedEof),
        other => panic!("expected an input error, got {other:?}"),
    }
}

fn question() -> Frame {
    arrived(FrameBody::RequestOperation(
        IntrospectionRequest::PrototypeWitness(PrototypeWitnessQuery {
            engine: EngineId::new("prototype"),
        }),
    ))
}

#[test]
fn unanswered_question_ends_the_connection() {
    let asking = || {
        IntrospectionDaemon::handle_connection(IntrospectionConnection::accepted(), Ok(question()))
            .expect("request arrives")
            .0
    };
    let detail = |failure| match asking().answered::<()>(Err(failure)) {
        Err(Error::Actor { operation, detail }) => {
            assert_eq!(operation, "handle introspection request");
            detail
        }
        other => panic!("expected an actor error, got {other:?}"),
    };
    let message = || {
        IntrospectionDaemon::handle_connection(IntrospectionConnection::accepted(), Ok(question()))
            .expect("request arrives")
            .1
    };
    assert_eq!(detail(SendError::ActorStopped), "ActorStopped");
    assert_eq!(detail(SendError::ActorNotRunning(message())), "ActorNotRunning");
    assert_eq!(detail(SendError::MailboxFull(message())), "MailboxFull");
    assert_eq!(detail(SendError::Timeout(None)), "Timeout");
    assert!(matches!(
        asking().answered::<()>(Err(SendError::HandlerError(
            Error::IntrospectionSocketMissing
        ))),
        Err(Error::IntrospectionSocketMissing)
    ));
}

fn bound() -> BoundIntrospectionDaemon {
    come_up(IntrospectionDaemon::from_socket(
        PathBuf::from("/run/introspect.sock"),
        &environment(&[]),
    ))
    .0
}

fn some_reply() -> IntrospectionReply {
    serve_one(IntrospectionRequest::PrototypeWitness(
        PrototypeWitnessQuery {
            engine: EngineId::new("prototype"),
        },
    ))
}

fn missing<T>() -> Result<T, Error> {
    Err(Error::IntrospectionSocketMissing)
}

#[test]
fn failure_ends_the_serving_of_one() {
    assert!(bound().serve_one().accepted(missing()).is_err());
    assert!(bound()
        .serve_one()
        .accepted(Ok(()))
        .expect("daemon accepts")
        .handled(missing())
        .is_err());
    let detail = |failure| {
        let stop = bound()
            .serve_one()
            .accepted(Ok(()))
            .expect("daemon accepts")
            .handled(Ok(some_reply()))
            .expect("connection is handled");
        match stop.stopped(Err(failure)) {
            Err(Error::Actor { operation, detail }) => {
                assert_eq!(operation, "stop introspection root");
                detail
            }
            other => panic!("expected an actor error, got {other:?}"),
        }
    };
    assert_eq!(detail(SendError::ActorNotRunning(())), "actor not running");
    assert_eq!(detail(SendError::ActorStopped), "actor stopped");
    assert_eq!(detail(SendError::MailboxFull(())), "mailbox full");
    assert_eq!(detail(SendError::Timeout(None)), "timeout");
}

#[test]
fn failed_removal_does_not_matter() {
    let (remove, file) = bound()
        .serve_one()
        .accepted(Ok(()))
        .expect("daemon accepts")
        .handled(Ok(some_reply()))
        .expect("connection is handled")
        .stopped(Ok(()))
        .expect("root stops")
        .shut_down();
    assert_eq!(file, PathBuf::from("/run/introspect.sock"));
    assert_eq!(remove.removed(missing()), some_reply());
}

#[test]
fn serving_without_end_ends_with_a_failure() {
    assert!(matches!(bound().serve_forever(), ForeverStep::Accept));
    assert!(matches!(
        ForeverStep::accepted(Some(Ok(()))),
        ForeverStep::Handle
    ));
    assert!(matches!(
        ForeverStep::handled(Ok(some_reply())),
        ForeverStep::Accept
    ));
    assert!(matches!(
        ForeverStep::accepted(None),
        ForeverStep::Finish { result: Ok(()) }
    ));
    assert!(matches!(
        ForeverStep::accepted(Some(missing())),
        ForeverStep::Finish { result: Err(_) }
    ));
    assert!(matches!(
        ForeverStep::handled(missing()),
        ForeverStep::Finish { result: Err(_) }
    ));
}

/// Serves connections as they come in and are handled, and counts the steps taken.
fn serve_forever(
    incoming: Vec<Option<Result<(), Error>>>,
    outcomes: Vec<Result<IntrospectionReply, Error>>,
) -> (Result<(), Error>, usize) {
    let mut incoming = incoming.into_iter();
    let mut outcomes = outcomes.into_iter();
    let mut step = bound().serve_forever();
    let mut steps = 0;
    loop {
        step = match step {
            ForeverStep::Accept => ForeverStep::accepted(incoming.next().expect("incoming")),
            ForeverStep::Handle => ForeverStep::handled(outcomes.next().expect("outcome")),
            ForeverStep::Finish { result } => return (result, steps),
        };
        steps += 1;
    }
}

#[test]
fn serving_ends_with_the_first_failure() {
    let (result, steps) = serve_forever(
        vec![Some(Ok(())), Some(Ok(())), Some(missing())],
        vec![Ok(some_reply()), Ok(some_reply()), Ok(some_reply())],
    );
    assert!(matches!(result, Err(Error::IntrospectionSocketMissing)));
    assert_eq!(steps, 5);
    let (result, steps) = serve_forever(
        vec![Some(Ok(())), Some(Ok(())), Some(Ok(()))],
        vec![
            Ok(some_reply()),
            Err(Error::UnexpectedSignalFrame {
                got: "nothing".to_string(),
            }),
            missing(),
        ],
    );
    assert!(matches!(result, Err(Error::UnexpectedSignalFrame { got }) if got == "nothing"));
    assert_eq!(steps, 4);
    let (result, steps) = serve_forever(vec![Some(Ok(())), None], vec![Ok(some_reply())]);
    assert!(result.is_ok());
    assert_eq!(steps, 3);
}

#[test]
fn supervision_precedes_serving() {
    let supervising = RunSupervising::bound(Ok(bound())).expect("daemon is bound");
    assert_eq!(supervising.supervised(Ok(())).expect("supervised"), bound());
    assert!(RunSupervising::bound(Ok(bound()))
        .expect("daemon is bound")
        .supervised(missing())
        .is_err());
    assert!(RunSupervising::bound(missing()).is_err());
}

#[test]
fn first_error_ends_the_run() {
    let unexpected = || Error::UnexpectedArgument {
        got: "more".to_string(),
    };
    assert!(matches!(
        RunSupervising::bound(missing()),
        Err(Error::IntrospectionSocketMissing)
    ));
    let supervising = RunSupervising::bound(Ok(bound())).expect("daemon is bound");
    assert!(matches!(
        supervising.supervised(Err(unexpected())),
        Err(Error::UnexpectedArgument { got }) if got == "more"
    ));
    let daemon = IntrospectionDaemon::from_socket(
        PathBuf::from("/run/introspect.sock"),
        &environment(&[]),
    );
    let binding = match daemon.run() {
        BindStep::Act { binding, action } => {
            assert_eq!(
                action,
                BindAction::CreateDirectory {
                    path: PathBuf::from("/run")
                }
            );
            binding
        }
        other => panic!("expected a stage, got {other:?}"),
    };
    match binding.advance(Err(unexpected())) {
        BindStep::Finish { result } => assert!(matches!(
            RunSupervising::bound(result),
            Err(Error::UnexpectedArgument { got }) if got == "more"
        )),
        other => panic!("expected the end, got {other:?}"),
    }
}
