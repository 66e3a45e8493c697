use std::path::PathBuf;

use persona_introspect::environment::{Environment, EnvironmentVariable};
use persona_introspect::runtime::{
    IntrospectionRoot, IntrospectionRootInput, ManagerClient, NotaProjection, QueryPlanner,
    RouterClient, StartedRoot, TargetDirectory, TerminalClient,
};
use persona_introspect::signal::{
    CorrelationId, EngineId, EngineSnapshotQuery, IntrospectionReply, IntrospectionRequest,
    IntrospectionTarget, PrototypeWitnessQuery,
};
use persona_introspect::targets::{peer_count, peer_role, PeerRole, TargetSocketDirectory};

fn environment(variables: &[(&str, &str)]) -> Environment {
    Environment::new(
        variables
            .iter()
            .map(|(name, value)| EnvironmentVariable {
                name: name.to_string(),
                value: PathBuf::from(value),
            })
            .collect(),
    )
}

fn path(text: &str) -> Option<PathBuf> {
    Some(PathBuf::from(text))
}

#[test]
fn directory_is_described_by_the_environment() {
    let directory = TargetSocketDirectory::from_environment(&environment(&[
        ("PERSONA_MANAGER_SOCKET_PATH", "/run/manager.sock"),
        ("PERSONA_PEER_SOCKET_COUNT", "12"),
        ("PERSONA_PEER_0_COMPONENT", "persona-router"),
        ("PERSONA_PEER_0_SOCKET_PATH", "/run/router.sock"),
        ("PERSONA_PEER_1_COMPONENT", "persona-mind"),
        ("PERSONA_PEER_1_SOCKET_PATH", "/run/mind.sock"),
        ("PERSONA_PEER_11_COMPONENT", "terminal"),
        ("PERSONA_PEER_11_SOCKET_PATH", "/run/terminal.sock"),
    ]));
    assert_eq!(
        directory,
        TargetSocketDirectory {
            manager_socket: path("/run/manager.sock"),
            router_socket: path("/run/router.sock"),
            terminal_socket: path("/run/terminal.sock"),
        }
    );
}

#[test]
fn last_peer_of_a_role_counts() {
    let directory = TargetSocketDirectory::from_environment(&environment(&[
        ("PERSONA_PEER_SOCKET_COUNT", "3"),
        ("PERSONA_PEER_2_COMPONENT", "router"),
        ("PERSONA_PEER_2_SOCKET_PATH", "/run/late.sock"),
        ("PERSONA_PEER_0_COMPONENT", "router"),
        ("PERSONA_PEER_0_SOCKET_PATH", "/run/early.sock"),
        ("PERSONA_PEER_3_COMPONENT", "router"),
        ("PERSONA_PEER_3_SOCKET_PATH", "/run/uncounted.sock"),
    ]));
    assert_eq!(directory.router_socket, path("/run/late.sock"));
    assert_eq!(directory.terminal_socket, None);
}

#[test]
fn incomplete_peers_are_skipped() {
    let directory = TargetSocketDirectory::from_environment(&environment(&[
        ("PERSONA_PEER_SOCKET_COUNT", "3"),
        ("PERSONA_PEER_0_COMPONENT", "terminal"),
        ("PERSONA_PEER_1_SOCKET_PATH", "/run/nameless.sock"),
        ("PERSONA_PEER_2_COMPONENT", "persona-terminal"),
        ("PERSONA_PEER_2_SOCKET_PATH", "/run/terminal.sock"),
    ]));
    assert_eq!(directory.terminal_socket, path("/run/terminal.sock"));
    assert_eq!(directory.router_socket, None);
    assert_eq!(directory.manager_socket, None);
}

#[test]
fn peers_do_not_count_without_a_number() {
    for count in ["", "-1", "two", "1.0", "99999999999999999999999"] {
        assert_eq!(
            TargetSocketDirectory::from_environment(&environment(&[
                ("PERSONA_PEER_SOCKET_COUNT", count),
                ("PERSONA_PEER_0_COMPONENT", "router"),
                ("PERSONA_PEER_0_SOCKET_PATH", "/run/router.sock"),
            ])),
            TargetSocketDirectory::empty()
        );
    }
    assert_eq!(
        TargetSocketDirectory::from_environment(&environment(&[])),
        TargetSocketDirectory::empty()
    );
}

#[test]
fn count_is_read_in_decimal() {
    let count = |text: &str| peer_count(Some(text.to_string()));
    assert_eq!(count("0"), 0);
    assert_eq!(count("007"), 7);
    assert_eq!(count("+12"), 12);
    assert_eq!(count(&usize::MAX.to_string()), usize::MAX);
    assert_eq!(count("0x10"), 0);
    assert_eq!(count("1 "), 0);
    assert_eq!(peer_count(None), 0);
}

#[test]
fn roles_go_by_name() {
    let role = |name: &str| peer_role(&name.to_string());
    assert_eq!(role("router"), Some(PeerRole::Router));
    assert_eq!(role("persona-router"), Some(PeerRole::Router));
    assert_eq!(role("terminal"), Some(PeerRole::Terminal));
    assert_eq!(role("persona-terminal"), Some(PeerRole::Terminal));
    assert_eq!(role("Router"), None);
    assert_eq!(role("persona-manager"), None);
    assert_eq!(role(""), None);
}

#[test]
fn entered_peer_replaces_its_predecessor() {
    let mut directory = TargetSocketDirectory::empty();
    directory.enter_peer(&"router".to_string(), PathBuf::from("/run/one.sock"));
    directory.enter_peer(&"terminal".to_string(), PathBuf::from("/run/two.sock"));
    directory.enter_peer(&"persona-router".to_string(), PathBuf::from("/run/three.sock"));
    directory.enter_peer(&"manager".to_string(), PathBuf::from("/run/four.sock"));
    assert_eq!(
        directory,
        TargetSocketDirectory {
            manager_socket: None,
            router_socket: path("/run/three.sock"),
            terminal_socket: path("/run/two.sock"),
        }
    );
}

#[test]
fn first_variable_of_a_name_counts() {
    let variables = environment(&[("A", "1"), ("B", "2"), ("A", "3")]);
    assert_eq!(variables.value(&"A".to_string()), path("1"));
    assert_eq!(variables.text(&"B".to_string()), Some("2".to_string()));
    assert_eq!(variables.value(&"C".to_string()), None);
    assert_eq!(variables.text(&"C".to_string()), None);
}

fn started() -> StartedRoot {
    IntrospectionRoot::start_root(IntrospectionRootInput {
        targets: TargetSocketDirectory {
            manager_socket: path("/run/manager.sock"),
            router_socket: None,
            terminal_socket: path("/run/terminal.sock"),
        },
    })
}

#[test]
fn parts_start_with_what_concerns_them() {
    let parts = started();
    assert_eq!(
        parts.target_directory.sockets(),
        &TargetSocketDirectory {
            manager_socket: path("/run/manager.sock"),
            router_socket: None,
            terminal_socket: path("/run/terminal.sock"),
        }
    );
    assert_eq!(
        parts.manager_client.socket(),
        Some(&PathBuf::from("/run/manager.sock"))
    );
    assert_eq!(parts.router_client.socket(), None);
    assert_eq!(
        parts.terminal_client.socket(),
        Some(&PathBuf::from("/run/terminal.sock"))
    );
    assert_eq!(parts.query_planner.planned_queries(), 0);
    assert_eq!(parts.projection.rendered_outputs(), 0);
}

#[test]
fn parts_keep_what_they_are_given() {
    let socket = path("/run/any.sock");
    let given = Some(&PathBuf::from("/run/any.sock")).cloned();
    assert_eq!(ManagerClient::new(socket.clone()).socket().cloned(), given);
    assert_eq!(RouterClient::new(socket.clone()).socket().cloned(), given);
    assert_eq!(TerminalClient::new(socket).socket().cloned(), given);
    assert_eq!(
        TargetDirectory::new(TargetSocketDirectory::empty()).sockets(),
        &TargetSocketDirectory::empty()
    );
    assert_eq!(QueryPlanner::default(), QueryPlanner::new());
    assert_eq!(NotaProjection::default(), NotaProjection::new());
}

#[test]
fn every_question_is_counted() {
    let mut root = started().root;
    assert_eq!(format!("{root:?}"), "IntrospectionRoot { handled_queries: 0 }");
    root.handle_request(IntrospectionRequest::EngineSnapshot(EngineSnapshotQuery {
        engine: EngineId::new("one"),
    }));
    root.prototype_witness(PrototypeWitnessQuery {
        engine: EngineId::new("two"),
    });
    assert_eq!(format!("{root:?}"), "IntrospectionRoot { handled_queries: 2 }");
}

#[test]
fn answers_do_not_depend_on_earlier_questions() {
    let witness = || {
        IntrospectionRequest::PrototypeWitness(PrototypeWitnessQuery {
            engine: EngineId::new("two"),
        })
    };
    let mut root = started().root;
    let first = root.handle_request(witness());
    assert_eq!(root.handle_request(witness()), first);
    assert_eq!(
        root.prototype_witness(PrototypeWitnessQuery {
            engine: EngineId::new("two"),
        }),
        first
    );
}

#[test]
fn engine_snapshot_lists_the_observed_components() {
    let reply = started().root.handle_request(IntrospectionRequest::EngineSnapshot(
        EngineSnapshotQuery {
            engine: EngineId::new("one"),
        },
    ));
    match reply.clone() {
        IntrospectionReply::EngineSnapshot(snapshot) => {
            assert_eq!(snapshot.engine.as_str(), "one");
            assert_eq!(
                snapshot.observed_components,
                vec![
                    IntrospectionTarget::EngineManager,
                    IntrospectionTarget::Router,
                    IntrospectionTarget::Terminal,
                ]
            );
        }
        other => panic!("expected engine snapshot, got {other:?}"),
    }
    assert_eq!(reply.clone(), reply);
}

#[test]
fn names_come_back() {
    assert_eq!(EngineId::new("prototype").as_str(), "prototype");
    assert_eq!(CorrelationId::new("delivery-aab").as_str(), "delivery-aab");
    assert_ne!(EngineId::new("a"), EngineId::new("b"));
}
