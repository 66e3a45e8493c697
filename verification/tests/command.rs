use std::path::PathBuf;

use kameo::error::SendError;
use persona_introspect::command::{
    CommandStart, InputSource, IntrospectCommandLine, PrototypeWitnessDefault,
};
use persona_introspect::daemon::IntrospectionSocket;
use persona_introspect::environment::{Environment, EnvironmentVariable};
use persona_introspect::error::Error;
use persona_introspect::runtime::IntrospectionRootInput;
use persona_introspect::signal::{EngineId, IntrospectionRequest, PrototypeWitnessQuery};
use persona_introspect::surface::{Input, PrototypeWitness};
use persona_introspect::targets::TargetSocketDirectory;

fn line(arguments: &[&str]) -> IntrospectCommandLine {
    IntrospectCommandLine::from_arguments(arguments.iter().map(PathBuf::from).collect())
}

fn input(engine: &str) -> Input {
    Input::PrototypeWitness(PrototypeWitness {
        engine: engine.to_string(),
    })
}

fn query(engine: &str) -> PrototypeWitnessQuery {
    PrototypeWitnessQuery {
        engine: EngineId::new(engine),
    }
}

#[test]
fn prototype_is_asked_for_without_an_argument() {
    assert_eq!(
        line(&[]).input().expect("input"),
        InputSource::Given(input("prototype"))
    );
}

#[test]
fn only_argument_says_what_is_asked_for() {
    assert_eq!(
        line(&["(PrototypeWitness alpha)"]).input().expect("input"),
        InputSource::Nota("(PrototypeWitness alpha)".to_string())
    );
}

#[test]
fn second_argument_is_turned_down() {
    match line(&["one", "two", "three"]).input() {
        Err(Error::UnexpectedArgument { got }) => assert_eq!(got, "two"),
        other => panic!("expected an unexpected argument, got {other:?}"),
    }
}

#[test]
fn question_goes_to_the_socket_of_the_environment() {
    let environment = Environment::new(vec![EnvironmentVariable {
        name: "PERSONA_INTROSPECT_SOCKET".to_string(),
        value: PathBuf::from("/run/introspect.sock"),
    }]);
    match line(&[]).run_input(input("alpha"), &environment) {
        CommandStart::Submit {
            submitting,
            client,
            request,
        } => {
            assert_eq!(
                client,
                IntrospectionSocket::from_path(PathBuf::from("/run/introspect.sock")).client()
            );
            assert_eq!(
                request,
                IntrospectionRequest::PrototypeWitness(query("alpha"))
            );
            let (rendering, reply) = submitting.submitted(Ok('r')).expect("reply");
            assert_eq!(reply, 'r');
            let (writing, text) = rendering
                .rendered(Ok("(Witness alpha)".to_string()))
                .expect("text");
            assert_eq!(text, "(Witness alpha)\n");
            assert!(writing.written(Ok(())).is_ok());
        }
        other => panic!("expected a submission, got {other:?}"),
    }
}

#[test]
fn failed_submission_ends_the_command() {
    let environment = Environment::new(vec![EnvironmentVariable {
        name: "PERSONA_SOCKET_PATH".to_string(),
        value: PathBuf::from("/run/introspect.sock"),
    }]);
    match line(&[]).run_input(input("alpha"), &environment) {
        CommandStart::Submit { submitting, .. } => assert!(matches!(
            submitting.submitted::<char>(Err(Error::Nota {
                detail: "bad".to_string()
            })),
            Err(Error::Nota { .. })
        )),
        other => panic!("expected a submission, got {other:?}"),
    }
}

#[test]
fn own_root_answers_without_a_socket() {
    let starting = || match line(&[]).run_input(input("alpha"), &Environment::new(vec![])) {
        CommandStart::StartRuntime { starting } => starting,
        other => panic!("expected a root of its own, got {other:?}"),
    };
    assert!(starting()
        .runtime_started(Err(Error::IntrospectionSocketMissing))
        .is_err());

    let asking = || {
        let (starting_root, root_input) = starting().runtime_started(Ok(())).expect("runtime");
        assert_eq!(
            root_input,
            IntrospectionRootInput {
                targets: TargetSocketDirectory::empty()
            }
        );
        let (asking, message) = starting_root.root_started();
        assert_eq!(message.query, query("alpha"));
        asking
    };
    match asking().answered::<char>(Err(SendError::Timeout(None))) {
        Err(Error::Actor { operation, detail }) => {
            assert_eq!(operation, "prototype witness");
            assert_eq!(detail, "Timeout");
        }
        other => panic!("expected an actor error, got {other:?}"),
    }
    assert!(matches!(
        asking().answered::<char>(Err(SendError::HandlerError(
            Error::IntrospectionSocketMissing
        ))),
        Err(Error::IntrospectionSocketMissing)
    ));

    let (rendering, reply) = asking()
        .answered(Ok('r'))
        .expect("root answers");
    assert_eq!(reply, 'r');
    assert!(rendering
        .rendered(Err(Error::Nota {
            detail: "bad".to_string()
        }))
        .is_err());
    let (writing, _text) = asking()
        .answered(Ok('r'))
        .expect("root answers")
        .0
        .rendered(Ok(String::new()))
        .expect("text");
    assert!(writing
        .written(Err(Error::IntrospectionSocketMissing))
        .is_err());
}

#[test]
fn witness_default_becomes_its_query() {
    assert_eq!(
        PrototypeWitnessDefault {
            engine: EngineId::new("alpha")
        }
        .into_query(),
        query("alpha")
    );
}
