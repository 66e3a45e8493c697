//! The command line: what is asked for, and how it is answered. With a socket in the environment
//! the question goes to the component that listens there; without one a root of the command's
//! own answers it.

use crate::actor::{resolve, resolves_to};
use crate::client::{ClientView, IntrospectionSignalClient, SubmissionConnecting};
use crate::codec::DEFAULT_MAXIMUM_FRAME_BYTES;
use crate::daemon::{no_targets, socket_of, IntrospectionSocket};
use crate::environment::{value_of, Environment};
use crate::error::Error;
use crate::path::{lossy_text_of, path_lossy_text};
use crate::runtime::{reply_to, ExplainPrototypeWitness, IntrospectionRootInput};
use crate::signal::{
    EngineId, IntrospectionReply, IntrospectionRequest, PrototypeWitnessQuery, RequestView,
};
use crate::surface::{engine_of, Input, PrototypeWitness};
use crate::targets::TargetSocketDirectory;
use kameo::error::SendError;
use std::path::PathBuf;
use vstd::prelude::*;
use vstd::string::*;

verus! {

/// The engine that is asked about if no argument says what is asked for.
pub const DEFAULT_ENGINE: &'static str = "prototype";

/// What a question to the command's own root is called where it fails.
pub const WITNESS_OPERATION: &'static str = "prototype witness";

/// The arguments with which the command was started.
#[derive(Debug, Clone, PartialEq, Eq)]
pub struct IntrospectCommandLine {
    arguments: Vec<PathBuf>,
}

impl View for IntrospectCommandLine {
    type V = Seq<PathBuf>;

    closed spec fn view(&self) -> Seq<PathBuf> {
        self.arguments@
    }
}

/// Where it is said what is asked for.
#[derive(Debug, PartialEq, Eq)]
pub enum InputSource {
    /// Here.
    Given(Input),
    /// In a text that is still to be parsed.
    Nota(String),
}

impl IntrospectCommandLine {
    pub fn from_arguments(arguments: Vec<PathBuf>) -> (res: Self)
        ensures
            res@ == arguments@,
    {
        Self { arguments }
    }

    /// What is asked for: the witness of the default engine's prototype if there is no argument,
    /// and otherwise what the only argument says. A second argument is an error.
    pub fn input(&self) -> (res: Result<InputSource, Error>)
        ensures
            self@.len() == 0 ==> {
                res matches Ok(InputSource::Given(Input::PrototypeWitness(witness)))
                    && witness.engine@ == DEFAULT_ENGINE@
            },
            self@.len() == 1 ==> {
                res matches Ok(InputSource::Nota(text)) && text@ == path_lossy_text(self@[0])
            },
            self@.len() > 1 ==> {
                res matches Err(Error::UnexpectedArgument { got }) && got@ == path_lossy_text(
                    self@[1],
                )
            },
    {
        if self.arguments.len() == 0 {
            Ok(
                InputSource::Given(
                    Input::PrototypeWitness(PrototypeWitness { engine: DEFAULT_ENGINE.to_owned() }),
                ),
            )
        } else if self.arguments.len() == 1 {
            Ok(InputSource::Nota(lossy_text_of(&self.arguments[0])))
        } else {
            Err(Error::UnexpectedArgument { got: lossy_text_of(&self.arguments[1]) })
        }
    }

    /// Starts to answer what is asked for: at the socket that the environment names, or else
    /// with a root of the command's own.
    pub fn run_input(&self, input: Input, environment: &Environment) -> (res: CommandStart)
        ensures
            match socket_of(environment@) {
                Some(socket) => {
                    &&& res matches CommandStart::Submit { client, request, .. }
                    &&& client@ == (ClientView {
                        socket,
                        maximum_frame_bytes: DEFAULT_MAXIMUM_FRAME_BYTES,
                    })
                    &&& request@ == (RequestView::PrototypeWitness { engine: engine_of(input) })
                },
                None => res matches CommandStart::StartRuntime { starting } && starting@ == input,
            },
    {
        match IntrospectionSocket::from_environment(environment) {
            Some(socket) => {
                let request = match input {
                    Input::PrototypeWitness(witness) => {
                        IntrospectionRequest::PrototypeWitness(witness.into_signal())
                    },
                };
                CommandStart::Submit {
                    submitting: CommandSubmitting { started: () },
                    client: socket.client(),
                    request,
                }
            },
            None => CommandStart::StartRuntime { starting: CommandStartingRuntime { input } },
        }
    }
}

/// What is to be done first to answer what is asked for.
#[derive(Debug)]
pub enum CommandStart {
    /// Ask the question with the client.
    Submit {
        submitting: CommandSubmitting,
        client: IntrospectionSignalClient,
        request: IntrospectionRequest,
    },
    /// Start what runs the root.
    StartRuntime { starting: CommandStartingRuntime },
}

/// A command whose question is being asked at a socket.
#[derive(Debug)]
pub struct CommandSubmitting {
    started: (),
}

impl CommandSubmitting {
    /// Takes the answer, which is to be rendered. An error ends the command.
    pub fn submitted<R>(self, outcome: Result<R, Error>) -> (res: Result<
        (CommandRendering, R),
        Error,
    >)
        ensures
            outcome matches Ok(reply) ==> res is Ok && res->Ok_0.1 == reply,
            outcome matches Err(error) ==> res == Err::<(CommandRendering, R), _>(error),
    {
        match outcome {
            Ok(reply) => Ok((CommandRendering { answered: () }, reply)),
            Err(error) => Err(error),
        }
    }
}

/// A command for which what runs the root is being started.
#[derive(Debug)]
pub struct CommandStartingRuntime {
    input: Input,
}

impl View for CommandStartingRuntime {
    type V = Input;

    closed spec fn view(&self) -> Input {
        self.input
    }
}

impl CommandStartingRuntime {
    /// Takes whether what runs the root was started. What the root is to start from is handed
    /// out: it knows nothing of its surroundings. An error ends the command.
    pub fn runtime_started(self, outcome: Result<(), Error>) -> (res: Result<
        (CommandStartingRoot, IntrospectionRootInput),
        Error,
    >)
        ensures
            outcome is Ok ==> res is Ok && res->Ok_0.0@ == self@ && res->Ok_0.1 == (
            IntrospectionRootInput { targets: no_targets() }),
            outcome matches Err(error) ==> res == Err::<
                (CommandStartingRoot, IntrospectionRootInput),
                _,
            >(error),
    {
        match outcome {
            Ok(()) => Ok(
                (
                    CommandStartingRoot { input: self.input },
                    IntrospectionRootInput { targets: TargetSocketDirectory::empty() },
                ),
            ),
            Err(error) => Err(error),
        }
    }
}

/// A command whose root is being started.
#[derive(Debug)]
pub struct CommandStartingRoot {
    input: Input,
}

impl View for CommandStartingRoot {
    type V = Input;

    closed spec fn view(&self) -> Input {
        self.input
    }
}

impl CommandStartingRoot {
    /// Takes that the root was started. The message is handed out that is to be sent to it.
    pub fn root_started(self) -> (res: (CommandAsking, ExplainPrototypeWitness))
        ensures
            res.1.query.engine@ == engine_of(self@),
    {
        match self.input {
            Input::PrototypeWitness(witness) => (
                CommandAsking { started: () },
                ExplainPrototypeWitness { query: witness.into_signal() },
            ),
        }
    }
}

/// A command whose root is being asked.
#[derive(Debug)]
pub struct CommandAsking {
    started: (),
}

impl CommandAsking {
    /// Takes how the root answered. The answer is handed out that is to be rendered; an error
    /// ends the command.
    pub fn answered<R>(self, answer: Result<R, SendError<ExplainPrototypeWitness, Error>>) -> (res:
        Result<(CommandRendering, R), Error>)
        ensures
            match res {
                Ok((_, reply)) => resolves_to(answer, WITNESS_OPERATION, Ok(reply)),
                Err(error) => resolves_to(answer, WITNESS_OPERATION, Err(error)),
            },
    {
        match resolve(answer, WITNESS_OPERATION) {
            Ok(reply) => Ok((CommandRendering { answered: () }, reply)),
            Err(error) => Err(error),
        }
    }
}

/// A command whose answer is being rendered.
#[derive(Debug)]
pub struct CommandRendering {
    answered: (),
}

impl CommandRendering {
    /// Takes the answer as a text. The line is handed out that is to be written; an error ends
    /// the command.
    pub fn rendered(self, outcome: Result<String, Error>) -> (res: Result<
        (CommandWriting, String),
        Error,
    >)
        ensures
            outcome matches Ok(text) ==> res is Ok && res->Ok_0.1@ == text@.push('\n'),
            outcome matches Err(error) ==> res == Err::<(CommandWriting, String), _>(error),
    {
        match outcome {
            Ok(text) => {
                proof {
                    reveal_strlit("\n");
                }
                assert(text@ + "\n"@ == text@.push('\n'));
                Ok((CommandWriting { rendered: () }, text.concat("\n")))
            },
            Err(error) => Err(error),
        }
    }
}

/// A command whose answer is being written.
#[derive(Debug)]
pub struct CommandWriting {
    rendered: (),
}

impl CommandWriting {
    /// Takes whether the line was written, which is the outcome of the command.
    pub fn written(self, outcome: Result<(), Error>) -> (res: Result<(), Error>)
        ensures
            res == outcome,
    {
        outcome
    }
}

/// Asks for the witness of the prototype of an engine.
#[derive(Debug, Clone, PartialEq, Eq)]
pub struct PrototypeWitnessDefault {
    pub engine: EngineId,
}

impl PrototypeWitnessDefault {
    /// The question that asks for the witness.
    pub fn into_query(self) -> (res: PrototypeWitnessQuery)
        ensures
            res == (PrototypeWitnessQuery { engine: self.engine }),
    {
        PrototypeWitnessQuery { engine: self.engine }
    }
}

/// The question is the same whether it goes to a socket or to a root of the command's own, and so
/// is the answer: what a root answers to the request is what a root answers to the message.
pub proof fn law_both_ways_ask_the_same(
    command_line: &IntrospectCommandLine,
    input: Input,
    connected: &Environment,
    alone: &Environment,
    submitting: CommandSubmitting,
    client: IntrospectionSignalClient,
    request: IntrospectionRequest,
    starting: CommandStartingRuntime,
    starting_root: CommandStartingRoot,
    root_input: IntrospectionRootInput,
    asking: CommandAsking,
    message: ExplainPrototypeWitness,
    remote: IntrospectionReply,
    local: IntrospectionReply,
)
    requires
        call_ensures(
            IntrospectCommandLine::run_input,
            (command_line, input, connected),
            CommandStart::Submit { submitting, client, request },
        ),
        call_ensures(
            IntrospectCommandLine::run_input,
            (command_line, input, alone),
            CommandStart::StartRuntime { starting },
        ),
        call_ensures(
            CommandStartingRuntime::runtime_started,
            (starting, Ok(())),
            Ok((starting_root, root_input)),
        ),
        call_ensures(CommandStartingRoot::root_started, (starting_root,), (asking, message)),
        remote@ == reply_to(request@),
        local@ == reply_to(RequestView::PrototypeWitness { engine: message.query.engine@ }),
    ensures
        request@ == (RequestView::PrototypeWitness { engine: message.query.engine@ }),
        remote@ == local@,
{
}

/// A command that asks at a socket ends with the first failure, which is the outcome: that the
/// question was not answered, that the answer was not rendered, or that it was not written. What
/// is rendered is the answer, and what is written is its text as a line.
pub proof fn law_asking_command_ends_with_the_first_failure<R>(
    submitting: CommandSubmitting,
    submitted: Result<R, Error>,
    rendering: Result<(CommandRendering, R), Error>,
    rendered: Result<String, Error>,
    writing: Result<(CommandWriting, String), Error>,
    written: Result<(), Error>,
    result: Result<(), Error>,
)
    requires
        call_ensures(CommandSubmitting::submitted::<R>, (submitting, submitted), rendering),
        is_finished(rendering, rendered, writing, written, result),
    ensures
        rendering matches Ok((_, reply)) ==> submitted == Ok::<R, Error>(reply),
        writing matches Ok((_, line)) ==> rendered matches Ok(text) && line@ == text@.push('\n'),
        result == (match (submitted, rendered) {
            (Err(error), _) => Err(error),
            (Ok(_), Err(error)) => Err(error),
            (Ok(_), Ok(_)) => written,
        }),
{
}

/// A command with a root of its own ends with the first failure, which is the outcome: that what
/// runs the root was not started, that the root did not answer, that the answer was not rendered,
/// or that it was not written. What is rendered is the answer of the root, and what is written is
/// its text as a line.
pub proof fn law_answering_command_ends_with_the_first_failure<R>(
    starting: CommandStartingRuntime,
    started: Result<(), Error>,
    starting_root: Result<(CommandStartingRoot, IntrospectionRootInput), Error>,
    asking: CommandAsking,
    message: ExplainPrototypeWitness,
    answer: Result<R, SendError<ExplainPrototypeWitness, Error>>,
    rendering: Result<(CommandRendering, R), Error>,
    rendered: Result<String, Error>,
    writing: Result<(CommandWriting, String), Error>,
    written: Result<(), Error>,
    result: Result<(), Error>,
)
    requires
        call_ensures(CommandStartingRuntime::runtime_started, (starting, started), starting_root),
        match starting_root {
            Ok((starting_root, _)) => {
                &&& call_ensures(
                    CommandStartingRoot::root_started,
                    (starting_root,),
                    (asking, message),
                )
                &&& call_ensures(CommandAsking::answered::<R>, (asking, answer), rendering)
            },
            Err(error) => rendering == Err::<(CommandRendering, R), Error>(error),
        },
        is_finished(rendering, rendered, writing, written, result),
    ensures
        starting_root is Ok ==> message.query.engine@ == engine_of(starting@),
        rendering matches Ok((_, reply)) ==> started is Ok && answer == Ok::<
            R,
            SendError<ExplainPrototypeWitness, Error>,
        >(reply),
        writing matches Ok((_, line)) ==> rendered matches Ok(text) && line@ == text@.push('\n'),
        match (started, answer, rendered) {
            (Err(error), _, _) => result == Err::<(), Error>(error),
            (Ok(()), Err(_), _) => result matches Err(error) && resolves_to(
                answer,
                WITNESS_OPERATION,
                Err(error),
            ),
            (Ok(()), Ok(_), Err(error)) => result == Err::<(), Error>(error),
            (Ok(()), Ok(_), Ok(_)) => result == written,
        },
{
}

/// Whether this is how a command ends that is to render an answer, or that has failed to get one.
pub open spec fn is_finished<R>(
    rendering: Result<(CommandRendering, R), Error>,
    rendered: Result<String, Error>,
    writing: Result<(CommandWriting, String), Error>,
    written: Result<(), Error>,
    result: Result<(), Error>,
) -> bool {
    &&& match rendering {
        Ok((rendering, _)) => call_ensures(
            CommandRendering::rendered,
            (rendering, rendered),
            writing,
        ),
        Err(error) => writing == Err::<(CommandWriting, String), Error>(error),
    }
    &&& match writing {
        Ok((writing, _)) => call_ensures(CommandWriting::written, (writing, written), result),
        Err(error) => result == Err::<(), Error>(error),
    }
}

/// Without an argument the witness of the engine "prototype" is asked for. The only argument is the
/// text that says what is asked for. With more, the second is turned down, whatever the others are.
pub proof fn law_arguments_say_what_is_asked_for(
    arguments: Vec<PathBuf>,
    command_line: IntrospectCommandLine,
    source: Result<InputSource, Error>,
)
    requires
        call_ensures(IntrospectCommandLine::from_arguments, (arguments,), command_line),
        call_ensures(IntrospectCommandLine::input, (&command_line,), source),
    ensures
        arguments@.len() == 0 ==> {
            source matches Ok(InputSource::Given(Input::PrototypeWitness(witness)))
                && witness.engine@ == "prototype"@
        },
        arguments@.len() == 1 ==> {
            source matches Ok(InputSource::Nota(text)) && text@ == path_lossy_text(arguments@[0])
        },
        arguments@.len() > 1 ==> {
            source matches Err(Error::UnexpectedArgument { got }) && got@ == path_lossy_text(
                arguments@[1],
            )
        },
{
}

/// With a socket in the environment the question goes there, and it asks about the engine that the
/// input names, character for character. The socket is the value of PERSONA_INTROSPECT_SOCKET, or
/// of PERSONA_SOCKET_PATH where the other is not set.
pub proof fn law_named_engine_is_asked_about_at_the_socket(
    command_line: &IntrospectCommandLine,
    witness: PrototypeWitness,
    environment: &Environment,
    start: CommandStart,
    connecting: SubmissionConnecting<IntrospectionRequest>,
    socket: PathBuf,
)
    requires
        call_ensures(
            IntrospectCommandLine::run_input,
            (command_line, Input::PrototypeWitness(witness), environment),
            start,
        ),
        start matches CommandStart::Submit { client, request, .. } ==> call_ensures(
            IntrospectionSignalClient::submit::<IntrospectionRequest>,
            (&client, request),
            (connecting, socket),
        ),
    ensures
        start is Submit <==> value_of(environment@, "PERSONA_INTROSPECT_SOCKET"@) is Some
            || value_of(environment@, "PERSONA_SOCKET_PATH"@) is Some,
        start matches CommandStart::Submit { request, .. } ==> {
            &&& request matches IntrospectionRequest::PrototypeWitness(query) && query.engine@
                == witness.engine@
            &&& value_of(environment@, "PERSONA_INTROSPECT_SOCKET"@) matches Some(own) ==> socket
                == own
            &&& value_of(environment@, "PERSONA_INTROSPECT_SOCKET"@) is None ==> value_of(
                environment@,
                "PERSONA_SOCKET_PATH"@,
            ) == Some(socket)
        },
        start matches CommandStart::Submit { request, .. } ==> request@ == (
        RequestView::PrototypeWitness { engine: witness.engine@ }),
{
}

/// Without a socket in the environment a root of the command's own is asked. It starts without
/// knowing any socket, and is asked about the engine that the input names, character for
/// character.
pub proof fn law_named_engine_is_asked_about_at_an_own_root(
    command_line: &IntrospectCommandLine,
    witness: PrototypeWitness,
    environment: &Environment,
    starting: CommandStartingRuntime,
    starting_root: CommandStartingRoot,
    root_input: IntrospectionRootInput,
    asking: CommandAsking,
    message: ExplainPrototypeWitness,
)
    requires
        call_ensures(
            IntrospectCommandLine::run_input,
            (command_line, Input::PrototypeWitness(witness), environment),
            CommandStart::StartRuntime { starting },
        ),
        call_ensures(
            CommandStartingRuntime::runtime_started,
            (starting, Ok(())),
            Ok((starting_root, root_input)),
        ),
        call_ensures(CommandStartingRoot::root_started, (starting_root,), (asking, message)),
    ensures
        value_of(environment@, "PERSONA_INTROSPECT_SOCKET"@) is None,
        value_of(environment@, "PERSONA_SOCKET_PATH"@) is None,
        root_input.targets.manager_socket is None,
        root_input.targets.router_socket is None,
        root_input.targets.terminal_socket is None,
        message.query.engine@ == witness.engine@,
{
}

/// Without an argument the engine "prototype" is asked about, whichever way it is asked.
pub proof fn law_prototype_is_asked_about_without_an_argument(
    arguments: Vec<PathBuf>,
    command_line: IntrospectCommandLine,
    input: Input,
    environment: &Environment,
    start: CommandStart,
    starting_root: CommandStartingRoot,
    root_input: IntrospectionRootInput,
    asking: CommandAsking,
    message: ExplainPrototypeWitness,
)
    requires
        arguments@.len() == 0,
        call_ensures(IntrospectCommandLine::from_arguments, (arguments,), command_line),
        call_ensures(
            IntrospectCommandLine::input,
            (&command_line,),
            Ok(InputSource::Given(input)),
        ),
        call_ensures(IntrospectCommandLine::run_input, (&command_line, input, environment), start),
        start matches CommandStart::StartRuntime { starting } ==> {
            &&& call_ensures(
                CommandStartingRuntime::runtime_started,
                (starting, Ok(())),
                Ok((starting_root, root_input)),
            )
            &&& call_ensures(CommandStartingRoot::root_started, (starting_root,), (asking, message))
        },
    ensures
        start matches CommandStart::Submit { request, .. } ==> request matches
            IntrospectionRequest::PrototypeWitness(query) && query.engine@ == "prototype"@,
        start is StartRuntime ==> message.query.engine@ == "prototype"@,
{
}

/// The question for a witness is about the engine that it is to be the witness of.
pub proof fn law_question_is_about_the_engine_of_the_witness(
    witness: PrototypeWitness,
    query: PrototypeWitnessQuery,
    engine: EngineId,
    default_query: PrototypeWitnessQuery,
)
    requires
        call_ensures(PrototypeWitness::into_signal, (witness,), query),
        call_ensures(
            PrototypeWitnessDefault::into_query,
            (PrototypeWitnessDefault { engine },),
            default_query,
        ),
    ensures
        query.engine@ == witness.engine@,
        default_query.engine == engine,
{
}

/// An answer of the command's own root is rendered as it is. An error that the root answered with
/// ends the command as it is, and any other failure ends it with an error that names the witness
/// and what happened.
pub proof fn law_answer_of_the_own_root_is_rendered<R>(
    asking: CommandAsking,
    answer: Result<R, SendError<ExplainPrototypeWitness, Error>>,
    rendering: Result<(CommandRendering, R), Error>,
)
    requires
        call_ensures(CommandAsking::answered::<R>, (asking, answer), rendering),
    ensures
        match answer {
            Ok(reply) => rendering matches Ok((_, given)) && given == reply,
            Err(SendError::HandlerError(error)) => rendering matches Err(given) && given == error,
            Err(failure) => {
                &&& rendering matches Err(Error::Actor { operation, detail })
                &&& operation@ == "prototype witness"@
                &&& detail@ == (match failure {
                    SendError::ActorNotRunning(_) => "ActorNotRunning"@,
                    SendError::ActorStopped => "ActorStopped"@,
                    SendError::MailboxFull(_) => "MailboxFull"@,
                    _ => "Timeout"@,
                })
            },
        },
{
}

} // verus!
