//! The daemon: where it listens, what it knows of its surroundings, and how it comes up.

pub use crate::client::IntrospectionSignalClient;
use crate::client::{ClientView, SubmissionConnecting};
pub use crate::codec::IntrospectionFrameCodec;
use crate::codec::DEFAULT_MAXIMUM_FRAME_BYTES;
use crate::environment::{text_value_of, value_of, Environment};
use crate::error::Error;
use crate::path::{lossy_text_of, parent_of, path_lossy_text, path_parent};
use crate::runtime::IntrospectionRootInput;
pub use crate::serving::BoundIntrospectionDaemon;
use crate::serving::{ForeverStep, RunSupervising};
use crate::targets::{directory_of, TargetSocketDirectory};
use crate::text::{parse_number, parsed_number};
use std::path::PathBuf;
use vstd::prelude::*;

verus! {

/// Names the socket of the introspection component.
pub const INTROSPECT_SOCKET_VARIABLE: &'static str = "PERSONA_INTROSPECT_SOCKET";

/// Names the socket of whichever component is started; asked where the other is not set.
pub const SOCKET_PATH_VARIABLE: &'static str = "PERSONA_SOCKET_PATH";

/// Gives the permissions of the socket, in octal.
pub const SOCKET_MODE_VARIABLE: &'static str = "PERSONA_SOCKET_MODE";

/// The base in which permissions are written.
pub const SOCKET_MODE_RADIX: u32 = 8;

/// The socket that a set of environment variables names: its own name is asked first.
pub open spec fn socket_of(variables: Seq<(Seq<char>, PathBuf)>) -> Option<PathBuf> {
    match value_of(variables, INTROSPECT_SOCKET_VARIABLE@) {
        Some(path) => Some(path),
        None => value_of(variables, SOCKET_PATH_VARIABLE@),
    }
}

/// The permissions that a text gives, if it is an octal number.
pub open spec fn socket_mode_in(text: Seq<char>) -> Option<u32> {
    match parsed_number(text, SOCKET_MODE_RADIX as nat, u32::MAX as nat) {
        Some(mode) => Some(mode as u32),
        None => None,
    }
}

/// The permissions that a set of environment variables gives, if any.
pub open spec fn socket_mode_of(variables: Seq<(Seq<char>, PathBuf)>) -> Option<u32> {
    match text_value_of(variables, SOCKET_MODE_VARIABLE@) {
        Some(text) => socket_mode_in(text),
        None => None,
    }
}

/// A socket of the introspection component.
#[derive(Debug, Clone, PartialEq, Eq)]
pub struct IntrospectionSocket {
    path: PathBuf,
}

impl View for IntrospectionSocket {
    type V = PathBuf;

    closed spec fn view(&self) -> PathBuf {
        self.path
    }
}

impl IntrospectionSocket {
    pub fn from_path(path: PathBuf) -> (res: Self)
        ensures
            res@ == path,
    {
        Self { path }
    }

    /// The socket that the environment names, if it names one.
    pub fn from_environment(environment: &Environment) -> (res: Option<Self>)
        ensures
            res is Some <==> socket_of(environment@) is Some,
            res matches Some(socket) ==> socket_of(environment@) == Some(socket@),
    {
        match environment.value(&INTROSPECT_SOCKET_VARIABLE.to_owned()) {
            Some(path) => Some(Self::from_path(path)),
            None => match environment.value(&SOCKET_PATH_VARIABLE.to_owned()) {
                Some(path) => Some(Self::from_path(path)),
                None => None,
            },
        }
    }

    pub fn path(&self) -> (res: &PathBuf)
        ensures
            *res == self@,
    {
        &self.path
    }

    /// A client that asks questions at this socket.
    pub fn client(&self) -> (res: IntrospectionSignalClient)
        ensures
            res@ == (ClientView {
                socket: self@,
                maximum_frame_bytes: DEFAULT_MAXIMUM_FRAME_BYTES,
            }),
    {
        IntrospectionSignalClient::new(self.path.clone())
    }
}

/// The permissions of a socket.
#[derive(Debug, Clone, Copy, PartialEq, Eq, Structural)]
pub struct SocketMode(u32);

impl View for SocketMode {
    type V = u32;

    closed spec fn view(&self) -> u32 {
        self.0
    }
}

impl SocketMode {
    pub fn from_octal(value: u32) -> (res: Self)
        ensures
            res@ == value,
    {
        Self(value)
    }

    /// The permissions that a text gives, if it is an octal number.
    pub fn from_text(text: &String) -> (res: Option<Self>)
        ensures
            res is Some <==> socket_mode_in(text@) is Some,
            res matches Some(mode) ==> socket_mode_in(text@) == Some(mode@),
    {
        match parse_number(text, SOCKET_MODE_RADIX, u32::MAX as u64) {
            Some(value) => Some(Self::from_octal(value as u32)),
            None => None,
        }
    }

    /// The permissions that the environment gives, if any.
    pub fn from_environment(environment: &Environment) -> (res: Option<Self>)
        ensures
            res is Some <==> socket_mode_of(environment@) is Some,
            res matches Some(mode) ==> socket_mode_of(environment@) == Some(mode@),
    {
        match environment.text(&SOCKET_MODE_VARIABLE.to_owned()) {
            Some(text) => Self::from_text(&text),
            None => None,
        }
    }

    pub fn as_octal(&self) -> (res: u32)
        ensures
            res == self@,
    {
        self.0
    }
}

/// A daemon that does not listen yet.
#[derive(Debug, Clone, PartialEq, Eq)]
pub struct IntrospectionDaemon {
    socket: IntrospectionSocket,
    targets: TargetSocketDirectory,
    socket_mode: Option<SocketMode>,
}

/// Where the daemon is to listen, what it knows of its surroundings, and the permissions that its
/// socket is to have, if any are asked for.
pub struct DaemonView {
    pub socket: PathBuf,
    pub targets: TargetSocketDirectory,
    pub socket_mode: Option<u32>,
}

impl View for IntrospectionDaemon {
    type V = DaemonView;

    closed spec fn view(&self) -> DaemonView {
        DaemonView {
            socket: self.socket@,
            targets: self.targets,
            socket_mode: match self.socket_mode {
                Some(mode) => Some(mode@),
                None => None,
            },
        }
    }
}

/// The directory that knows no socket.
pub open spec fn no_targets() -> TargetSocketDirectory {
    TargetSocketDirectory { manager_socket: None, router_socket: None, terminal_socket: None }
}

impl IntrospectionDaemon {
    /// A daemon for a socket, which knows nothing of its surroundings. Its socket gets the
    /// permissions that the environment gives.
    pub fn from_introspection_socket(
        socket: IntrospectionSocket,
        environment: &Environment,
    ) -> (res: Self)
        ensures
            res@ == (DaemonView {
                socket: socket@,
                targets: no_targets(),
                socket_mode: socket_mode_of(environment@),
            }),
    {
        Self {
            socket,
            targets: TargetSocketDirectory::empty(),
            socket_mode: SocketMode::from_environment(environment),
        }
    }

    /// A daemon for the socket of a path.
    pub fn from_socket(socket: PathBuf, environment: &Environment) -> (res: Self)
        ensures
            res@ == (DaemonView {
                socket,
                targets: no_targets(),
                socket_mode: socket_mode_of(environment@),
            }),
    {
        Self::from_introspection_socket(IntrospectionSocket::from_path(socket), environment)
    }

    /// The same daemon with other surroundings.
    pub fn with_targets(self, targets: TargetSocketDirectory) -> (res: Self)
        ensures
            res@ == (DaemonView { targets, ..self@ }),
    {
        Self { socket: self.socket, targets, socket_mode: self.socket_mode }
    }

    /// The same daemon with other permissions for its socket.
    pub fn with_socket_mode(self, socket_mode: SocketMode) -> (res: Self)
        ensures
            res@ == (DaemonView { socket_mode: Some(socket_mode@), ..self@ }),
    {
        Self { socket: self.socket, targets: self.targets, socket_mode: Some(socket_mode) }
    }

    /// Where the daemon is to listen.
    pub fn socket(&self) -> (res: &PathBuf)
        ensures
            *res == self@.socket,
    {
        self.socket.path()
    }
}

/// A stage of the daemon's coming up.
#[derive(Debug, Clone, Copy, PartialEq, Eq, Structural)]
pub enum BindStage {
    /// The directory of the socket is created.
    CreateDirectory,
    /// What is left of an earlier socket is removed.
    RemoveFile,
    /// The socket is listened at.
    Listen,
    /// The socket gets its permissions.
    SetMode,
    /// What runs the root is started.
    StartRuntime,
    /// The root is started.
    StartRoot,
}

/// The first stage of a daemon's coming up. The directory of the socket is created if the path
/// of the socket has one.
pub open spec fn first_bind_stage(daemon: DaemonView) -> BindStage {
    if path_parent(daemon.socket) is Some {
        BindStage::CreateDirectory
    } else {
        BindStage::RemoveFile
    }
}

/// The stage that follows another. The socket gets permissions if any are asked for.
pub open spec fn next_bind_stage(daemon: DaemonView, stage: BindStage) -> Option<BindStage> {
    match stage {
        BindStage::CreateDirectory => Some(BindStage::RemoveFile),
        BindStage::RemoveFile => Some(BindStage::Listen),
        BindStage::Listen => if daemon.socket_mode is Some {
            Some(BindStage::SetMode)
        } else {
            Some(BindStage::StartRuntime)
        },
        BindStage::SetMode => Some(BindStage::StartRuntime),
        BindStage::StartRuntime => Some(BindStage::StartRoot),
        BindStage::StartRoot => None,
    }
}

/// Whether a daemon cannot come up if a stage fails. That nothing was left to remove is no
/// failure.
pub open spec fn must_succeed(stage: BindStage) -> bool {
    stage != BindStage::RemoveFile
}

/// What is to be done next for a daemon to come up.
#[derive(Debug, PartialEq, Eq)]
pub enum BindAction {
    /// Create a directory, and those that it lies in.
    CreateDirectory { path: PathBuf },
    /// Remove a file.
    RemoveFile { path: PathBuf },
    /// Listen at a socket.
    Listen { path: PathBuf },
    /// Give a file its permissions.
    SetMode { path: PathBuf, mode: SocketMode },
    /// Start what runs the root.
    StartRuntime,
    /// Start the root.
    StartRoot { input: IntrospectionRootInput },
}

impl BindAction {
    /// Whether this is what a stage of a daemon's coming up asks for.
    pub open spec fn performs(self, daemon: DaemonView, stage: BindStage) -> bool {
        match stage {
            BindStage::CreateDirectory => self matches BindAction::CreateDirectory { path }
                && path_parent(daemon.socket) == Some(path),
            BindStage::RemoveFile => self == BindAction::RemoveFile { path: daemon.socket },
            BindStage::Listen => self == BindAction::Listen { path: daemon.socket },
            BindStage::SetMode => self matches BindAction::SetMode { path, mode } && path
                == daemon.socket && daemon.socket_mode == Some(mode@),
            BindStage::StartRuntime => self == BindAction::StartRuntime,
            BindStage::StartRoot => self == (BindAction::StartRoot {
                input: IntrospectionRootInput { targets: daemon.targets },
            }),
        }
    }
}

/// A daemon that is coming up.
#[derive(Debug, PartialEq, Eq)]
pub struct Binding {
    daemon: IntrospectionDaemon,
    stage: BindStage,
}

/// The daemon and the stage that it is at.
impl View for Binding {
    type V = (DaemonView, BindStage);

    closed spec fn view(&self) -> (DaemonView, BindStage) {
        (self.daemon@, self.stage)
    }
}

/// What follows: something to do, or the outcome.
#[derive(Debug)]
pub enum BindStep {
    Act { binding: Binding, action: BindAction },
    Finish { result: Result<BoundIntrospectionDaemon, Error> },
}

impl BindStep {
    /// Whether this is a stage of a daemon's coming up, with what it asks for.
    pub open spec fn is_at(self, daemon: DaemonView, stage: BindStage) -> bool {
        self matches BindStep::Act { binding, action } && binding@ == (daemon, stage)
            && action.performs(daemon, stage)
    }
}

impl IntrospectionDaemon {
    /// Starts to come up.
    pub fn bind(self) -> (res: BindStep)
        ensures
            res.is_at(self@, first_bind_stage(self@)),
    {
        let directory = parent_of(self.socket.path());
        self.bind_in(directory)
    }

    /// Starts to come up, the directory of the socket being known. It is created first; without
    /// one, what is left of an earlier socket is removed.
    pub fn bind_in(self, directory: Option<PathBuf>) -> (res: BindStep)
        ensures
            res matches BindStep::Act { binding, action } && match directory {
                Some(path) => binding@ == (self@, BindStage::CreateDirectory) && action
                    == (BindAction::CreateDirectory { path }),
                None => binding@ == (self@, BindStage::RemoveFile) && action
                    == (BindAction::RemoveFile { path: self@.socket }),
            },
    {
        match directory {
            Some(path) => BindStep::Act {
                binding: Binding { daemon: self, stage: BindStage::CreateDirectory },
                action: BindAction::CreateDirectory { path },
            },
            None => {
                let path = self.socket.path.clone();
                BindStep::Act {
                    binding: Binding { daemon: self, stage: BindStage::RemoveFile },
                    action: BindAction::RemoveFile { path },
                }
            },
        }
    }

    /// Starts to run: first the daemon comes up.
    pub fn run(self) -> (res: BindStep)
        ensures
            res.is_at(self@, first_bind_stage(self@)),
    {
        self.bind()
    }
}

impl Binding {
    /// Takes how what was to be done has turned out, and says what follows.
    pub fn advance(self, outcome: Result<(), Error>) -> (res: BindStep)
        ensures
            match outcome {
                Err(error) if must_succeed(self@.1) => res == (BindStep::Finish {
                    result: Err(error),
                }),
                _ => match next_bind_stage(self@.0, self@.1) {
                    Some(next) => res.is_at(self@.0, next),
                    None => res matches BindStep::Finish { result: Ok(bound) } && bound@
                        == self@.0.socket,
                },
            },
    {
        let daemon = self.daemon;
        match self.stage {
            BindStage::RemoveFile => {},
            _ => {
                if let Err(error) = outcome {
                    return BindStep::Finish { result: Err(error) };
                }
            },
        }
        let (stage, action) = match self.stage {
            BindStage::CreateDirectory => (
                BindStage::RemoveFile,
                BindAction::RemoveFile { path: daemon.socket.path.clone() },
            ),
            BindStage::RemoveFile => (
                BindStage::Listen,
                BindAction::Listen { path: daemon.socket.path.clone() },
            ),
            BindStage::Listen => match daemon.socket_mode {
                Some(mode) => (
                    BindStage::SetMode,
                    BindAction::SetMode { path: daemon.socket.path.clone(), mode },
                ),
                None => (BindStage::StartRuntime, BindAction::StartRuntime),
            },
            BindStage::SetMode => (BindStage::StartRuntime, BindAction::StartRuntime),
            BindStage::StartRuntime => (
                BindStage::StartRoot,
                BindAction::StartRoot {
                    input: IntrospectionRootInput { targets: daemon.targets.clone() },
                },
            ),
            BindStage::StartRoot => {
                return BindStep::Finish {
                    result: Ok(BoundIntrospectionDaemon::at(daemon.socket.path)),
                };
            },
        };
        BindStep::Act { binding: Binding { daemon, stage }, action }
    }
}

/// The arguments with which the daemon was started.
#[derive(Debug, Clone, PartialEq, Eq)]
pub struct IntrospectionDaemonCommandLine {
    arguments: Vec<PathBuf>,
}

impl View for IntrospectionDaemonCommandLine {
    type V = Seq<PathBuf>;

    closed spec fn view(&self) -> Seq<PathBuf> {
        self.arguments@
    }
}

impl IntrospectionDaemonCommandLine {
    pub fn from_arguments(arguments: Vec<PathBuf>) -> (res: Self)
        ensures
            res@ == arguments@,
    {
        Self { arguments }
    }

    /// The daemon that the arguments and the environment ask for. There may be one argument,
    /// which says where the daemon is to listen; without it the environment does.
    pub fn daemon(&self, environment: &Environment) -> (res: Result<IntrospectionDaemon, Error>)
        ensures
            self@.len() > 1 ==> {
                res matches Err(Error::UnexpectedArgument { got }) && got@ == path_lossy_text(
                    self@[1],
                )
            },
            self@.len() <= 1 ==> match socket_asked_for(self@, environment@) {
                Some(socket) => res is Ok && res->Ok_0@ == (DaemonView {
                    socket,
                    targets: directory_of(environment@),
                    socket_mode: socket_mode_of(environment@),
                }),
                None => res == Err::<IntrospectionDaemon, _>(Error::IntrospectionSocketMissing),
            },
    {
        match self.reject_extra_arguments() {
            Ok(()) => {},
            Err(error) => {
                return Err(error);
            },
        }
        let socket = match self.socket(environment) {
            Ok(socket) => socket,
            Err(error) => {
                return Err(error);
            },
        };
        Ok(
            IntrospectionDaemon::from_introspection_socket(socket, environment).with_targets(
                TargetSocketDirectory::from_environment(environment),
            ),
        )
    }

    /// Where the daemon is to listen.
    fn socket(&self, environment: &Environment) -> (res: Result<IntrospectionSocket, Error>)
        ensures
            match socket_asked_for(self@, environment@) {
                Some(socket) => res is Ok && res->Ok_0@ == socket,
                None => res == Err::<IntrospectionSocket, _>(Error::IntrospectionSocketMissing),
            },
    {
        if self.arguments.len() > 0 {
            return Ok(IntrospectionSocket::from_path(self.arguments[0].clone()));
        }
        match IntrospectionSocket::from_environment(environment) {
            Some(socket) => Ok(socket),
            None => Err(Error::IntrospectionSocketMissing),
        }
    }

    /// Turns down a second argument.
    fn reject_extra_arguments(&self) -> (res: Result<(), Error>)
        ensures
            self@.len() > 1 ==> {
                res matches Err(Error::UnexpectedArgument { got }) && got@ == path_lossy_text(
                    self@[1],
                )
            },
            self@.len() <= 1 ==> res is Ok,
    {
        if self.arguments.len() > 1 {
            return Err(Error::UnexpectedArgument { got: lossy_text_of(&self.arguments[1]) });
        }
        Ok(())
    }
}

/// Where a daemon is to listen: at the first argument, or else where the environment says.
pub open spec fn socket_asked_for(
    arguments: Seq<PathBuf>,
    variables: Seq<(Seq<char>, PathBuf)>,
) -> Option<PathBuf> {
    if arguments.len() > 0 {
        Some(arguments[0])
    } else {
        socket_of(variables)
    }
}

/// How many stages can follow a stage.
pub open spec fn stages_left(stage: BindStage) -> nat {
    match stage {
        BindStage::CreateDirectory => 5,
        BindStage::RemoveFile => 4,
        BindStage::Listen => 3,
        BindStage::SetMode => 2,
        BindStage::StartRuntime => 1,
        BindStage::StartRoot => 0,
    }
}

/// The stages from one on, as long as nothing ends the coming up.
pub open spec fn bind_stages_from(daemon: DaemonView, stage: BindStage) -> Seq<BindStage>
    decreases stages_left(stage),
{
    match next_bind_stage(daemon, stage) {
        Some(next) => seq![stage] + bind_stages_from(daemon, next),
        None => seq![stage],
    }
}

/// The stages of a daemon's coming up, in their order: the directory of the socket, if its path
/// has one; what is left of an earlier socket; listening; the permissions, if any are asked for,
/// before anything is answered; what runs the root; the root.
pub proof fn law_stages_come_in_order(daemon: DaemonView)
    ensures
        bind_stages_from(daemon, first_bind_stage(daemon)) == (if path_parent(
            daemon.socket,
        ) is Some {
            seq![BindStage::CreateDirectory]
        } else {
            seq![]
        }) + seq![BindStage::RemoveFile, BindStage::Listen] + (if daemon.socket_mode is Some {
            seq![BindStage::SetMode]
        } else {
            seq![]
        }) + seq![BindStage::StartRuntime, BindStage::StartRoot],
{
    reveal_with_fuel(bind_stages_from, 6);
}

/// As long as no stage fails that must succeed, each stage leads to the next, and the last one to
/// a daemon that listens at the socket that it was made for.
pub proof fn law_stage_leads_to_the_next(
    binding: Binding,
    outcome: Result<(), Error>,
    step: BindStep,
)
    requires
        call_ensures(Binding::advance, (binding, outcome), step),
        outcome is Ok || !must_succeed(binding@.1),
    ensures
        step matches BindStep::Act { binding: next, .. } ==> next@.0 == binding@.0 && Some(next@.1)
            == next_bind_stage(binding@.0, binding@.1),
        step matches BindStep::Finish { result } ==> binding@.1 == BindStage::StartRoot && (
        result matches Ok(bound) && bound@ == binding@.0.socket),
{
}

/// Whether a step of a coming up follows from the one before it and from how that turned out.
pub open spec fn follows(
    steps: Seq<BindStep>,
    outcomes: Seq<Result<(), Error>>,
    index: int,
) -> bool {
    steps[index] matches BindStep::Act { binding, .. } && call_ensures(
        Binding::advance,
        (binding, outcomes[index]),
        steps[index + 1],
    )
}

/// Whether these are the steps of a coming up from the first on, if what is to be done turns out
/// like this, and the last one brings the result.
pub open spec fn comes_up(
    steps: Seq<BindStep>,
    outcomes: Seq<Result<(), Error>>,
    result: Result<BoundIntrospectionDaemon, Error>,
) -> bool {
    &&& steps.len() == outcomes.len() + 1
    &&& forall|i: int| 0 <= i < outcomes.len() ==> #[trigger] follows(steps, outcomes, i)
    &&& steps.last() == (BindStep::Finish { result })
}

/// Whether a result is that of a daemon's coming up whose stages turned out like this: the first
/// failure of a stage that must succeed, and otherwise, once there is no stage left, a daemon that
/// listens at its socket.
pub open spec fn is_result_of(
    result: Result<BoundIntrospectionDaemon, Error>,
    daemon: DaemonView,
    outcomes: Seq<Result<(), Error>>,
) -> bool {
    let stages = bind_stages_from(daemon, first_bind_stage(daemon));
    let last = outcomes.len() - 1;
    &&& 0 <= last < stages.len()
    &&& forall|i: int|
        0 <= i < last ==> (#[trigger] outcomes[i]) is Ok || !must_succeed(stages[i])
    &&& match outcomes[last] {
        Err(error) if must_succeed(stages[last]) => result == Err::<
            BoundIntrospectionDaemon,
            Error,
        >(error),
        _ => last == stages.len() - 1 && (result matches Ok(bound) && bound@ == daemon.socket),
    }
}

/// Each stage of a coming up is followed by the next, and the last one by none.
proof fn lemma_stages_follow_each_other(daemon: DaemonView, index: int)
    requires
        0 <= index < bind_stages_from(daemon, first_bind_stage(daemon)).len(),
    ensures
        ({
            let stages = bind_stages_from(daemon, first_bind_stage(daemon));
            &&& stages[0] == first_bind_stage(daemon)
            &&& next_bind_stage(daemon, stages[index]) == (if index + 1 < stages.len() {
                Some(stages[index + 1])
            } else {
                None
            })
        }),
{
    law_stages_come_in_order(daemon);
}

/// The steps of a coming up are at its stages, one after the other.
proof fn lemma_steps_are_at_their_stages(
    daemon: DaemonView,
    steps: Seq<BindStep>,
    outcomes: Seq<Result<(), Error>>,
    index: int,
)
    requires
        steps.len() == outcomes.len() + 1,
        steps[0].is_at(daemon, first_bind_stage(daemon)),
        forall|i: int| 0 <= i < outcomes.len() ==> #[trigger] follows(steps, outcomes, i),
        0 <= index < outcomes.len(),
    ensures
        ({
            let stages = bind_stages_from(daemon, first_bind_stage(daemon));
            &&& index < stages.len()
            &&& steps[index].is_at(daemon, stages[index])
            &&& forall|i: int|
                0 <= i < index ==> (#[trigger] outcomes[i]) is Ok || !must_succeed(stages[i])
        }),
    decreases index,
{
    law_stages_come_in_order(daemon);
    if index == 0 {
        lemma_stages_follow_each_other(daemon, 0);
    } else {
        lemma_steps_are_at_their_stages(daemon, steps, outcomes, index - 1);
        lemma_stages_follow_each_other(daemon, index - 1);
        assert(follows(steps, outcomes, index - 1));
        assert(follows(steps, outcomes, index));
    }
}

/// What follows from the first step of a coming up, whichever way it was started.
proof fn lemma_coming_up(
    daemon: DaemonView,
    steps: Seq<BindStep>,
    outcomes: Seq<Result<(), Error>>,
    result: Result<BoundIntrospectionDaemon, Error>,
)
    requires
        steps[0].is_at(daemon, first_bind_stage(daemon)),
        comes_up(steps, outcomes, result),
    ensures
        forall|i: int|
            0 <= i < outcomes.len() ==> (#[trigger] steps[i]).is_at(
                daemon,
                bind_stages_from(daemon, first_bind_stage(daemon))[i],
            ),
        is_result_of(result, daemon, outcomes),
{
    let last = outcomes.len() - 1;
    assert forall|i: int| 0 <= i < outcomes.len() implies (#[trigger] steps[i]).is_at(
        daemon,
        bind_stages_from(daemon, first_bind_stage(daemon))[i],
    ) by {
        lemma_steps_are_at_their_stages(daemon, steps, outcomes, i);
    }
    lemma_steps_are_at_their_stages(daemon, steps, outcomes, last);
    lemma_stages_follow_each_other(daemon, last);
    assert(follows(steps, outcomes, last));
}

/// A daemon comes up stage by stage, in their order, and up to the first failure of a stage that
/// must succeed, which is then the result. If there is none, every stage is gone through, and the
/// result is a daemon that listens at the socket that it was made for.
pub proof fn law_coming_up_ends_with_the_first_failure(
    daemon: IntrospectionDaemon,
    steps: Seq<BindStep>,
    outcomes: Seq<Result<(), Error>>,
    result: Result<BoundIntrospectionDaemon, Error>,
)
    requires
        call_ensures(IntrospectionDaemon::bind, (daemon,), steps[0]),
        comes_up(steps, outcomes, result),
    ensures
        forall|i: int|
            0 <= i < outcomes.len() ==> (#[trigger] steps[i]).is_at(
                daemon@,
                bind_stages_from(daemon@, first_bind_stage(daemon@))[i],
            ),
        is_result_of(result, daemon@, outcomes),
{
    lemma_coming_up(daemon@, steps, outcomes, result);
}

/// A run goes through its parts in order: the daemon comes up, its supervision is started, and it
/// serves without end. The first error ends it. The daemon that serves is the one that was bound,
/// and it listens at the socket that it was made for.
pub proof fn law_run_serves_what_was_bound(
    daemon: IntrospectionDaemon,
    steps: Seq<BindStep>,
    outcomes: Seq<Result<(), Error>>,
    binding: Result<BoundIntrospectionDaemon, Error>,
    supervising: Result<RunSupervising, Error>,
    supervision: Result<(), Error>,
    serving: Result<BoundIntrospectionDaemon, Error>,
    step: ForeverStep,
)
    requires
        call_ensures(IntrospectionDaemon::run, (daemon,), steps[0]),
        comes_up(steps, outcomes, binding),
        call_ensures(RunSupervising::bound, (binding,), supervising),
        match supervising {
            Ok(supervising) => call_ensures(
                RunSupervising::supervised,
                (supervising, supervision),
                serving,
            ),
            Err(error) => serving == Err::<BoundIntrospectionDaemon, Error>(error),
        },
        match serving {
            Ok(bound) => call_ensures(BoundIntrospectionDaemon::serve_forever, (bound,), step),
            Err(error) => step == (ForeverStep::Finish { result: Err(error) }),
        },
    ensures
        is_result_of(binding, daemon@, outcomes),
        serving == (match (binding, supervision) {
            (Err(error), _) => Err(error),
            (Ok(_), Err(error)) => Err(error),
            (Ok(bound), Ok(())) => Ok(bound),
        }),
        step == (match (binding, supervision) {
            (Err(error), _) => ForeverStep::Finish { result: Err(error) },
            (Ok(_), Err(error)) => ForeverStep::Finish { result: Err(error) },
            (Ok(_), Ok(())) => ForeverStep::Accept,
        }),
        serving matches Ok(bound) ==> bound@ == daemon@.socket,
{
    lemma_coming_up(daemon@, steps, outcomes, binding);
}

/// The surroundings and the permissions may be set in either order, and the last permissions
/// count, whatever the environment gave.
pub proof fn law_settings_are_independent(
    daemon: IntrospectionDaemon,
    targets: TargetSocketDirectory,
    earlier: SocketMode,
    mode: SocketMode,
    with_earlier: IntrospectionDaemon,
    with_mode: IntrospectionDaemon,
    with_targets: IntrospectionDaemon,
    mode_last: IntrospectionDaemon,
    targets_last: IntrospectionDaemon,
)
    requires
        call_ensures(IntrospectionDaemon::with_socket_mode, (daemon, earlier), with_earlier),
        call_ensures(IntrospectionDaemon::with_socket_mode, (with_earlier, mode), with_mode),
        call_ensures(IntrospectionDaemon::with_targets, (with_mode, targets), targets_last),
        call_ensures(IntrospectionDaemon::with_targets, (daemon, targets), with_targets),
        call_ensures(IntrospectionDaemon::with_socket_mode, (with_targets, mode), mode_last),
    ensures
        mode_last@ == targets_last@,
        mode_last@ == (DaemonView {
            socket: daemon@.socket,
            targets,
            socket_mode: Some(mode@),
        }),
{
}

/// An argument says where the daemon is to listen, whatever the environment names.
pub proof fn law_argument_precedes_environment(
    command_line: &IntrospectionDaemonCommandLine,
    environment: &Environment,
    daemon: Result<IntrospectionDaemon, Error>,
)
    requires
        command_line@.len() == 1,
        call_ensures(
            IntrospectionDaemonCommandLine::daemon,
            (command_line, environment),
            daemon,
        ),
    ensures
        daemon matches Ok(daemon) && daemon@.socket == command_line@[0],
{
}

/// Permissions come back as they were given.
pub proof fn law_mode_comes_back(value: u32, mode: SocketMode, given: u32)
    requires
        call_ensures(SocketMode::from_octal, (value,), mode),
        call_ensures(SocketMode::as_octal, (&mode,), given),
    ensures
        given == value,
{
}

/// The socket is the value of PERSONA_INTROSPECT_SOCKET if that is set, whatever else is. If it is
/// not, the socket is the value of PERSONA_SOCKET_PATH, and there is none if that is not set
/// either.
pub proof fn law_own_socket_is_asked_first(
    environment: &Environment,
    found: Option<IntrospectionSocket>,
    path: &PathBuf,
)
    requires
        call_ensures(IntrospectionSocket::from_environment, (environment,), found),
        found matches Some(socket) ==> call_ensures(IntrospectionSocket::path, (&socket,), path),
    ensures
        match (
            value_of(environment@, "PERSONA_INTROSPECT_SOCKET"@),
            value_of(environment@, "PERSONA_SOCKET_PATH"@),
        ) {
            (Some(own), _) => found is Some && *path == own,
            (None, Some(any)) => found is Some && *path == any,
            (None, None) => found is None,
        },
{
}

/// A socket is at the path that it was made with, and its client asks there.
pub proof fn law_client_of_a_socket_asks_there<Q>(
    given: PathBuf,
    socket: IntrospectionSocket,
    path: &PathBuf,
    client: IntrospectionSignalClient,
    request: Q,
    connecting: SubmissionConnecting<Q>,
    asked: PathBuf,
)
    requires
        call_ensures(IntrospectionSocket::from_path, (given,), socket),
        call_ensures(IntrospectionSocket::path, (&socket,), path),
        call_ensures(IntrospectionSocket::client, (&socket,), client),
        call_ensures(
            IntrospectionSignalClient::submit::<Q>,
            (&client, request),
            (connecting, asked),
        ),
    ensures
        *path == given,
        asked == given,
        client@.maximum_frame_bytes == 1048576,
{
}

/// Permissions are the number that a text is read as in octal, every bit of it, and there are none
/// where it is read as no number.
pub proof fn law_mode_is_the_octal_number_in_the_text(
    text: &String,
    read: Option<u64>,
    found: Option<SocketMode>,
    mode: u32,
)
    requires
        call_ensures(SocketMode::from_text, (text,), found),
        call_ensures(parse_number, (text, 8u32, u32::MAX as u64), read),
        found matches Some(given) ==> call_ensures(SocketMode::as_octal, (&given,), mode),
    ensures
        found is Some <==> read is Some,
        read matches Some(number) ==> mode == number,
{
}

/// The permissions of the environment are those in the text of PERSONA_SOCKET_MODE, and there are
/// none without such a text.
pub proof fn law_environment_gives_the_mode_in_its_text(
    environment: &Environment,
    text: &String,
    found: Option<SocketMode>,
    mode: u32,
    in_text: Option<SocketMode>,
    mode_in_text: u32,
)
    requires
        call_ensures(SocketMode::from_environment, (environment,), found),
        found matches Some(given) ==> call_ensures(SocketMode::as_octal, (&given,), mode),
        text_value_of(environment@, "PERSONA_SOCKET_MODE"@) is Some ==> text_value_of(
            environment@,
            "PERSONA_SOCKET_MODE"@,
        ) == Some(text@),
        call_ensures(SocketMode::from_text, (text,), in_text),
        in_text matches Some(given) ==> call_ensures(
            SocketMode::as_octal,
            (&given,),
            mode_in_text,
        ),
    ensures
        text_value_of(environment@, "PERSONA_SOCKET_MODE"@) is None ==> found is None,
        text_value_of(environment@, "PERSONA_SOCKET_MODE"@) is Some ==> {
            &&& found is Some <==> in_text is Some
            &&& found is Some ==> mode == mode_in_text
        },
{
}

/// A daemon is to listen at the path that it was made for, whichever way it was made. It knows no
/// socket of another component, and its permissions are those that the environment gives.
pub proof fn law_daemon_is_made_for_its_socket(
    path: PathBuf,
    socket: IntrospectionSocket,
    environment: &Environment,
    daemon: IntrospectionDaemon,
    from_socket: IntrospectionDaemon,
    listens: &PathBuf,
    found: Option<SocketMode>,
    mode: u32,
)
    requires
        call_ensures(IntrospectionSocket::from_path, (path,), socket),
        call_ensures(
            IntrospectionDaemon::from_introspection_socket,
            (socket, environment),
            daemon,
        ),
        call_ensures(IntrospectionDaemon::from_socket, (path, environment), from_socket),
        call_ensures(IntrospectionDaemon::socket, (&daemon,), listens),
        call_ensures(SocketMode::from_environment, (environment,), found),
        found matches Some(given) ==> call_ensures(SocketMode::as_octal, (&given,), mode),
    ensures
        *listens == path,
        daemon@.socket == path,
        daemon@.targets.manager_socket is None,
        daemon@.targets.router_socket is None,
        daemon@.targets.terminal_socket is None,
        daemon@.socket_mode is Some <==> found is Some,
        found is Some ==> daemon@.socket_mode == Some(mode),
        from_socket@ == daemon@,
{
}

/// Surroundings and permissions are set as they are given, and nothing else of a daemon changes.
pub proof fn law_settings_are_kept(
    daemon: IntrospectionDaemon,
    targets: TargetSocketDirectory,
    value: u32,
    mode: SocketMode,
    with_targets: IntrospectionDaemon,
    with_mode: IntrospectionDaemon,
    socket: &PathBuf,
    socket_with_targets: &PathBuf,
    socket_with_mode: &PathBuf,
)
    requires
        call_ensures(SocketMode::from_octal, (value,), mode),
        call_ensures(IntrospectionDaemon::with_targets, (daemon, targets), with_targets),
        call_ensures(IntrospectionDaemon::with_socket_mode, (daemon, mode), with_mode),
        call_ensures(IntrospectionDaemon::socket, (&daemon,), socket),
        call_ensures(IntrospectionDaemon::socket, (&with_targets,), socket_with_targets),
        call_ensures(IntrospectionDaemon::socket, (&with_mode,), socket_with_mode),
    ensures
        *socket == daemon@.socket,
        *socket_with_targets == *socket,
        *socket_with_mode == *socket,
        with_targets@.targets == targets,
        with_targets@.socket_mode == daemon@.socket_mode,
        with_mode@.targets == daemon@.targets,
        with_mode@.socket_mode == Some(value),
{
}

/// What follows listening is that the socket gets exactly the permissions that were asked for, if
/// any were, and otherwise that what runs the root is started.
pub proof fn law_listening_socket_gets_its_mode(
    binding: Binding,
    outcome: Result<(), Error>,
    step: BindStep,
)
    requires
        call_ensures(Binding::advance, (binding, outcome), step),
        binding@.1 == BindStage::Listen,
    ensures
        outcome matches Err(error) ==> step matches BindStep::Finish { result: Err(given) } && given
            == error,
        outcome is Ok && binding@.0.socket_mode is None ==> {
            step matches BindStep::Act { action, .. } && action is StartRuntime
        },
        outcome is Ok && binding@.0.socket_mode is Some ==> {
            &&& step matches BindStep::Act { action: BindAction::SetMode { path, mode }, .. }
            &&& path == binding@.0.socket
            &&& forall|octal: u32|
                call_ensures(SocketMode::as_octal, (&mode,), octal) ==> Some(octal)
                    == binding@.0.socket_mode
        },
{
}

/// A daemon that is told the directory of its socket starts with that directory, and one that is
/// told of none with what is left at the path of its socket. It goes on from there as any other
/// does: what is left at the path is removed next, or else the path is listened at.
pub proof fn law_daemon_starts_in_the_directory_that_it_is_told(
    daemon: IntrospectionDaemon,
    path: &PathBuf,
    directory: Option<PathBuf>,
    binding: Binding,
    action: BindAction,
    next: BindStep,
)
    requires
        call_ensures(IntrospectionDaemon::socket, (&daemon,), path),
        call_ensures(
            IntrospectionDaemon::bind_in,
            (daemon, directory),
            BindStep::Act { binding, action },
        ),
        call_ensures(Binding::advance, (binding, Ok(())), next),
    ensures
        match directory {
            Some(directory) => {
                &&& action matches BindAction::CreateDirectory { path: created } && created
                    == directory
                &&& next matches BindStep::Act {
                    action: BindAction::RemoveFile { path: file },
                    ..
                } && file == *path
            },
            None => {
                &&& action matches BindAction::RemoveFile { path: file } && file == *path
                &&& next matches BindStep::Act { action: BindAction::Listen { path: file }, .. }
                    && file == *path
            },
        },
{
}

/// A daemon comes up by doing just this, one after the other: the directory of the socket is
/// created, if the path has one; what is left at the path is removed; the path is listened at; the
/// file at the path gets exactly the permissions that were asked for, if any were; what runs the
/// root is started; and the root is started with the surroundings that were given. Any failure but
/// that of the removal ends it, as that failure is, and otherwise the daemon listens at the path.
pub proof fn law_daemon_comes_up_as_it_was_asked_to(
    daemon: IntrospectionDaemon,
    path: &PathBuf,
    steps: Seq<BindStep>,
    outcomes: Seq<Result<(), Error>>,
    result: Result<BoundIntrospectionDaemon, Error>,
    removal: int,
    runtime: int,
)
    requires
        call_ensures(IntrospectionDaemon::socket, (&daemon,), path),
        call_ensures(IntrospectionDaemon::bind, (daemon,), steps[0]) || call_ensures(
            IntrospectionDaemon::run,
            (daemon,),
            steps[0],
        ),
        steps.len() == outcomes.len() + 1,
        forall|i: int|
            0 <= i < outcomes.len() ==> (#[trigger] steps[i] matches BindStep::Act { binding, .. }
                && call_ensures(Binding::advance, (binding, outcomes[i]), steps[i + 1])),
        steps.last() == (BindStep::Finish { result }),
        removal == (if path_parent(*path) is Some {
            1int
        } else {
            0int
        }),
        runtime == (if daemon@.socket_mode is Some {
            removal + 3
        } else {
            removal + 2
        }),
    ensures
        forall|i: int|
            0 <= i < outcomes.len() ==> {
                &&& #[trigger] steps[i] matches BindStep::Act { action, .. }
                &&& i < removal ==> {
                    action matches BindAction::CreateDirectory { path: directory }
                        && path_parent(*path) == Some(directory)
                }
                &&& i == removal ==> {
                    action matches BindAction::RemoveFile { path: file } && file == *path
                }
                &&& i == removal + 1 ==> {
                    action matches BindAction::Listen { path: file } && file == *path
                }
                &&& removal + 1 < i < runtime ==> {
                    &&& action matches BindAction::SetMode { path: file, mode }
                    &&& file == *path
                    &&& forall|octal: u32|
                        call_ensures(SocketMode::as_octal, (&mode,), octal) ==> Some(octal)
                            == daemon@.socket_mode
                }
                &&& i == runtime ==> action is StartRuntime
                &&& i > runtime ==> {
                    &&& action matches BindAction::StartRoot { input }
                    &&& input.targets == daemon@.targets
                }
            },
        forall|i: int|
            0 <= i < outcomes.len() && i != removal && (#[trigger] outcomes[i]) is Err ==> {
                &&& i == outcomes.len() - 1
                &&& result matches Err(error) && outcomes[i] == Err::<(), Error>(error)
            },
        (forall|i: int|
            0 <= i < outcomes.len() && i != removal ==> (#[trigger] outcomes[i]) is Ok) ==> {
            &&& outcomes.len() == runtime + 2
            &&& result matches Ok(bound)
            &&& forall|socket: &PathBuf|
                call_ensures(BoundIntrospectionDaemon::socket, (&bound,), socket) ==> *socket
                    == *path
        },
{
    assert forall|i: int| 0 <= i < outcomes.len() implies #[trigger] follows(
        steps,
        outcomes,
        i,
    ) by {
        assert(steps[i] is Act);
    }
    lemma_coming_up(daemon@, steps, outcomes, result);
    law_stages_come_in_order(daemon@);
}

/// One argument says where the daemon is to listen, whatever the environment names; without one
/// the socket of the environment does, and it is an error that there is none. A second argument is
/// turned down, whatever the others are. The daemon has the surroundings and the permissions that
/// the environment gives.
pub proof fn law_command_line_asks_for_its_daemon(
    arguments: Vec<PathBuf>,
    command_line: IntrospectionDaemonCommandLine,
    environment: &Environment,
    result: Result<IntrospectionDaemon, Error>,
    found: Option<IntrospectionSocket>,
    path: &PathBuf,
    listens: &PathBuf,
    targets: TargetSocketDirectory,
    found_mode: Option<SocketMode>,
    mode: u32,
)
    requires
        call_ensures(IntrospectionDaemonCommandLine::from_arguments, (arguments,), command_line),
        call_ensures(
            IntrospectionDaemonCommandLine::daemon,
            (&command_line, environment),
            result,
        ),
        call_ensures(IntrospectionSocket::from_environment, (environment,), found),
        found matches Some(socket) ==> call_ensures(IntrospectionSocket::path, (&socket,), path),
        result matches Ok(daemon) ==> call_ensures(
            IntrospectionDaemon::socket,
            (&daemon,),
            listens,
        ),
        call_ensures(TargetSocketDirectory::from_environment, (environment,), targets),
        call_ensures(SocketMode::from_environment, (environment,), found_mode),
        found_mode matches Some(given) ==> call_ensures(SocketMode::as_octal, (&given,), mode),
    ensures
        arguments@.len() > 1 ==> {
            result matches Err(Error::UnexpectedArgument { got }) && got@ == path_lossy_text(
                arguments@[1],
            )
        },
        arguments@.len() == 1 ==> result is Ok && *listens == arguments@[0],
        arguments@.len() == 0 && found is Some ==> result is Ok && *listens == *path,
        arguments@.len() == 0 && found is None ==> {
            result matches Err(Error::IntrospectionSocketMissing)
        },
        result matches Ok(daemon) ==> {
            &&& daemon@.socket == *listens
            &&& daemon@.targets == targets
            &&& daemon@.socket_mode is Some <==> found_mode is Some
            &&& found_mode is Some ==> daemon@.socket_mode == Some(mode)
        },
{
}

} // verus!
