//! Serves the questions that come in at a bound socket.

use crate::actor::{failure_message, failure_message_text, resolve, resolves_to};
use crate::codec::{
    request_in, FrameBody, IncomingFrame, IntrospectionFrameCodec,
    DEFAULT_MAXIMUM_FRAME_BYTES,
};
use crate::daemon::IntrospectionDaemon;
use crate::error::Error;
use crate::runtime::HandleIntrospectionRequest;
use crate::signal::{IntrospectionReply, IntrospectionRequest};
use kameo::error::{Infallible, SendError};
use std::path::PathBuf;
use vstd::prelude::*;

verus! {

/// What a question to the root is called where it fails.
pub const HANDLE_OPERATION: &'static str = "handle introspection request";

/// What the stopping of the root is called where it fails.
pub const STOP_OPERATION: &'static str = "stop introspection root";

/// A connection that has been accepted.
#[derive(Debug, PartialEq, Eq)]
pub struct IntrospectionConnection {
    signal: IntrospectionFrameCodec,
}

/// The longest frame that is taken from the connection.
impl View for IntrospectionConnection {
    type V = usize;

    closed spec fn view(&self) -> usize {
        self.signal@
    }
}

impl IntrospectionConnection {
    /// A connection that has just been accepted.
    pub fn accepted() -> (res: Self)
        ensures
            res@ == DEFAULT_MAXIMUM_FRAME_BYTES,
    {
        Self { signal: IntrospectionFrameCodec::default() }
    }

    /// The codec that is to receive the question.
    pub fn signal(&self) -> (res: IntrospectionFrameCodec)
        ensures
            res@ == self@,
    {
        self.signal
    }

    /// The question that a received frame carries; a frame that carries none is an error.
    pub fn read_signal_request<R>(&self, frame: IncomingFrame<IntrospectionRequest, R>) -> (res:
        Result<IntrospectionRequest, Error>)
        ensures
            res == request_in(frame),
    {
        self.signal.read_request(frame)
    }

    /// What the frame that gives an answer is to carry.
    pub fn write_signal_reply<Q>(&self, reply: IntrospectionReply) -> (res: FrameBody<
        Q,
        IntrospectionReply,
    >)
        ensures
            res == FrameBody::<Q, IntrospectionReply>::ReplyOperation(reply),
    {
        self.signal.write_reply(reply)
    }
}

impl IntrospectionDaemon {
    /// Takes the frame that was received at a connection. The message is handed out that is to
    /// be sent to the root. A frame that carries no question ends the connection, and so does
    /// one that was not received.
    pub fn handle_connection<R>(
        connection: IntrospectionConnection,
        received: Result<IncomingFrame<IntrospectionRequest, R>, Error>,
    ) -> (res: Result<(ConnectionAsking, HandleIntrospectionRequest), Error>)
        ensures
            match question_of(received) {
                Ok(request) => res is Ok && res->Ok_0.0@ == connection@ && res->Ok_0.1 == (
                HandleIntrospectionRequest { request }),
                Err(error) => res == Err::<(ConnectionAsking, HandleIntrospectionRequest), _>(
                    error,
                ),
            },
    {
        match received {
            Ok(frame) => match connection.read_signal_request(frame) {
                Ok(request) => Ok(
                    (ConnectionAsking { connection }, HandleIntrospectionRequest { request }),
                ),
                Err(error) => Err(error),
            },
            Err(error) => Err(error),
        }
    }
}

/// The question that was received, or what stood in its way.
pub open spec fn question_of<Q, R>(received: Result<IncomingFrame<Q, R>, Error>) -> Result<
    Q,
    Error,
> {
    match received {
        Ok(frame) => request_in(frame),
        Err(error) => Err(error),
    }
}

/// A connection whose question the root is being asked.
#[derive(Debug)]
pub struct ConnectionAsking {
    connection: IntrospectionConnection,
}

/// The longest frame that is taken from the connection.
impl View for ConnectionAsking {
    type V = usize;

    closed spec fn view(&self) -> usize {
        self.connection@
    }
}

impl ConnectionAsking {
    /// Takes how the root answered. What the frame is to carry that is written next is handed
    /// out; an error ends the connection.
    pub fn answered<Q>(
        self,
        answer: Result<IntrospectionReply, SendError<HandleIntrospectionRequest, Error>>,
    ) -> (res: Result<(ConnectionWriting, FrameBody<Q, IntrospectionReply>), Error>)
        ensures
            match res {
                Ok((writing, body)) => {
                    &&& resolves_to(answer, HANDLE_OPERATION, Ok(writing@))
                    &&& body matches FrameBody::ReplyOperation(written) && written@ == writing@@
                },
                Err(error) => resolves_to(answer, HANDLE_OPERATION, Err(error)),
            },
    {
        match resolve(answer, HANDLE_OPERATION) {
            Ok(reply) => {
                let body = self.connection.write_signal_reply(reply.clone());
                Ok((ConnectionWriting { reply }, body))
            },
            Err(error) => Err(error),
        }
    }
}

/// A connection to which an answer is being written.
#[derive(Debug)]
pub struct ConnectionWriting {
    reply: IntrospectionReply,
}

/// The answer that the root gave.
impl View for ConnectionWriting {
    type V = IntrospectionReply;

    closed spec fn view(&self) -> IntrospectionReply {
        self.reply
    }
}

impl ConnectionWriting {
    /// Takes whether the answer was written, and gives the answer.
    pub fn written(self, outcome: Result<(), Error>) -> (res: Result<IntrospectionReply, Error>)
        ensures
            res == (match outcome {
                Ok(()) => Ok::<IntrospectionReply, Error>(self@),
                Err(error) => Err(error),
            }),
    {
        match outcome {
            Ok(()) => Ok(self.reply),
            Err(error) => Err(error),
        }
    }
}

/// A daemon that listens at its socket.
#[derive(Debug, PartialEq, Eq)]
pub struct BoundIntrospectionDaemon {
    socket: PathBuf,
}

impl View for BoundIntrospectionDaemon {
    type V = PathBuf;

    closed spec fn view(&self) -> PathBuf {
        self.socket
    }
}

impl BoundIntrospectionDaemon {
    /// The daemon that listens at a socket.
    pub(crate) fn at(socket: PathBuf) -> (res: Self)
        ensures
            res@ == socket,
    {
        Self { socket }
    }

    /// Where the daemon listens.
    pub fn socket(&self) -> (res: &PathBuf)
        ensures
            *res == self@,
    {
        &self.socket
    }

    /// Starts to serve one connection: it is to be accepted.
    pub fn serve_one(self) -> (res: ServingAccept)
        ensures
            res@ == self@,
    {
        ServingAccept { socket: self.socket }
    }

    /// Starts to serve connections without end: the next is to be accepted.
    pub fn serve_forever(self) -> (res: ForeverStep)
        ensures
            res == ForeverStep::Accept,
            res == served(Seq::empty()),
    {
        ForeverStep::Accept
    }
}

/// A daemon that listens and whose supervision is being started.
#[derive(Debug)]
pub struct RunSupervising {
    bound: BoundIntrospectionDaemon,
}

impl View for RunSupervising {
    type V = BoundIntrospectionDaemon;

    closed spec fn view(&self) -> BoundIntrospectionDaemon {
        self.bound
    }
}

impl RunSupervising {
    /// Takes the daemon that was bound; its supervision is to be started. An error ends the run.
    pub fn bound(outcome: Result<BoundIntrospectionDaemon, Error>) -> (res: Result<Self, Error>)
        ensures
            outcome matches Ok(bound) ==> res is Ok && res->Ok_0@ == bound,
            outcome matches Err(error) ==> res == Err::<Self, _>(error),
    {
        match outcome {
            Ok(bound) => Ok(Self { bound }),
            Err(error) => Err(error),
        }
    }

    /// Takes whether the supervision was started, where it was asked for, and gives the daemon
    /// that is to serve without end.
    pub fn supervised(self, outcome: Result<(), Error>) -> (res: Result<
        BoundIntrospectionDaemon,
        Error,
    >)
        ensures
            res == (match outcome {
                Ok(()) => Ok::<BoundIntrospectionDaemon, Error>(self@),
                Err(error) => Err(error),
            }),
    {
        match outcome {
            Ok(()) => Ok(self.bound),
            Err(error) => Err(error),
        }
    }
}

/// One connection, which is being accepted.
#[derive(Debug)]
pub struct ServingAccept {
    socket: PathBuf,
}

impl View for ServingAccept {
    type V = PathBuf;

    closed spec fn view(&self) -> PathBuf {
        self.socket
    }
}

impl ServingAccept {
    /// Takes whether the connection was accepted; it is to be handled. An error ends the serving.
    pub fn accepted(self, outcome: Result<(), Error>) -> (res: Result<ServingHandle, Error>)
        ensures
            outcome is Ok ==> res is Ok && res->Ok_0@ == self@,
            outcome matches Err(error) ==> res == Err::<ServingHandle, _>(error),
    {
        match outcome {
            Ok(()) => Ok(ServingHandle { socket: self.socket }),
            Err(error) => Err(error),
        }
    }
}

/// One connection, which is being handled.
#[derive(Debug)]
pub struct ServingHandle {
    socket: PathBuf,
}

impl View for ServingHandle {
    type V = PathBuf;

    closed spec fn view(&self) -> PathBuf {
        self.socket
    }
}

/// The socket, and the answer that was given at it.
pub struct ServedView {
    pub socket: PathBuf,
    pub reply: IntrospectionReply,
}

impl ServingHandle {
    /// Takes the answer that was given; the root is to be stopped. An error ends the serving.
    pub fn handled(self, outcome: Result<IntrospectionReply, Error>) -> (res: Result<
        ServingStop,
        Error,
    >)
        ensures
            outcome matches Ok(reply) ==> res is Ok && res->Ok_0@ == (ServedView {
                socket: self@,
                reply,
            }),
            outcome matches Err(error) ==> res == Err::<ServingStop, _>(error),
    {
        match outcome {
            Ok(reply) => Ok(ServingStop { socket: self.socket, reply }),
            Err(error) => Err(error),
        }
    }
}

/// A connection that has been served; the root is being stopped.
#[derive(Debug)]
pub struct ServingStop {
    socket: PathBuf,
    reply: IntrospectionReply,
}

impl View for ServingStop {
    type V = ServedView;

    closed spec fn view(&self) -> ServedView {
        ServedView { socket: self.socket, reply: self.reply }
    }
}

impl ServingStop {
    /// Takes whether the root was told to stop; its end is to be waited for.
    pub fn stopped(self, outcome: Result<(), SendError<(), Infallible>>) -> (res: Result<
        ServingShutdown,
        Error,
    >)
        ensures
            outcome is Ok ==> res is Ok && res->Ok_0@ == self@,
            outcome matches Err(failure) ==> {
                &&& res matches Err(Error::Actor { operation, detail })
                &&& operation == STOP_OPERATION
                &&& failure_message(failure) matches Some(message) ==> detail@ == message
            },
    {
        match outcome {
            Ok(()) => Ok(ServingShutdown { socket: self.socket, reply: self.reply }),
            Err(failure) => Err(
                Error::Actor {
                    operation: STOP_OPERATION,
                    detail: failure_message_text(&failure),
                },
            ),
        }
    }
}

/// A connection that has been served; the end of the root is being waited for.
#[derive(Debug)]
pub struct ServingShutdown {
    socket: PathBuf,
    reply: IntrospectionReply,
}

impl View for ServingShutdown {
    type V = ServedView;

    closed spec fn view(&self) -> ServedView {
        ServedView { socket: self.socket, reply: self.reply }
    }
}

impl ServingShutdown {
    /// Takes that the root has ended. The file is handed out that is to be removed.
    pub fn shut_down(self) -> (res: (ServingRemove, PathBuf))
        ensures
            res.0@ == self@.reply,
            res.1 == self@.socket,
    {
        (ServingRemove { reply: self.reply }, self.socket)
    }
}

/// A connection that has been served; the file of the socket is being removed.
#[derive(Debug)]
pub struct ServingRemove {
    reply: IntrospectionReply,
}

/// The answer that was given.
impl View for ServingRemove {
    type V = IntrospectionReply;

    closed spec fn view(&self) -> IntrospectionReply {
        self.reply
    }
}

impl ServingRemove {
    /// Takes whether the file was removed, which does not matter, and gives the answer.
    pub fn removed(self, _outcome: Result<(), Error>) -> (res: IntrospectionReply)
        ensures
            res == self@,
    {
        self.reply
    }
}

/// What is to be done next to serve connections without end.
#[derive(Debug)]
pub enum ForeverStep {
    /// Accept the next connection.
    Accept,
    /// Handle the connection that was accepted.
    Handle,
    /// There is nothing more to do.
    Finish { result: Result<(), Error> },
}

/// What follows the next connection, or the end of all connections.
pub open spec fn step_after_accepting(incoming: Option<Result<(), Error>>) -> ForeverStep {
    match incoming {
        Some(Ok(())) => ForeverStep::Handle,
        Some(Err(error)) => ForeverStep::Finish { result: Err(error) },
        None => ForeverStep::Finish { result: Ok(()) },
    }
}

/// What follows a connection that was handled.
pub open spec fn step_after_handling(outcome: Result<IntrospectionReply, Error>) -> ForeverStep {
    match outcome {
        Ok(_) => ForeverStep::Accept,
        Err(error) => ForeverStep::Finish { result: Err(error) },
    }
}

impl ForeverStep {
    /// What follows the next connection, or the end of all connections. An error ends the
    /// serving.
    pub fn accepted(incoming: Option<Result<(), Error>>) -> (res: Self)
        ensures
            res == step_after_accepting(incoming),
    {
        match incoming {
            Some(Ok(())) => ForeverStep::Handle,
            Some(Err(error)) => ForeverStep::Finish { result: Err(error) },
            None => ForeverStep::Finish { result: Ok(()) },
        }
    }

    /// What follows a connection that was handled: the next one, whatever the answer was. An
    /// error ends the serving.
    pub fn handled(outcome: Result<IntrospectionReply, Error>) -> (res: Self)
        ensures
            res == step_after_handling(outcome),
    {
        match outcome {
            Ok(_) => ForeverStep::Accept,
            Err(error) => ForeverStep::Finish { result: Err(error) },
        }
    }
}

/// The answer that a connection gives back is the one that is written to it, and both are the one
/// that the root gave.
pub proof fn law_written_answer_is_given_back<Q>(
    asking: ConnectionAsking,
    answer: IntrospectionReply,
    writing: ConnectionWriting,
    body: FrameBody<Q, IntrospectionReply>,
    result: Result<IntrospectionReply, Error>,
)
    requires
        call_ensures(
            ConnectionAsking::answered::<Q>,
            (asking, Ok(answer)),
            Ok((writing, body)),
        ),
        call_ensures(ConnectionWriting::written, (writing, Ok(())), result),
    ensures
        result == Ok::<IntrospectionReply, Error>(answer),
        body matches FrameBody::ReplyOperation(written) && written@ == answer@,
{
}

/// A connection is handled up to the first failure, which is the outcome: that no question came
/// in, that the root did not answer it, or that the answer was not written. If nothing fails, the
/// outcome is the answer of the root to the question.
pub proof fn law_handling_ends_with_the_first_failure<Q, R>(
    connection: IntrospectionConnection,
    received: Result<IncomingFrame<IntrospectionRequest, R>, Error>,
    asking: Result<(ConnectionAsking, HandleIntrospectionRequest), Error>,
    answer: Result<IntrospectionReply, SendError<HandleIntrospectionRequest, Error>>,
    writing: Result<(ConnectionWriting, FrameBody<Q, IntrospectionReply>), Error>,
    outcome: Result<(), Error>,
    result: Result<IntrospectionReply, Error>,
)
    requires
        call_ensures(
            IntrospectionDaemon::handle_connection::<R>,
            (connection, received),
            asking,
        ),
        match asking {
            Ok((asking, _)) => call_ensures(
                ConnectionAsking::answered::<Q>,
                (asking, answer),
                writing,
            ),
            Err(error) => writing == Err::<
                (ConnectionWriting, FrameBody<Q, IntrospectionReply>),
                Error,
            >(error),
        },
        match writing {
            Ok((writing, _)) => call_ensures(
                ConnectionWriting::written,
                (writing, outcome),
                result,
            ),
            Err(error) => result == Err::<IntrospectionReply, Error>(error),
        },
    ensures
        match (question_of(received), answer, outcome) {
            (Err(error), _, _) => result == Err::<IntrospectionReply, Error>(error),
            (Ok(request), Err(_), _) => {
                &&& asking matches Ok((_, message)) && message.request == request
                &&& result is Err && resolves_to(answer, HANDLE_OPERATION, result)
            },
            (Ok(request), Ok(_), Err(error)) => {
                &&& asking matches Ok((_, message)) && message.request == request
                &&& result == Err::<IntrospectionReply, Error>(error)
            },
            (Ok(request), Ok(reply), Ok(())) => {
                &&& asking matches Ok((_, message)) && message.request == request
                &&& result == Ok::<IntrospectionReply, Error>(reply)
            },
        },
{
}

/// Serving one connection ends with the first failure, which is the outcome: that none was
/// accepted, that it was not handled, or that the root was not stopped. If nothing fails, the
/// answer that was given is kept, and the socket at which it was given.
pub proof fn law_serving_one_ends_with_the_first_failure(
    bound: BoundIntrospectionDaemon,
    accept: ServingAccept,
    accepted: Result<(), Error>,
    handle: Result<ServingHandle, Error>,
    handled: Result<IntrospectionReply, Error>,
    stop: Result<ServingStop, Error>,
    stopped: Result<(), SendError<(), Infallible>>,
    shutdown: Result<ServingShutdown, Error>,
)
    requires
        call_ensures(BoundIntrospectionDaemon::serve_one, (bound,), accept),
        call_ensures(ServingAccept::accepted, (accept, accepted), handle),
        match handle {
            Ok(handle) => call_ensures(ServingHandle::handled, (handle, handled), stop),
            Err(error) => stop == Err::<ServingStop, Error>(error),
        },
        match stop {
            Ok(stop) => call_ensures(ServingStop::stopped, (stop, stopped), shutdown),
            Err(error) => shutdown == Err::<ServingShutdown, Error>(error),
        },
    ensures
        match (accepted, handled, stopped) {
            (Err(error), _, _) => shutdown == Err::<ServingShutdown, Error>(error),
            (Ok(()), Err(error), _) => shutdown == Err::<ServingShutdown, Error>(error),
            (Ok(()), Ok(_), Err(failure)) => {
                &&& shutdown matches Err(Error::Actor { operation, detail })
                &&& operation == STOP_OPERATION
                &&& failure_message(failure) matches Some(message) ==> detail@ == message
            },
            (Ok(()), Ok(reply), Ok(())) => shutdown matches Ok(shutdown) && shutdown@ == (
            ServedView { socket: bound@, reply }),
        },
{
}

/// A connection is served to its end only if each step succeeds; then the answer that was given
/// comes out, and the file that is removed is the socket's.
pub proof fn law_served_answer_comes_out(
    bound: BoundIntrospectionDaemon,
    answer: IntrospectionReply,
    removal: Result<(), Error>,
    accept: ServingAccept,
    handle: ServingHandle,
    stop: ServingStop,
    shutdown: ServingShutdown,
    remove: ServingRemove,
    file: PathBuf,
    result: IntrospectionReply,
)
    requires
        call_ensures(BoundIntrospectionDaemon::serve_one, (bound,), accept),
        call_ensures(ServingAccept::accepted, (accept, Ok(())), Ok(handle)),
        call_ensures(ServingHandle::handled, (handle, Ok(answer)), Ok(stop)),
        call_ensures(ServingStop::stopped, (stop, Ok(())), Ok(shutdown)),
        call_ensures(ServingShutdown::shut_down, (shutdown,), (remove, file)),
        call_ensures(ServingRemove::removed, (remove, removal), result),
    ensures
        result == answer,
        file == bound@,
{
}

/// What happens while connections are served without end.
pub enum ForeverEvent {
    /// The next connection came in, or there are no more.
    Accepted(Option<Result<(), Error>>),
    /// A connection was handled.
    Handled(Result<IntrospectionReply, Error>),
}

impl ForeverEvent {
    /// The error that the event brings, if it is a failure.
    pub open spec fn failure(self) -> Option<Error> {
        match self {
            ForeverEvent::Accepted(Some(Err(error))) => Some(error),
            ForeverEvent::Handled(Err(error)) => Some(error),
            _ => None,
        }
    }

    /// Whether the event is the end of all connections.
    pub open spec fn is_end(self) -> bool {
        self == ForeverEvent::Accepted(None)
    }
}

/// Whether an event is how a step turns out: a connection that is to be accepted comes in or does
/// not, and one that is to be handled is. Nothing happens once there is nothing more to do.
pub open spec fn happens_at(step: ForeverStep, event: ForeverEvent) -> bool {
    match step {
        ForeverStep::Accept => event is Accepted,
        ForeverStep::Handle => event is Handled,
        ForeverStep::Finish { .. } => false,
    }
}

/// What is to be done once these events have happened, the first to be done being to accept a
/// connection. What happens after there is nothing more to do changes nothing.
pub open spec fn served(events: Seq<ForeverEvent>) -> ForeverStep
    decreases events.len(),
{
    if events.len() == 0 {
        ForeverStep::Accept
    } else {
        match served(events.drop_last()) {
            ForeverStep::Finish { result } => ForeverStep::Finish { result },
            _ => match events.last() {
                ForeverEvent::Accepted(incoming) => step_after_accepting(incoming),
                ForeverEvent::Handled(outcome) => step_after_handling(outcome),
            },
        }
    }
}

/// Whether an event is how the step turns out that the events before it lead to.
pub open spec fn happens_in_turn(events: Seq<ForeverEvent>, index: int) -> bool {
    happens_at(served(events.take(index)), events[index])
}

/// Whether these events can happen, each in its turn.
pub open spec fn can_happen(events: Seq<ForeverEvent>) -> bool {
    forall|i: int| 0 <= i < events.len() ==> #[trigger] happens_in_turn(events, i)
}

/// As long as nothing fails and connections come in, they are served in order: each is accepted
/// and then handled before the next is accepted.
pub proof fn law_connections_are_served_in_order(events: Seq<ForeverEvent>)
    requires
        can_happen(events),
        forall|i: int|
            0 <= i < events.len() ==> (#[trigger] events[i]).failure() is None
                && !events[i].is_end(),
    ensures
        served(events) == (if events.len() % 2 == 0 {
            ForeverStep::Accept
        } else {
            ForeverStep::Handle
        }),
        forall|i: int|
            0 <= i < events.len() ==> ((#[trigger] events[i]) is Accepted <==> i % 2 == 0),
    decreases events.len(),
{
    if events.len() > 0 {
        let last = events.len() - 1;
        let earlier = events.take(last);
        assert(events.drop_last() == earlier);
        assert(can_happen(earlier)) by {
            assert forall|i: int| 0 <= i < earlier.len() implies #[trigger] happens_in_turn(
                earlier,
                i,
            ) by {
                assert(earlier.take(i) == events.take(i));
                assert(happens_in_turn(events, i));
            }
        }
        law_connections_are_served_in_order(earlier);
        assert(happens_in_turn(events, last));
        assert(events[last].failure() is None && !events[last].is_end());
        assert(events[last] is Accepted <==> last % 2 == 0);
        assert forall|i: int| 0 <= i < events.len() implies ((
        #[trigger] events[i]) is Accepted <==> i % 2 == 0) by {
            if i < last {
                assert(earlier[i] is Accepted <==> i % 2 == 0);
            }
        }
    }
}

/// Serving ends with the first failure and not before it: as long as every event is a success,
/// there is more to do, and the first failure is the outcome.
pub proof fn law_serving_ends_with_the_first_failure(
    events: Seq<ForeverEvent>,
    first: int,
    error: Error,
)
    requires
        0 <= first < events.len(),
        events[first].failure() == Some(error),
        forall|i: int|
            0 <= i < first ==> (#[trigger] events[i]).failure() is None && !events[i].is_end(),
    ensures
        served(events.take(first)) !is Finish,
        served(events.take(first + 1)) == (ForeverStep::Finish { result: Err(error) }),
{
    lemma_success_leaves_more_to_do(events.take(first));
    assert(events.take(first + 1).drop_last() == events.take(first));
    assert(events.take(first + 1).last() == events[first]);
}

/// Nothing is served once serving has ended: whatever happens later, the outcome stays, and no
/// event can be the turn of a step.
pub proof fn law_nothing_is_served_after_the_end(
    events: Seq<ForeverEvent>,
    later: Seq<ForeverEvent>,
    result: Result<(), Error>,
)
    requires
        served(events) == (ForeverStep::Finish { result }),
    ensures
        served(events + later) == (ForeverStep::Finish { result }),
        later.len() > 0 ==> !can_happen(events + later),
    decreases later.len(),
{
    if later.len() == 0 {
        assert(events + later == events);
    } else {
        law_nothing_is_served_after_the_end(events, later.drop_last(), result);
        assert((events + later).drop_last() == events + later.drop_last());
        assert((events + later).take(events.len() as int) == events);
        assert(!happens_in_turn(events + later, events.len() as int));
    }
}

/// As long as every event is a success there is more to do.
proof fn lemma_success_leaves_more_to_do(events: Seq<ForeverEvent>)
    requires
        forall|i: int|
            0 <= i < events.len() ==> (#[trigger] events[i]).failure() is None
                && !events[i].is_end(),
    ensures
        served(events) !is Finish,
    decreases events.len(),
{
    if events.len() > 0 {
        let earlier = events.drop_last();
        assert forall|i: int|
            0 <= i < earlier.len() implies (#[trigger] earlier[i]).failure() is None
            && !earlier[i].is_end() by {
            assert(earlier[i] == events[i]);
        }
        lemma_success_leaves_more_to_do(earlier);
        let last = events[events.len() - 1];
        assert(last.failure() is None && !last.is_end());
    }
}

/// A connection takes frames that are no longer than any codec takes without another limit. It
/// takes a question from a frame that carries one, as it is, and from no other; and the frame
/// that answers carries the answer as it is.
pub proof fn law_connection_takes_questions_and_gives_answers<Q, R>(
    connection: IntrospectionConnection,
    codec: IntrospectionFrameCodec,
    frame: IncomingFrame<IntrospectionRequest, R>,
    request: Result<IntrospectionRequest, Error>,
    reply: IntrospectionReply,
    body: FrameBody<Q, IntrospectionReply>,
)
    requires
        call_ensures(IntrospectionConnection::accepted, (), connection),
        call_ensures(IntrospectionConnection::signal, (&connection,), codec),
        call_ensures(
            IntrospectionConnection::read_signal_request::<R>,
            (&connection, frame),
            request,
        ),
        call_ensures(
            IntrospectionConnection::write_signal_reply::<Q>,
            (&connection, reply),
            body,
        ),
    ensures
        codec@ == 1048576,
        match frame.body {
            FrameBody::RequestOperation(asked) => request matches Ok(given) && given == asked,
            _ => request matches Err(Error::UnexpectedSignalFrame { got }) && got
                == frame.rendering,
        },
        body matches FrameBody::ReplyOperation(given) && given == reply,
{
}

/// The root is asked the very question that the received frame carries. A frame that carries none
/// is turned down with what it shows, and what kept a frame from being received is passed on.
pub proof fn law_root_is_asked_what_was_received<R>(
    connection: IntrospectionConnection,
    received: Result<IncomingFrame<IntrospectionRequest, R>, Error>,
    asking: Result<(ConnectionAsking, HandleIntrospectionRequest), Error>,
)
    requires
        call_ensures(
            IntrospectionDaemon::handle_connection::<R>,
            (connection, received),
            asking,
        ),
    ensures
        match received {
            Ok(frame) => match frame.body {
                FrameBody::RequestOperation(request) => asking matches Ok((_, message))
                    && message.request == request,
                _ => asking matches Err(Error::UnexpectedSignalFrame { got }) && got
                    == frame.rendering,
            },
            Err(error) => asking matches Err(given) && given == error,
        },
{
}

/// An answer of the root goes into the frame that is written, part by part. An error that the root
/// answered with ends the connection as it is, and any other failure ends it with an error that
/// names the handling of a question and what happened.
pub proof fn law_answer_of_the_root_is_written<Q>(
    asking: ConnectionAsking,
    answer: Result<IntrospectionReply, SendError<HandleIntrospectionRequest, Error>>,
    writing: Result<(ConnectionWriting, FrameBody<Q, IntrospectionReply>), Error>,
)
    requires
        call_ensures(ConnectionAsking::answered::<Q>, (asking, answer), writing),
    ensures
        match answer {
            Ok(reply) => writing matches Ok((_, body)) && body matches FrameBody::ReplyOperation(
                written,
            ) && match reply {
                IntrospectionReply::EngineSnapshot(given) => {
                    &&& written matches IntrospectionReply::EngineSnapshot(sent)
                    &&& sent.engine@ == given.engine@
                    &&& sent.observed_components@ == given.observed_components@
                },
                IntrospectionReply::ComponentSnapshot(given) => {
                    &&& written matches IntrospectionReply::ComponentSnapshot(sent)
                    &&& sent.engine@ == given.engine@
                    &&& sent.target == given.target
                    &&& sent.readiness == given.readiness
                },
                IntrospectionReply::DeliveryTrace(given) => {
                    &&& written matches IntrospectionReply::DeliveryTrace(sent)
                    &&& sent.engine@ == given.engine@
                    &&& sent.correlation@ == given.correlation@
                    &&& sent.status == given.status
                },
                IntrospectionReply::PrototypeWitness(given) => {
                    &&& written matches IntrospectionReply::PrototypeWitness(sent)
                    &&& sent.engine@ == given.engine@
                    &&& sent.manager_seen == given.manager_seen
                    &&& sent.router_seen == given.router_seen
                    &&& sent.terminal_seen == given.terminal_seen
                    &&& sent.delivery_status == given.delivery_status
                },
            },
            Err(SendError::HandlerError(error)) => writing matches Err(given) && given == error,
            Err(failure) => {
                &&& writing matches Err(Error::Actor { operation, detail })
                &&& operation@ == "handle introspection request"@
                &&& detail@ == (match failure {
                    SendError::ActorNotRunning(_) => "ActorNotRunning"@,
                    SendError::ActorStopped => "ActorStopped"@,
                    SendError::MailboxFull(_) => "MailboxFull"@,
                    _ => "Timeout"@,
                })
            },
        },
{
}

/// A root that was not stopped ends the serving with an error that names its stopping and says
/// what happened.
pub proof fn law_failed_stop_is_reported(
    stop: ServingStop,
    failure: SendError<(), Infallible>,
    result: Result<ServingShutdown, Error>,
)
    requires
        call_ensures(ServingStop::stopped, (stop, Err(failure)), result),
    ensures
        result matches Err(Error::Actor { operation, detail }) && {
            &&& operation@ == "stop introspection root"@
            &&& failure is ActorNotRunning ==> detail@ == "actor not running"@
            &&& failure is ActorStopped ==> detail@ == "actor stopped"@
            &&& failure is MailboxFull ==> detail@ == "mailbox full"@
            &&& failure is Timeout ==> detail@ == "timeout"@
        },
{
}

/// One connection is served at the socket where the daemon listens, and that is the file that is
/// removed in the end, whatever comes of the removal.
pub proof fn law_served_socket_is_removed(
    bound: BoundIntrospectionDaemon,
    socket: &PathBuf,
    answer: IntrospectionReply,
    removal: Result<(), Error>,
    accept: ServingAccept,
    handle: ServingHandle,
    stop: ServingStop,
    shutdown: ServingShutdown,
    remove: ServingRemove,
    file: PathBuf,
    result: IntrospectionReply,
)
    requires
        call_ensures(BoundIntrospectionDaemon::socket, (&bound,), socket),
        call_ensures(BoundIntrospectionDaemon::serve_one, (bound,), accept),
        call_ensures(ServingAccept::accepted, (accept, Ok(())), Ok(handle)),
        call_ensures(ServingHandle::handled, (handle, Ok(answer)), Ok(stop)),
        call_ensures(ServingStop::stopped, (stop, Ok(())), Ok(shutdown)),
        call_ensures(ServingShutdown::shut_down, (shutdown,), (remove, file)),
        call_ensures(ServingRemove::removed, (remove, removal), result),
    ensures
        file == *socket,
        result == answer,
{
}

/// Serving without end takes turns: a connection that came in is handled, and one that was handled
/// is followed by the next. It ends where no connection comes in any more, and with any error, as
/// that error is.
pub proof fn law_serving_without_end_takes_turns(
    bound: BoundIntrospectionDaemon,
    first: ForeverStep,
    incoming: Option<Result<(), Error>>,
    after_accepting: ForeverStep,
    outcome: Result<IntrospectionReply, Error>,
    after_handling: ForeverStep,
)
    requires
        call_ensures(BoundIntrospectionDaemon::serve_forever, (bound,), first),
        call_ensures(ForeverStep::accepted, (incoming,), after_accepting),
        call_ensures(ForeverStep::handled, (outcome,), after_handling),
    ensures
        first is Accept,
        after_accepting is Handle <==> incoming matches Some(Ok(())),
        incoming is None <==> after_accepting matches ForeverStep::Finish { result: Ok(()) },
        incoming matches Some(Err(error)) ==> after_accepting matches ForeverStep::Finish {
            result: Err(given),
        } && given == error,
        after_handling is Accept <==> outcome is Ok,
        outcome matches Err(error) ==> after_handling matches ForeverStep::Finish {
            result: Err(given),
        } && given == error,
{
}

} // verus!
