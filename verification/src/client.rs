//! Asks a question over a socket: connect, send the question, receive the answer.

use crate::codec::{
    reply_in, FrameBody, IncomingFrame, IntrospectionFrameCodec, DEFAULT_MAXIMUM_FRAME_BYTES,
};
use crate::error::Error;
use std::path::PathBuf;
use vstd::prelude::*;

verus! {

/// Asks questions at the socket of a component.
#[derive(Debug, Clone, PartialEq, Eq)]
pub struct IntrospectionSignalClient {
    socket: PathBuf,
    signal: IntrospectionFrameCodec,
}

/// The socket, and the longest frame that is taken from it.
pub struct ClientView {
    pub socket: PathBuf,
    pub maximum_frame_bytes: usize,
}

impl View for IntrospectionSignalClient {
    type V = ClientView;

    closed spec fn view(&self) -> ClientView {
        ClientView { socket: self.socket, maximum_frame_bytes: self.signal@ }
    }
}

impl IntrospectionSignalClient {
    /// A client of the component at a socket.
    pub fn new(socket: PathBuf) -> (res: Self)
        ensures
            res@ == (ClientView { socket, maximum_frame_bytes: DEFAULT_MAXIMUM_FRAME_BYTES }),
    {
        Self { socket, signal: IntrospectionFrameCodec::default() }
    }

    /// Starts to ask a question. The socket that is handed out is to be connected to.
    pub fn submit<Q>(&self, request: Q) -> (res: (SubmissionConnecting<Q>, PathBuf))
        ensures
            res.0@ == (SubmissionView {
                request,
                maximum_frame_bytes: self@.maximum_frame_bytes,
            }),
            res.1 == self@.socket,
    {
        (SubmissionConnecting { request, signal: self.signal }, self.socket.clone())
    }
}

/// The question that is asked, and the longest frame that is taken as its answer.
pub struct SubmissionView<Q> {
    pub request: Q,
    pub maximum_frame_bytes: usize,
}

/// A question whose socket is being connected to.
#[derive(Debug)]
pub struct SubmissionConnecting<Q> {
    request: Q,
    signal: IntrospectionFrameCodec,
}

impl<Q> View for SubmissionConnecting<Q> {
    type V = SubmissionView<Q>;

    closed spec fn view(&self) -> SubmissionView<Q> {
        SubmissionView { request: self.request, maximum_frame_bytes: self.signal@ }
    }
}

impl<Q> SubmissionConnecting<Q> {
    /// Takes whether the socket was connected to. What the frame is to carry that is sent next
    /// is handed out; an error ends the asking.
    pub fn connected<R>(self, outcome: Result<(), Error>) -> (res: Result<
        (SubmissionSending, FrameBody<Q, R>),
        Error,
    >)
        ensures
            outcome is Ok ==> res is Ok && res->Ok_0.0@ == self@.maximum_frame_bytes && res->Ok_0.1
                == FrameBody::<Q, R>::RequestOperation(self@.request),
            outcome matches Err(error) ==> res == Err::<(SubmissionSending, FrameBody<Q, R>), _>(
                error,
            ),
    {
        match outcome {
            Ok(()) => {
                let body = self.signal.write_request(self.request);
                Ok((SubmissionSending { signal: self.signal }, body))
            },
            Err(error) => Err(error),
        }
    }
}

/// A question that is being sent.
#[derive(Debug)]
pub struct SubmissionSending {
    signal: IntrospectionFrameCodec,
}

/// The longest frame that is taken as the answer.
impl View for SubmissionSending {
    type V = usize;

    closed spec fn view(&self) -> usize {
        self.signal@
    }
}

impl SubmissionSending {
    /// Takes whether the question was sent. The codec is handed out that is to receive the
    /// answer; an error ends the asking.
    pub fn sent(self, outcome: Result<(), Error>) -> (res: Result<
        (SubmissionReceiving, IntrospectionFrameCodec),
        Error,
    >)
        ensures
            outcome is Ok ==> res is Ok && res->Ok_0.0@ == self@ && res->Ok_0.1@ == self@,
            outcome matches Err(error) ==> res == Err::<
                (SubmissionReceiving, IntrospectionFrameCodec),
                _,
            >(error),
    {
        match outcome {
            Ok(()) => Ok((SubmissionReceiving { signal: self.signal }, self.signal)),
            Err(error) => Err(error),
        }
    }
}

/// A question whose answer is being received.
#[derive(Debug)]
pub struct SubmissionReceiving {
    signal: IntrospectionFrameCodec,
}

/// The longest frame that is taken as the answer.
impl View for SubmissionReceiving {
    type V = usize;

    closed spec fn view(&self) -> usize {
        self.signal@
    }
}

impl SubmissionReceiving {
    /// Takes the frame that was received and gives the answer that it carries. A frame that
    /// carries none is an error, and so is one that was not received.
    pub fn received<Q, R>(self, outcome: Result<IncomingFrame<Q, R>, Error>) -> (res: Result<
        R,
        Error,
    >)
        ensures
            res == (match outcome {
                Ok(frame) => reply_in(frame),
                Err(error) => Err(error),
            }),
    {
        match outcome {
            Ok(frame) => self.signal.read_reply(frame),
            Err(error) => Err(error),
        }
    }
}

/// A question is asked up to the first failure, which is the outcome: that the socket was not
/// connected to, that the question was not sent, or that no frame was received. If nothing fails,
/// the outcome is what the received frame answers. The question is sent as it was given, and the
/// answer is received within the limit of the client.
pub proof fn law_asking_ends_with_the_first_failure<Q, R>(
    client: &IntrospectionSignalClient,
    request: Q,
    connecting: SubmissionConnecting<Q>,
    socket: PathBuf,
    connected: Result<(), Error>,
    sending: Result<(SubmissionSending, FrameBody<Q, R>), Error>,
    sent: Result<(), Error>,
    receiving: Result<(SubmissionReceiving, IntrospectionFrameCodec), Error>,
    received: Result<IncomingFrame<Q, R>, Error>,
    result: Result<R, Error>,
)
    requires
        call_ensures(
            IntrospectionSignalClient::submit::<Q>,
            (client, request),
            (connecting, socket),
        ),
        call_ensures(
            SubmissionConnecting::<Q>::connected::<R>,
            (connecting, connected),
            sending,
        ),
        match sending {
            Ok((sending, _)) => call_ensures(SubmissionSending::sent, (sending, sent), receiving),
            Err(error) => receiving == Err::<(SubmissionReceiving, IntrospectionFrameCodec), Error>(
                error,
            ),
        },
        match receiving {
            Ok((receiving, _)) => call_ensures(
                SubmissionReceiving::received::<Q, R>,
                (receiving, received),
                result,
            ),
            Err(error) => result == Err::<R, Error>(error),
        },
    ensures
        socket == client@.socket,
        sending matches Ok((_, body)) ==> body == FrameBody::<Q, R>::RequestOperation(request),
        receiving matches Ok((_, codec)) ==> codec@ == client@.maximum_frame_bytes,
        result == (match (connected, sent, received) {
            (Err(error), _, _) => Err(error),
            (Ok(()), Err(error), _) => Err(error),
            (Ok(()), Ok(()), Err(error)) => Err(error),
            (Ok(()), Ok(()), Ok(frame)) => reply_in(frame),
        }),
{
}

/// A client asks at the socket that it was made with. What it sends is the question as it was
/// given, and it takes answers that are no longer than any codec takes without another limit.
pub proof fn law_client_asks_at_its_socket<Q, R>(
    path: PathBuf,
    client: IntrospectionSignalClient,
    request: Q,
    connecting: SubmissionConnecting<Q>,
    socket: PathBuf,
    sending: SubmissionSending,
    body: FrameBody<Q, R>,
    receiving: SubmissionReceiving,
    codec: IntrospectionFrameCodec,
    default: IntrospectionFrameCodec,
)
    requires
        call_ensures(IntrospectionSignalClient::new, (path,), client),
        call_ensures(
            IntrospectionSignalClient::submit::<Q>,
            (&client, request),
            (connecting, socket),
        ),
        call_ensures(
            SubmissionConnecting::<Q>::connected::<R>,
            (connecting, Ok(())),
            Ok((sending, body)),
        ),
        call_ensures(SubmissionSending::sent, (sending, Ok(())), Ok((receiving, codec))),
        call_ensures(<IntrospectionFrameCodec as Default>::default, (), default),
    ensures
        socket == path,
        body matches FrameBody::RequestOperation(sent) && sent == request,
        codec@ == default@,
        codec@ == 1048576,
{
}

/// What the asking gives is what the received frame carries as an answer, and nothing else: a
/// question, or a frame with neither, is an error that shows what was received.
pub proof fn law_received_answer_is_given<Q, R>(
    receiving: SubmissionReceiving,
    frame: IncomingFrame<Q, R>,
    result: Result<R, Error>,
)
    requires
        call_ensures(SubmissionReceiving::received::<Q, R>, (receiving, Ok(frame)), result),
    ensures
        match frame.body {
            FrameBody::ReplyOperation(reply) => result matches Ok(given) && given == reply,
            _ => result matches Err(Error::UnexpectedSignalFrame { got }) && got
                == frame.rendering,
        },
{
}

} // verus!
