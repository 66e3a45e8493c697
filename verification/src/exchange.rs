//! What holds of a question and its answer from one end of a socket to the other.

use crate::client::{
    IntrospectionSignalClient, SubmissionConnecting, SubmissionReceiving, SubmissionSending,
};
use crate::codec::{FrameBody, IncomingFrame, IntrospectionFrameCodec};
use crate::daemon::IntrospectionDaemon;
use crate::error::Error;
use crate::runtime::{reply_to, HandleIntrospectionRequest};
use crate::serving::{ConnectionAsking, ConnectionWriting, IntrospectionConnection};
use crate::signal::{IntrospectionReply, IntrospectionRequest};
use std::path::PathBuf;
use vstd::prelude::*;

verus! {

/// A client that asks a question gets the answer that the root gives to that very question, and
/// the daemon that served it reports the same answer: if both frames arrive as they were sent, the
/// root answers, and nothing that is to be done fails.
pub proof fn law_client_gets_the_answer_to_its_question(
    client: &IntrospectionSignalClient,
    request: IntrospectionRequest,
    connecting: SubmissionConnecting<IntrospectionRequest>,
    socket: PathBuf,
    sending: SubmissionSending,
    question: FrameBody<IntrospectionRequest, IntrospectionReply>,
    question_rendering: String,
    connection: IntrospectionConnection,
    asking: ConnectionAsking,
    message: HandleIntrospectionRequest,
    answer: IntrospectionReply,
    writing: ConnectionWriting,
    reply: FrameBody<IntrospectionRequest, IntrospectionReply>,
    reply_rendering: String,
    reported: Result<IntrospectionReply, Error>,
    receiving: SubmissionReceiving,
    codec: IntrospectionFrameCodec,
    result: Result<IntrospectionReply, Error>,
)
    requires
        call_ensures(
            IntrospectionSignalClient::submit::<IntrospectionRequest>,
            (client, request),
            (connecting, socket),
        ),
        call_ensures(
            SubmissionConnecting::<IntrospectionRequest>::connected::<IntrospectionReply>,
            (connecting, Ok(())),
            Ok((sending, question)),
        ),
        call_ensures(SubmissionSending::sent, (sending, Ok(())), Ok((receiving, codec))),
        call_ensures(
            IntrospectionDaemon::handle_connection::<IntrospectionReply>,
            (connection, Ok(IncomingFrame { body: question, rendering: question_rendering })),
            Ok((asking, message)),
        ),
        answer@ == reply_to(message.request@),
        call_ensures(
            ConnectionAsking::answered::<IntrospectionRequest>,
            (asking, Ok(answer)),
            Ok((writing, reply)),
        ),
        call_ensures(ConnectionWriting::written, (writing, Ok(())), reported),
        call_ensures(
            SubmissionReceiving::received::<IntrospectionRequest, IntrospectionReply>,
            (receiving, Ok(IncomingFrame { body: reply, rendering: reply_rendering })),
            result,
        ),
    ensures
        message.request == request,
        result matches Ok(result) && result@ == reply_to(request@),
        reported matches Ok(reported) && reported@ == reply_to(request@),
{
}

} // verus!
