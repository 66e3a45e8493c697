//! What comes back of a message to an actor.

use crate::error::Error;
use kameo::error::SendError;
use vstd::prelude::*;

verus! {

/// `kameo::error::SendError`: why a message was not answered. Its variants are as declared there.
#[verifier::external_type_specification]
#[verifier::reject_recursive_types(M)]
#[verifier::reject_recursive_types(E)]
pub struct ExSendError<M, E>(kameo::error::SendError<M, E>);

/// `kameo::error::Infallible`: the error of an actor that gives none.
#[verifier::external_type_specification]
#[verifier::external_body]
pub struct ExInfallible(kameo::error::Infallible);

/// The name under which a failure to get an answer is shown. An error that the actor itself
/// answered with has none.
pub open spec fn failure_name<M, E>(failure: SendError<M, E>) -> Option<Seq<char>> {
    match failure {
        SendError::ActorNotRunning(_) => Some("ActorNotRunning"@),
        SendError::ActorStopped => Some("ActorStopped"@),
        SendError::MailboxFull(_) => Some("MailboxFull"@),
        SendError::HandlerError(_) => None,
        SendError::Timeout(_) => Some("Timeout"@),
    }
}

/// What is said of a failure to get an answer. An error that the actor itself answered with says
/// for itself what it is.
pub open spec fn failure_message<M, E>(failure: SendError<M, E>) -> Option<Seq<char>> {
    match failure {
        SendError::ActorNotRunning(_) => Some("actor not running"@),
        SendError::ActorStopped => Some("actor stopped"@),
        SendError::MailboxFull(_) => Some("mailbox full"@),
        SendError::HandlerError(_) => None,
        SendError::Timeout(_) => Some("timeout"@),
    }
}

/// Formats a failure with `{:?}`, which calls `<SendError as Debug>::fmt` of `kameo`: the name of
/// the variant. Of an error that the actor answered with nothing is said here.
#[verifier::external_body]
fn failure_name_text<M>(failure: &SendError<M, Error>) -> (res: String)
    ensures
        failure_name(*failure) matches Some(name) ==> res@ == name,
{
    format!("{failure:?}")
}

/// Formats a failure with `{}`, which calls `<SendError as Display>::fmt` of `kameo`: a short
/// message for each variant. Of an error that the actor answered with nothing is said here; there
/// is none, since `Infallible` has no value.
#[verifier::external_body]
pub(crate) fn failure_message_text(failure: &SendError<(), kameo::error::Infallible>) -> (res:
    String)
    ensures
        failure_message(*failure) matches Some(message) ==> res@ == message,
{
    format!("{failure}")
}

/// Whether a result is what an answer to the message of an operation stands for: the answer
/// itself, the error that the actor answered with, or else an error that names the operation and
/// the failure.
pub open spec fn resolves_to<M, R>(
    answer: Result<R, SendError<M, Error>>,
    operation: &'static str,
    result: Result<R, Error>,
) -> bool {
    match answer {
        Ok(reply) => result == Ok::<R, Error>(reply),
        Err(SendError::HandlerError(error)) => result == Err::<R, Error>(error),
        Err(failure) => result matches Err(Error::Actor { operation: failed, detail }) && failed
            == operation && failure_name(failure) == Some(detail@),
    }
}

/// The answer to the message of an operation, or the error that stands for what came instead.
pub fn resolve<M, R>(answer: Result<R, SendError<M, Error>>, operation: &'static str) -> (res:
    Result<R, Error>)
    ensures
        resolves_to(answer, operation, res),
{
    match answer {
        Ok(reply) => Ok(reply),
        Err(SendError::HandlerError(error)) => Err(error),
        Err(failure) => Err(Error::Actor { operation, detail: failure_name_text(&failure) }),
    }
}

/// Whatever the operation and whatever is asked: an answer is given on as it is, and so is an error
/// that the actor answered with. Any other failure is reported with the operation as it was named
/// and with the name of what happened.
pub proof fn law_failure_is_reported_by_its_name<M, R>(
    answer: Result<R, SendError<M, Error>>,
    operation: &'static str,
    result: Result<R, Error>,
)
    requires
        call_ensures(resolve::<M, R>, (answer, operation), result),
    ensures
        match answer {
            Ok(reply) => result matches Ok(given) && given == reply,
            Err(SendError::HandlerError(error)) => result matches Err(given) && given == error,
            Err(SendError::ActorNotRunning(_)) => {
                &&& result matches Err(Error::Actor { operation: failed, detail })
                &&& failed@ == operation@ && detail@ == "ActorNotRunning"@
            },
            Err(SendError::ActorStopped) => {
                &&& result matches Err(Error::Actor { operation: failed, detail })
                &&& failed@ == operation@ && detail@ == "ActorStopped"@
            },
            Err(SendError::MailboxFull(_)) => {
                &&& result matches Err(Error::Actor { operation: failed, detail })
                &&& failed@ == operation@ && detail@ == "MailboxFull"@
            },
            Err(SendError::Timeout(_)) => {
                &&& result matches Err(Error::Actor { operation: failed, detail })
                &&& failed@ == operation@ && detail@ == "Timeout"@
            },
        },
{
}

} // verus!
