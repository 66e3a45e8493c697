//! Frames: how many bytes one takes, and what is taken from one that has arrived.

use crate::error::Error;
use crate::text::{decimal, decimal_text};
use vstd::prelude::*;
use vstd::string::*;

verus! {

/// How many bytes announce the length of a frame.
pub const PREFIX_BYTES: usize = 4;

/// The longest frame that is taken unless another limit is asked for.
pub const DEFAULT_MAXIMUM_FRAME_BYTES: usize = 1048576;

/// What a frame carries: a question of type `Q`, an answer of type `R`, or neither.
#[derive(Debug, Clone, PartialEq, Eq)]
pub enum FrameBody<Q, R> {
    RequestOperation(Q),
    ReplyOperation(R),
    Other,
}

/// A frame that has arrived: what it carries, and how that is shown where it was not due.
#[derive(Debug, Clone, PartialEq, Eq)]
pub struct IncomingFrame<Q, R> {
    pub body: FrameBody<Q, R>,
    pub rendering: String,
}

/// The question that a frame carries, or what is said of a frame that carries none.
pub open spec fn request_in<Q, R>(frame: IncomingFrame<Q, R>) -> Result<Q, Error> {
    match frame.body {
        FrameBody::RequestOperation(request) => Ok(request),
        _ => Err(Error::UnexpectedSignalFrame { got: frame.rendering }),
    }
}

/// The answer that a frame carries, or what is said of a frame that carries none.
pub open spec fn reply_in<Q, R>(frame: IncomingFrame<Q, R>) -> Result<R, Error> {
    match frame.body {
        FrameBody::ReplyOperation(reply) => Ok(reply),
        _ => Err(Error::UnexpectedSignalFrame { got: frame.rendering }),
    }
}

/// Where the reading of a frame stands.
#[derive(Debug)]
pub enum FrameProgress {
    /// This many more bytes are needed.
    Receive { count: usize },
    /// The frame takes the first `size` of the bytes.
    Complete { size: usize },
    /// The frame is not taken.
    Rejected { error: Error },
}

/// Where the reading of a frame stands, by numbers.
pub enum FrameProgressView {
    Receive { count: nat },
    Complete { size: nat },
    TooLong { length: nat },
}

/// The length that the first four bytes announce, the most significant byte first.
pub open spec fn announced_length(bytes: Seq<u8>) -> nat {
    (bytes[0] * 0x100_0000 + bytes[1] * 0x1_0000 + bytes[2] * 0x100 + bytes[3]) as nat
}

/// Where the reading of a frame stands once these bytes have arrived, if no more than `maximum`
/// bytes may follow the announced length.
pub open spec fn frame_progress(received: Seq<u8>, maximum: nat) -> FrameProgressView {
    let length = announced_length(received);
    if received.len() < PREFIX_BYTES {
        FrameProgressView::Receive { count: (PREFIX_BYTES - received.len()) as nat }
    } else if length > maximum {
        FrameProgressView::TooLong { length }
    } else if received.len() < PREFIX_BYTES + length {
        FrameProgressView::Receive { count: (PREFIX_BYTES + length - received.len()) as nat }
    } else {
        FrameProgressView::Complete { size: (PREFIX_BYTES + length) as nat }
    }
}

/// What is said of a frame that is too long.
pub open spec fn too_long_text(length: nat, maximum: nat) -> Seq<char> {
    "frame length "@ + decimal(length) + " exceeds "@ + decimal(maximum)
}

impl FrameProgress {
    /// Whether this is how a reading with the given limit stands.
    pub open spec fn shows(self, progress: FrameProgressView, maximum: nat) -> bool {
        match progress {
            FrameProgressView::Receive { count: due } => {
                self matches FrameProgress::Receive { count } && count == due
            },
            FrameProgressView::Complete { size: due } => {
                self matches FrameProgress::Complete { size } && size == due
            },
            FrameProgressView::TooLong { length } => {
                self matches FrameProgress::Rejected { error }
                    && error matches Error::UnexpectedSignalFrame { got } && got@ == too_long_text(
                    length,
                    maximum,
                )
            },
        }
    }
}

/// Reads and writes frames of a limited length.
#[derive(Debug, Clone, Copy, PartialEq, Eq, Structural)]
pub struct IntrospectionFrameCodec {
    maximum_frame_bytes: usize,
}

impl View for IntrospectionFrameCodec {
    type V = usize;

    closed spec fn view(&self) -> usize {
        self.maximum_frame_bytes
    }
}

impl IntrospectionFrameCodec {
    pub fn new(maximum_frame_bytes: usize) -> (res: Self)
        ensures
            res@ == maximum_frame_bytes,
    {
        Self { maximum_frame_bytes }
    }

    /// What is to be done about a frame of which these bytes have arrived: receive more, take
    /// the frame, or turn it down for its announced length.
    pub fn read_frame(&self, received: &Vec<u8>) -> (res: FrameProgress)
        ensures
            res.shows(frame_progress(received@, self@ as nat), self@ as nat),
    {
        if received.len() < PREFIX_BYTES {
            return FrameProgress::Receive { count: PREFIX_BYTES - received.len() };
        }
        let length: usize = (received[0] as u32 * 0x100_0000 + received[1] as u32 * 0x1_0000
            + received[2] as u32 * 0x100 + received[3] as u32) as usize;
        if length > self.maximum_frame_bytes {
            let got = "frame length ".to_owned().concat(decimal_text(length).as_str()).concat(
                " exceeds ",
            ).concat(decimal_text(self.maximum_frame_bytes).as_str());
            return FrameProgress::Rejected { error: Error::UnexpectedSignalFrame { got } };
        }
        let body_received: usize = received.len() - PREFIX_BYTES;
        if body_received < length {
            FrameProgress::Receive { count: length - body_received }
        } else {
            FrameProgress::Complete { size: PREFIX_BYTES + length }
        }
    }

    /// The question that a frame carries; a frame that carries none is an error.
    pub fn read_request<Q, R>(&self, frame: IncomingFrame<Q, R>) -> (res: Result<Q, Error>)
        ensures
            res == request_in(frame),
    {
        match frame.body {
            FrameBody::RequestOperation(request) => Ok(request),
            _ => Err(Error::UnexpectedSignalFrame { got: frame.rendering }),
        }
    }

    /// The answer that a frame carries; a frame that carries none is an error.
    pub fn read_reply<Q, R>(&self, frame: IncomingFrame<Q, R>) -> (res: Result<R, Error>)
        ensures
            res == reply_in(frame),
    {
        match frame.body {
            FrameBody::ReplyOperation(reply) => Ok(reply),
            _ => Err(Error::UnexpectedSignalFrame { got: frame.rendering }),
        }
    }

    /// What the frame that asks a question carries.
    pub fn write_request<Q, R>(&self, request: Q) -> (res: FrameBody<Q, R>)
        ensures
            res == FrameBody::<Q, R>::RequestOperation(request),
    {
        FrameBody::RequestOperation(request)
    }

    /// What the frame that gives an answer carries.
    pub fn write_reply<Q, R>(&self, reply: R) -> (res: FrameBody<Q, R>)
        ensures
            res == FrameBody::<Q, R>::ReplyOperation(reply),
    {
        FrameBody::ReplyOperation(reply)
    }
}

impl Default for IntrospectionFrameCodec {
    fn default() -> (res: Self)
        ensures
            res@ == DEFAULT_MAXIMUM_FRAME_BYTES,
    {
        Self::new(DEFAULT_MAXIMUM_FRAME_BYTES)
    }
}

/// The four bytes that announce a length, the most significant byte first.
pub open spec fn length_prefix(length: nat) -> Seq<u8> {
    seq![
        (length / 0x100_0000) as u8,
        (length / 0x1_0000 % 0x100) as u8,
        (length / 0x100 % 0x100) as u8,
        (length % 0x100) as u8,
    ]
}

/// Whether a length can be announced and is within a limit.
pub open spec fn fits(length: nat, maximum: nat) -> bool {
    length <= maximum && length < 0x1_0000_0000
}

/// The four bytes that announce a length are read as that length.
pub proof fn law_announced_length_is_read_back(length: nat, rest: Seq<u8>)
    requires
        length < 0x1_0000_0000,
    ensures
        announced_length(length_prefix(length) + rest) == length,
{
    let bytes = length_prefix(length) + rest;
    let upper = length / 0x100;
    let uppermost = upper / 0x100;
    assert(length / 0x1_0000 == uppermost);
    assert(length / 0x100_0000 == uppermost / 0x100);
    assert(uppermost / 0x100 < 0x100);
    assert(bytes[0] == uppermost / 0x100);
    assert(bytes[1] == uppermost % 0x100);
    assert(bytes[2] == upper % 0x100);
    assert(bytes[3] == length % 0x100);
}

/// A frame that fits is taken whole, whatever follows it.
pub proof fn law_frame_is_taken_whole(body: Seq<u8>, rest: Seq<u8>, maximum: nat)
    requires
        fits(body.len(), maximum),
    ensures
        frame_progress(length_prefix(body.len()) + body + rest, maximum)
            == (FrameProgressView::Complete { size: (length_prefix(body.len()) + body).len() }),
{
    let received = length_prefix(body.len()) + body + rest;
    assert(received == length_prefix(body.len()) + (body + rest));
    law_announced_length_is_read_back(body.len(), body + rest);
}

/// As long as a frame that fits has not arrived whole, more bytes are received, at least one and
/// none that lies behind the frame.
pub proof fn law_frame_is_never_overrun(body: Seq<u8>, arrived: int, maximum: nat)
    requires
        fits(body.len(), maximum),
        0 <= arrived < (length_prefix(body.len()) + body).len(),
    ensures
        frame_progress((length_prefix(body.len()) + body).take(arrived), maximum) matches
            FrameProgressView::Receive { count } && 0 < count && arrived + count <= (length_prefix(
            body.len(),
        ) + body).len(),
{
    let frame = length_prefix(body.len()) + body;
    law_announced_length_is_read_back(body.len(), body);
    if arrived >= PREFIX_BYTES {
        assert(announced_length(frame.take(arrived)) == announced_length(frame));
    }
}

/// A frame is received in two goes: first what announces its length, then all the rest.
pub proof fn law_frame_is_received_in_two_goes(body: Seq<u8>, maximum: nat)
    requires
        fits(body.len(), maximum),
        body.len() > 0,
    ensures
        frame_progress(Seq::empty(), maximum) == (FrameProgressView::Receive {
            count: length_prefix(body.len()).len(),
        }),
        frame_progress(length_prefix(body.len()), maximum) == (FrameProgressView::Receive {
            count: body.len(),
        }),
        frame_progress(length_prefix(body.len()) + body, maximum)
            == (FrameProgressView::Complete { size: (length_prefix(body.len()) + body).len() }),
{
    law_announced_length_is_read_back(body.len(), Seq::empty());
    assert(length_prefix(body.len()) + Seq::<u8>::empty() == length_prefix(body.len()));
    law_frame_is_taken_whole(body, Seq::empty(), maximum);
    assert(length_prefix(body.len()) + body + Seq::<u8>::empty() == length_prefix(body.len())
        + body);
}

/// What has been decided of a frame does not depend on what arrives later.
pub proof fn law_verdict_is_final(received: Seq<u8>, later: Seq<u8>, maximum: nat)
    requires
        frame_progress(received, maximum) !is Receive,
    ensures
        frame_progress(received + later, maximum) == frame_progress(received, maximum),
{
    assert(announced_length(received + later) == announced_length(received));
}

/// No more bytes are ever asked for than announce a length and than the limit allows.
pub proof fn law_received_bytes_are_limited(received: Seq<u8>, maximum: nat)
    ensures
        frame_progress(received, maximum) matches FrameProgressView::Receive { count }
            ==> received.len() + count <= PREFIX_BYTES + maximum,
{
}

/// A question that was written comes back when it is read; it is never read as an answer.
pub proof fn law_request_comes_back<Q, R>(
    codec: &IntrospectionFrameCodec,
    request: Q,
    body: FrameBody<Q, R>,
    rendering: String,
    as_request: Result<Q, Error>,
    as_reply: Result<R, Error>,
)
    requires
        call_ensures(IntrospectionFrameCodec::write_request::<Q, R>, (codec, request), body),
        call_ensures(
            IntrospectionFrameCodec::read_request::<Q, R>,
            (codec, IncomingFrame { body, rendering }),
            as_request,
        ),
        call_ensures(
            IntrospectionFrameCodec::read_reply::<Q, R>,
            (codec, IncomingFrame { body, rendering }),
            as_reply,
        ),
    ensures
        as_request == Ok::<Q, Error>(request),
        as_reply == Err::<R, Error>(Error::UnexpectedSignalFrame { got: rendering }),
{
}

/// An answer that was written comes back when it is read; it is never read as a question.
pub proof fn law_reply_comes_back<Q, R>(
    codec: &IntrospectionFrameCodec,
    reply: R,
    body: FrameBody<Q, R>,
    rendering: String,
    as_request: Result<Q, Error>,
    as_reply: Result<R, Error>,
)
    requires
        call_ensures(IntrospectionFrameCodec::write_reply::<Q, R>, (codec, reply), body),
        call_ensures(
            IntrospectionFrameCodec::read_request::<Q, R>,
            (codec, IncomingFrame { body, rendering }),
            as_request,
        ),
        call_ensures(
            IntrospectionFrameCodec::read_reply::<Q, R>,
            (codec, IncomingFrame { body, rendering }),
            as_reply,
        ),
    ensures
        as_reply == Ok::<R, Error>(reply),
        as_request == Err::<Q, Error>(Error::UnexpectedSignalFrame { got: rendering }),
{
}

/// How many bytes of a stream a reading takes of which some have arrived, if it receives what it
/// needs and nothing else: those of one frame. There are none where the stream ends too early or
/// the frame is too long.
pub open spec fn bytes_taken(stream: Seq<u8>, arrived: nat, maximum: nat) -> Option<nat>
    decreases stream.len() - arrived,
{
    match frame_progress(stream.take(arrived as int), maximum) {
        FrameProgressView::Receive { count } => if 0 < count && arrived + count <= stream.len() {
            bytes_taken(stream, arrived + count, maximum)
        } else {
            None
        },
        FrameProgressView::Complete { .. } => Some(arrived),
        FrameProgressView::TooLong { .. } => None,
    }
}

/// A reading takes one frame of a stream or nothing: a frame if its length is announced in full, is
/// within the limit, and that many bytes follow; nothing of a stream that ends too early or
/// announces too much.
pub proof fn law_reading_takes_one_frame_or_nothing(stream: Seq<u8>, maximum: nat)
    ensures
        bytes_taken(stream, 0, maximum) == (if stream.len() >= PREFIX_BYTES && announced_length(
            stream,
        ) <= maximum && stream.len() >= PREFIX_BYTES + announced_length(stream) {
            Some((PREFIX_BYTES + announced_length(stream)) as nat)
        } else {
            None
        }),
{
    reveal_with_fuel(bytes_taken, 4);
    assert(stream.take(0).len() == 0);
    if stream.len() >= PREFIX_BYTES {
        let size = PREFIX_BYTES + announced_length(stream);
        assert(announced_length(stream.take(PREFIX_BYTES as int)) == announced_length(stream));
        if stream.len() >= size {
            assert(announced_length(stream.take(size)) == announced_length(stream));
        }
    }
}

/// Frames that are written one after the other are read back one after the other, and then the
/// stream is exhausted: each reading takes its own frame, and not one byte of the next. This holds
/// of every encoding that puts the length of what follows before it, and that its decoding undoes.
pub proof fn law_consecutive_frames_come_back<F>(
    encode: spec_fn(F) -> Seq<u8>,
    decode: spec_fn(Seq<u8>) -> Option<F>,
    first: F,
    second: F,
    first_body: Seq<u8>,
    second_body: Seq<u8>,
    maximum: nat,
)
    requires
        encode(first) == length_prefix(first_body.len()) + first_body,
        encode(second) == length_prefix(second_body.len()) + second_body,
        decode(encode(first)) == Some(first),
        decode(encode(second)) == Some(second),
        fits(first_body.len(), maximum),
        fits(second_body.len(), maximum),
    ensures
        ({
            let stream = encode(first) + encode(second);
            let taken = bytes_taken(stream, 0, maximum);
            let rest = stream.skip(taken->0 as int);
            let taken_next = bytes_taken(rest, 0, maximum);
            &&& taken is Some && decode(stream.take(taken->0 as int)) == Some(first)
            &&& taken_next is Some && decode(rest.take(taken_next->0 as int)) == Some(second)
            &&& rest.skip(taken_next->0 as int).len() == 0
        }),
{
    let stream = encode(first) + encode(second);
    assert(stream == length_prefix(first_body.len()) + (first_body + encode(second)));
    law_announced_length_is_read_back(first_body.len(), first_body + encode(second));
    law_reading_takes_one_frame_or_nothing(stream, maximum);
    assert(stream.take(encode(first).len() as int) == encode(first));
    let rest = stream.skip(encode(first).len() as int);
    assert(rest == encode(second));
    law_announced_length_is_read_back(second_body.len(), second_body);
    law_reading_takes_one_frame_or_nothing(rest, maximum);
    assert(rest.take(encode(second).len() as int) == encode(second));
}

/// What is to be done about a frame goes by its first four bytes, which are a number with the most
/// significant byte first, and by the limit that the codec was made with. Before they have arrived,
/// the rest of them is needed. If the number is over the limit, the frame is turned down with a
/// text that names both. Otherwise as many bytes belong to the frame as the number says, behind
/// the four, and no others.
pub proof fn law_frame_goes_by_its_first_bytes(
    maximum: usize,
    codec: IntrospectionFrameCodec,
    received: &Vec<u8>,
    length: nat,
    progress: FrameProgress,
)
    requires
        call_ensures(IntrospectionFrameCodec::new, (maximum,), codec),
        call_ensures(IntrospectionFrameCodec::read_frame, (&codec, received), progress),
        received@.len() >= 4 ==> {
            &&& length < 0x1_0000_0000
            &&& received@[0] == length / 0x100_0000
            &&& received@[1] == length / 0x1_0000 % 0x100
            &&& received@[2] == length / 0x100 % 0x100
            &&& received@[3] == length % 0x100
        },
    ensures
        received@.len() < 4 ==> {
            progress matches FrameProgress::Receive { count } && received@.len() + count == 4
        },
        received@.len() >= 4 && length > maximum ==> {
            &&& progress matches FrameProgress::Rejected {
                error: Error::UnexpectedSignalFrame { got },
            }
            &&& got@ == "frame length "@ + decimal(length) + " exceeds "@ + decimal(
                maximum as nat,
            )
        },
        received@.len() >= 4 && length <= maximum && received@.len() < 4 + length ==> {
            progress matches FrameProgress::Receive { count } && received@.len() + count == 4
                + length
        },
        received@.len() >= 4 && length <= maximum && received@.len() >= 4 + length ==> {
            progress matches FrameProgress::Complete { size } && size == 4 + length
        },
{
    if received@.len() >= 4 {
        let upper = length / 0x100;
        let uppermost = upper / 0x100;
        assert(length / 0x1_0000 == uppermost);
        assert(length / 0x100_0000 == uppermost / 0x100);
        assert(announced_length(received@) == length);
    }
}

/// Without another limit, frames of a mebibyte are taken and no longer ones.
pub proof fn law_default_limit_is_a_mebibyte(
    default: IntrospectionFrameCodec,
    made: IntrospectionFrameCodec,
)
    requires
        call_ensures(<IntrospectionFrameCodec as Default>::default, (), default),
        call_ensures(IntrospectionFrameCodec::new, (1048576usize,), made),
    ensures
        default == made,
{
}

/// A frame is taken for what it carries: as a question only if it carries one, and then that very
/// one; as an answer only if it carries one, and then that very one. Of any other the error shows
/// what it carries.
pub proof fn law_frame_is_taken_for_what_it_carries<Q, R>(
    codec: &IntrospectionFrameCodec,
    frame: IncomingFrame<Q, R>,
    as_request: Result<Q, Error>,
    as_reply: Result<R, Error>,
)
    requires
        call_ensures(IntrospectionFrameCodec::read_request::<Q, R>, (codec, frame), as_request),
        call_ensures(IntrospectionFrameCodec::read_reply::<Q, R>, (codec, frame), as_reply),
    ensures
        match frame.body {
            FrameBody::RequestOperation(request) => {
                &&& as_request matches Ok(given) && given == request
                &&& as_reply matches Err(Error::UnexpectedSignalFrame { got }) && got
                    == frame.rendering
            },
            FrameBody::ReplyOperation(reply) => {
                &&& as_reply matches Ok(given) && given == reply
                &&& as_request matches Err(Error::UnexpectedSignalFrame { got }) && got
                    == frame.rendering
            },
            FrameBody::Other => {
                &&& as_request matches Err(Error::UnexpectedSignalFrame { got }) && got
                    == frame.rendering
                &&& as_reply matches Err(Error::UnexpectedSignalFrame { got }) && got
                    == frame.rendering
            },
        },
{
}

} // verus!
