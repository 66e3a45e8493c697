use std::path::PathBuf;

use persona_introspect::client::IntrospectionSignalClient;
use persona_introspect::codec::{
    FrameBody, FrameProgress, IncomingFrame, IntrospectionFrameCodec,
};
use persona_introspect::error::Error;
use persona_introspect::serving::IntrospectionConnection;

fn rejection(codec: &IntrospectionFrameCodec, received: &[u8]) -> String {
    match codec.read_frame(&received.to_vec()) {
        FrameProgress::Rejected {
            error: Error::UnexpectedSignalFrame { got },
        } => got,
        other => panic!("expected a rejection, got {other:?}"),
    }
}

fn needed(codec: &IntrospectionFrameCodec, received: &[u8]) -> usize {
    match codec.read_frame(&received.to_vec()) {
        FrameProgress::Receive { count } => count,
        other => panic!("expected to receive more, got {other:?}"),
    }
}

fn size(codec: &IntrospectionFrameCodec, received: &[u8]) -> usize {
    match codec.read_frame(&received.to_vec()) {
        FrameProgress::Complete { size } => size,
        other => panic!("expected a frame, got {other:?}"),
    }
}

#[test]
fn frame_is_received_in_two_goes() {
    let codec = IntrospectionFrameCodec::new(1024);
    assert_eq!(needed(&codec, &[]), 4);
    assert_eq!(needed(&codec, &[0, 0]), 2);
    assert_eq!(needed(&codec, &[0, 0, 1, 2]), 258);
    assert_eq!(needed(&codec, &[0, 0, 0, 3, 7]), 2);
    assert_eq!(size(&codec, &[0, 0, 0, 3, 7, 8, 9]), 7);
    assert_eq!(size(&codec, &[0, 0, 0, 0]), 4);
}

#[test]
fn bytes_behind_a_frame_are_left_alone() {
    let codec = IntrospectionFrameCodec::new(1024);
    assert_eq!(size(&codec, &[0, 0, 0, 1, 7, 8, 9]), 5);
}

/// Receives what a reading asks for, and nothing else.
fn read_from(codec: &IntrospectionFrameCodec, stream: &[u8]) -> usize {
    let mut received = Vec::new();
    loop {
        match codec.read_frame(&received) {
            FrameProgress::Receive { count } => {
                let arrived = received.len();
                received.extend_from_slice(&stream[arrived..arrived + count]);
            }
            FrameProgress::Complete { size } => {
                assert_eq!(received.len(), size);
                return size;
            }
            FrameProgress::Rejected { error } => panic!("expected a frame, got {error:?}"),
        }
    }
}

#[test]
fn consecutive_frames_are_read_one_by_one() {
    let codec = IntrospectionFrameCodec::new(1024);
    let stream = [0, 0, 0, 3, 7, 8, 9, 0, 0, 0, 0, 0, 0, 0, 1, 5];
    let first = read_from(&codec, &stream);
    assert_eq!(stream[..first], [0, 0, 0, 3, 7, 8, 9]);
    let rest = &stream[first..];
    let second = read_from(&codec, rest);
    assert_eq!(rest[..second], [0, 0, 0, 0]);
    let rest = &rest[second..];
    let third = read_from(&codec, rest);
    assert_eq!(rest[..third], [0, 0, 0, 1, 5]);
    assert!(rest[third..].is_empty());
}

#[test]
fn nothing_is_taken_of_a_stream_that_is_cut_short() {
    let codec = IntrospectionFrameCodec::new(1024);
    let stream = [0, 0, 0, 3, 7, 8, 9];
    for arrived in 0..stream.len() {
        assert!(arrived + needed(&codec, &stream[..arrived]) <= stream.len());
    }
    assert_eq!(needed(&codec, &stream[..3]), 1);
    assert_eq!(needed(&codec, &stream[..6]), 1);
    assert_eq!(read_from(&codec, &stream), 7);
}

#[test]
fn frame_that_is_too_long_is_rejected() {
    let codec = IntrospectionFrameCodec::new(16);
    assert_eq!(
        rejection(&codec, &[0, 0, 0, 17]),
        "frame length 17 exceeds 16"
    );
    assert_eq!(
        rejection(&codec, &[1, 2, 3, 4, 5]),
        "frame length 16909060 exceeds 16"
    );
    assert_eq!(needed(&codec, &[0, 0, 0, 16]), 16);
    assert_eq!(
        rejection(&IntrospectionFrameCodec::new(0), &[0, 0, 0, 1]),
        "frame length 1 exceeds 0"
    );
}

#[test]
fn default_limit_is_a_mebibyte() {
    let codec = IntrospectionFrameCodec::default();
    assert_eq!(codec, IntrospectionFrameCodec::new(1024 * 1024));
    assert_eq!(needed(&codec, &[0, 16, 0, 0]), 1024 * 1024);
    assert_eq!(
        rejection(&codec, &[0, 16, 0, 1]),
        "frame length 1048577 exceeds 1048576"
    );
    assert_eq!(IntrospectionConnection::accepted().signal(), codec);
}

fn frame(body: FrameBody<u8, char>) -> IncomingFrame<u8, char> {
    let rendering = format!("{body:?}");
    IncomingFrame { body, rendering }
}

fn unexpected<T: std::fmt::Debug>(result: Result<T, Error>) -> String {
    match result {
        Err(Error::UnexpectedSignalFrame { got }) => got,
        other => panic!("expected an unexpected frame, got {other:?}"),
    }
}

#[test]
fn what_was_written_is_read_back() {
    let codec = IntrospectionFrameCodec::default();
    assert_eq!(
        codec
            .read_request(frame(codec.write_request(7)))
            .expect("request"),
        7
    );
    assert_eq!(
        codec
            .read_reply(frame(codec.write_reply('r')))
            .expect("reply"),
        'r'
    );
    assert_eq!(
        unexpected(codec.read_request(frame(codec.write_reply('r')))),
        "ReplyOperation('r')"
    );
    assert_eq!(
        unexpected(codec.read_reply(frame(codec.write_request(7)))),
        "RequestOperation(7)"
    );
    assert_eq!(unexpected(codec.read_reply(frame(FrameBody::Other))), "Other");
    assert_eq!(
        unexpected(codec.read_request(frame(FrameBody::Other))),
        "Other"
    );
}

#[test]
fn failure_ends_the_asking() {
    let client = IntrospectionSignalClient::new(PathBuf::from("/run/introspect.sock"));
    let failed = || Error::IntrospectionSocketMissing;

    let (connecting, socket) = client.submit(7);
    assert_eq!(socket, PathBuf::from("/run/introspect.sock"));
    assert!(connecting.connected::<char>(Err(failed())).is_err());

    let (sending, body) = client
        .submit(7)
        .0
        .connected::<char>(Ok(()))
        .expect("client connects");
    assert_eq!(body, FrameBody::RequestOperation(7));
    assert!(sending.sent(Err(failed())).is_err());

    let receiving = || {
        client
            .submit(7)
            .0
            .connected::<char>(Ok(()))
            .expect("client connects")
            .0
            .sent(Ok(()))
            .expect("client sends")
    };
    assert_eq!(receiving().1, IntrospectionFrameCodec::default());
    assert!(receiving().0.received::<u8, char>(Err(failed())).is_err());
    assert_eq!(
        unexpected(
            receiving()
                .0
                .received(Ok(frame(FrameBody::RequestOperation(7))))
        ),
        "RequestOperation(7)"
    );
    assert_eq!(
        receiving()
            .0
            .received(Ok(frame(FrameBody::ReplyOperation('r'))))
            .expect("reply"),
        'r'
    );
}
