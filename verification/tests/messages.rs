use quinn_holepunch::addr::SocketAddr;
use quinn_holepunch::message::{InvalidMessage, Message, MessageError, MAX_STREAM_LEN};
use quinn_holepunch::PeerId;

fn v4() -> SocketAddr {
    SocketAddr::V4 { ip: [192, 168, 7, 1], port: 3033 }
}

fn v6(flowinfo: u32, scope_id: u32) -> SocketAddr {
    SocketAddr::V6 {
        ip: [0x20, 1, 0xd, 0xb8, 0, 0, 0, 0, 0, 0, 0, 0, 0, 0, 0, 9],
        port: 65535,
        flowinfo,
        scope_id,
    }
}

fn recv(bytes: &[u8]) -> Message {
    Message::recv(bytes).expect("a message")
}

fn round_trip(message: &Message) -> Message {
    recv(&message.encode().expect("bytes"))
}

#[test]
fn listen_bytes() {
    let message = Message::Listen(PeerId::from("foo"));
    assert_eq!(message.encode().unwrap(), vec![0, 3, b'f', b'o', b'o']);
}

#[test]
fn accepted_bytes() {
    let message = Message::Accepted(v4());
    assert_eq!(message.encode().unwrap(), vec![1, 0, 192, 168, 7, 1, 0xd9, 0x17]);
}

#[test]
fn incoming_bytes_leave_the_scope_out() {
    let expected = vec![
        2, 1, 0x20, 1, 0xd, 0xb8, 0, 0, 0, 0, 0, 0, 0, 0, 0, 0, 0, 9, 0xff, 0xff, 3,
    ];
    assert_eq!(Message::Incoming(v6(0, 0)).encode().unwrap(), expected);
    assert_eq!(Message::Incoming(v6(5, 6)).encode().unwrap(), expected);
}

#[test]
fn connect_request_bytes() {
    let message = Message::ConnectRequest(PeerId::from("\u{e9}"));
    assert_eq!(message.encode().unwrap(), vec![3, 2, 0xc3, 0xa9]);
}

#[test]
fn connect_reply_bytes() {
    assert_eq!(Message::ConnectReply(None).encode().unwrap(), vec![4, 0]);
    assert_eq!(
        Message::ConnectReply(Some(v4())).encode().unwrap(),
        vec![4, 1, 0, 192, 168, 7, 1, 0xd9, 0x17]
    );
}

#[test]
fn messages_with_names_come_back() {
    for name in ["", "foo", "\u{1f600} smile", &"x".repeat(200)] {
        match round_trip(&Message::Listen(PeerId::from(name))) {
            Message::Listen(id) => assert_eq!(id.as_str(), name),
            other => panic!("{:?}", other),
        }
        match round_trip(&Message::ConnectRequest(PeerId::from(name))) {
            Message::ConnectRequest(id) => assert_eq!(id.to_string(), name),
            other => panic!("{:?}", other),
        }
    }
}

#[test]
fn messages_with_addresses_come_back() {
    for addr in [v4(), v6(0, 0), SocketAddr::V4 { ip: [0, 0, 0, 0], port: 0 }] {
        assert_eq!(round_trip(&Message::Accepted(addr)).as_accepted(), Ok(addr));
        assert_eq!(round_trip(&Message::Incoming(addr)).as_incoming(), Ok(addr));
        let reply = round_trip(&Message::ConnectReply(Some(addr)));
        assert_eq!(reply.as_connect_reply(), Ok(Some(addr)));
    }
    assert_eq!(round_trip(&Message::ConnectReply(None)).as_connect_reply(), Ok(None));
}

#[test]
fn scope_does_not_travel() {
    assert_eq!(round_trip(&Message::Accepted(v6(1, 2))).as_accepted(), Ok(v6(0, 0)));
}

#[test]
fn bytes_behind_a_message_are_ignored() {
    assert_eq!(recv(&[4, 0, 9, 9, 9]).as_connect_reply(), Ok(None));
}

#[test]
fn padded_numbers_are_read() {
    match recv(&[0x80, 0x00, 0x83, 0x80, 0x00, b'f', b'o', b'o']) {
        Message::Listen(id) => assert_eq!(id.as_str(), "foo"),
        other => panic!("{:?}", other),
    }
}

#[test]
fn malformed_bytes_are_refused() {
    let malformed: [&[u8]; 9] = [
        &[],
        &[0],
        &[0, 4, b'f', b'o', b'o'],
        &[0, 1, 0xff],
        &[1, 2, 0, 0, 0, 0, 0],
        &[1, 0, 192, 168, 7],
        &[1, 0, 192, 168, 7, 1, 0xff, 0xff, 4],
        &[4, 2],
        &[0x80, 0x80, 0x80, 0x80, 0x10],
    ];
    for bytes in malformed {
        assert!(matches!(Message::recv(bytes), Err(MessageError::Codec(_))), "{:?}", bytes);
    }
}

#[test]
fn unknown_index_is_refused() {
    assert!(matches!(Message::recv(&[5, 0]), Err(MessageError::UnknownMessage(5))));
    assert!(matches!(
        Message::recv(&[0xff, 0xff, 0xff, 0xff, 0x0f]),
        Err(MessageError::UnknownMessage(u32::MAX))
    ));
}

#[test]
fn limit_of_a_stream() {
    assert_eq!(MAX_STREAM_LEN, 1024);
    let longest = Message::Listen(PeerId::from("y".repeat(1021)));
    let bytes = longest.encode().unwrap();
    assert_eq!(bytes.len(), 1024);
    match recv(&bytes) {
        Message::Listen(id) => assert_eq!(id.as_str().len(), 1021),
        other => panic!("{:?}", other),
    }
    let too_long = Message::Listen(PeerId::from("y".repeat(1022)));
    assert!(matches!(
        Message::recv(&too_long.encode().unwrap()),
        Err(MessageError::TooLong)
    ));
}

#[test]
fn other_kinds_are_invalid() {
    let listen = || Message::Listen(PeerId::from("foo"));
    assert_eq!(listen().as_accepted(), Err(InvalidMessage));
    assert_eq!(listen().as_incoming(), Err(InvalidMessage));
    assert_eq!(listen().as_connect_reply(), Err(InvalidMessage));
    assert_eq!(Message::Incoming(v4()).as_accepted(), Err(InvalidMessage));
    assert_eq!(Message::Accepted(v4()).as_incoming(), Err(InvalidMessage));
    assert_eq!(Message::Accepted(v4()).as_connect_reply(), Err(InvalidMessage));
    assert_eq!(InvalidMessage.text(), "Invalid message");
}

#[test]
fn addresses_compare_by_every_part() {
    assert_eq!(v4(), v4());
    assert_ne!(v4(), SocketAddr::V4 { ip: [192, 168, 7, 2], port: 3033 });
    assert_ne!(v4(), SocketAddr::V4 { ip: [192, 168, 7, 1], port: 3034 });
    assert_ne!(v4(), v6(0, 0));
    assert_ne!(v6(0, 0), v6(1, 0));
    assert_ne!(v6(0, 0), v6(0, 1));
}

#[test]
fn peer_ids() {
    let id = PeerId::from("foo");
    assert_eq!(id, PeerId::from(String::from("foo")));
    assert_eq!(id, id.clone());
    assert_ne!(id, PeerId::from("bar"));
    assert_eq!(id.to_string(), "foo");
    assert_eq!(id.into_string(), "foo");
}
