use quinn_holepunch::addr::SocketAddr;
use quinn_holepunch::message::{Message, MessageError};
use quinn_holepunch::server::{introduce, Registry, RequestError, Response};
use quinn_holepunch::PeerId;

fn addr(last: u8) -> SocketAddr {
    SocketAddr::V4 { ip: [203, 0, 113, last], port: 1000 + last as u16 }
}

fn listen(registry: &mut Registry<u64>, conn: u64, name: &str) {
    let response = registry.on_message(conn, addr(1), Message::Listen(PeerId::from(name)));
    match response {
        Ok(Response::Reply(reply)) => assert_eq!(reply.as_accepted(), Ok(addr(1))),
        other => panic!("{:?}", other),
    }
}

fn ask(registry: &mut Registry<u64>, name: &str) -> Option<u64> {
    let request = Message::ConnectRequest(PeerId::from(name)).encode().unwrap();
    match registry.on_request(99, addr(2), &request) {
        Ok(Response::Introduce { peer, requester }) => {
            assert_eq!(requester, addr(2));
            Some(peer)
        }
        Ok(Response::Reply(reply)) => {
            assert_eq!(reply.as_connect_reply(), Ok(None));
            None
        }
        Err(err) => panic!("{:?}", err),
    }
}

#[test]
fn unknown_name_is_not_found() {
    let mut registry = Registry::new();
    assert_eq!(ask(&mut registry, "foo"), None);
    listen(&mut registry, 7, "bar");
    assert_eq!(ask(&mut registry, "foo"), None);
}

#[test]
fn listener_is_found() {
    let mut registry = Registry::new();
    listen(&mut registry, 7, "foo");
    listen(&mut registry, 8, "bar");
    assert_eq!(ask(&mut registry, "foo"), Some(7));
    assert_eq!(ask(&mut registry, "bar"), Some(8));
    assert_eq!(ask(&mut registry, "foo"), Some(7));
}

#[test]
fn last_listener_owns_the_name() {
    let mut registry = Registry::new();
    listen(&mut registry, 7, "foo");
    listen(&mut registry, 8, "foo");
    assert_eq!(ask(&mut registry, "foo"), Some(8));
    listen(&mut registry, 7, "foo");
    assert_eq!(ask(&mut registry, "foo"), Some(7));
}

#[test]
fn one_client_may_take_several_names() {
    let mut registry = Registry::new();
    listen(&mut registry, 7, "foo");
    listen(&mut registry, 7, "bar");
    assert_eq!(ask(&mut registry, "foo"), Some(7));
    assert_eq!(ask(&mut registry, "bar"), Some(7));
}

#[test]
fn answers_of_the_server_are_refused() {
    let mut registry: Registry<u64> = Registry::new();
    listen(&mut registry, 7, "foo");

    let err = registry.on_message(9, addr(3), Message::Accepted(addr(4))).unwrap_err();
    assert!(matches!(err, RequestError::ReceivedAccepted));
    assert_eq!(err.text(), Some("Received invalid message: Accepted"));

    let err = registry.on_message(9, addr(3), Message::Incoming(addr(4))).unwrap_err();
    assert!(matches!(err, RequestError::ReceivedIncoming));
    assert_eq!(err.text(), Some("Received invalid message: Accepted"));

    let err = registry.on_message(9, addr(3), Message::ConnectReply(None)).unwrap_err();
    assert!(matches!(err, RequestError::ReceivedConnectReply));
    assert_eq!(err.text(), Some("Received invalid message: ConnectReply"));

    assert_eq!(ask(&mut registry, "foo"), Some(7));
}

#[test]
fn requests_that_are_no_messages_are_refused() {
    let mut registry: Registry<u64> = Registry::new();
    let err = registry.on_request(9, addr(3), &[]).unwrap_err();
    assert!(matches!(err, RequestError::Message(MessageError::Codec(_))));
    assert_eq!(err.text(), None);
    let err = registry.on_request(9, addr(3), &[6]).unwrap_err();
    assert!(matches!(err, RequestError::Message(MessageError::UnknownMessage(6))));
    let err = registry.on_request(9, addr(3), &[0; 1025]).unwrap_err();
    assert!(matches!(err, RequestError::Message(MessageError::TooLong)));
}

#[test]
fn both_sides_learn_the_other_address() {
    let introduction = introduce(addr(1), addr(2));
    assert_eq!(introduction.reply.as_connect_reply(), Ok(Some(addr(2))));
    assert_eq!(introduction.knock.as_incoming(), Ok(addr(1)));
}
