use quinn_holepunch::addr::SocketAddr;
use quinn_holepunch::message::{InvalidMessage, Message, MessageError};
use quinn_holepunch::punch::{on_announce_reply, AnnounceAction};
use quinn_holepunch::rendevouz::{
    connect_target, resolve_reply, resolve_request, AnnounceReply, AnnounceState, Announcer,
    ConnectError, ProtocolError,
};
use quinn_holepunch::server::{introduce, Registry, Response};
use quinn_holepunch::PeerId;

fn addr(last: u8) -> SocketAddr {
    SocketAddr::V4 { ip: [198, 51, 100, last], port: 40000 + last as u16 }
}

fn announced() -> Announcer {
    let (announcer, message) = Announcer::start(PeerId::from("foo"));
    match message {
        Message::Listen(id) => assert_eq!(id.as_str(), "foo"),
        other => panic!("{:?}", other),
    }
    assert_eq!(announcer.state(), AnnounceState::Announced);
    announcer
}

fn listening() -> Announcer {
    let mut announcer = announced();
    let accepted = Message::Accepted(addr(1)).encode().unwrap();
    match announcer.on_stream(&accepted) {
        Ok(AnnounceReply::GlobalAddress(global)) => assert_eq!(global, addr(1)),
        other => panic!("{:?}", other),
    }
    assert_eq!(announcer.state(), AnnounceState::Listening);
    announcer
}

#[test]
fn address_then_knocks() {
    let mut announcer = listening();
    for last in [5, 6, 5] {
        let incoming = Message::Incoming(addr(last)).encode().unwrap();
        match announcer.on_stream(&incoming) {
            Ok(AnnounceReply::Knock(knock)) => {
                assert_eq!(knock.addr, addr(last));
                assert_eq!(knock.peer_id, None);
            }
            other => panic!("{:?}", other),
        }
        assert_eq!(announcer.state(), AnnounceState::Listening);
    }
}

#[test]
fn wrong_answer_ends_the_announcement() {
    let mut announcer = announced();
    let incoming = Message::Incoming(addr(5)).encode().unwrap();
    let err = announcer.on_stream(&incoming).unwrap_err();
    assert!(matches!(err, ProtocolError::Invalid(InvalidMessage)));
    assert_eq!(announcer.state(), AnnounceState::Ended);

    let mut announcer = listening();
    let accepted = Message::Accepted(addr(1)).encode().unwrap();
    let err = announcer.on_stream(&accepted).unwrap_err();
    assert!(matches!(err, ProtocolError::Invalid(InvalidMessage)));
    assert_eq!(announcer.state(), AnnounceState::Ended);
}

#[test]
fn garbage_ends_the_announcement() {
    let mut announcer = listening();
    let err = announcer.on_stream(&[2, 9]).unwrap_err();
    assert!(matches!(err, ProtocolError::Message(MessageError::Codec(_))));
    assert_eq!(announcer.state(), AnnounceState::Ended);
}

#[test]
fn asking_for_a_peer() {
    match resolve_request(PeerId::from("foo")) {
        Message::ConnectRequest(id) => assert_eq!(id.as_str(), "foo"),
        other => panic!("{:?}", other),
    }
    let found = Message::ConnectReply(Some(addr(9))).encode().unwrap();
    assert_eq!(resolve_reply(&found).unwrap(), Some(addr(9)));
    let missing = Message::ConnectReply(None).encode().unwrap();
    assert_eq!(resolve_reply(&missing).unwrap(), None);
    let wrong = Message::Accepted(addr(9)).encode().unwrap();
    assert!(matches!(resolve_reply(&wrong), Err(ProtocolError::Invalid(InvalidMessage))));
    assert!(matches!(
        resolve_reply(&[7]),
        Err(ProtocolError::Message(MessageError::UnknownMessage(7)))
    ));
}

#[test]
fn where_to_connect() {
    assert_eq!(connect_target::<u8>(Ok(Some(addr(3)))), Ok(addr(3)));
    let missing = connect_target::<u8>(Ok(None)).unwrap_err();
    assert_eq!(missing, ConnectError::PeerNotFound);
    assert_eq!(missing.text(), Some("Peer not found"));
    let failed = connect_target(Err(4u8)).unwrap_err();
    assert_eq!(failed, ConnectError::Unresolved(4));
    assert_eq!(failed.text(), None);
}

#[test]
fn news_and_actions() {
    match on_announce_reply(&AnnounceReply::GlobalAddress(addr(1))) {
        AnnounceAction::NoteAddress(noted) => assert_eq!(noted, addr(1)),
        other => panic!("{:?}", other),
    }
}

#[test]
fn two_clients_meet_through_the_server() {
    let listener_addr = addr(1);
    let requester_addr = addr(2);
    let mut registry: Registry<&str> = Registry::new();

    let (mut announcer, listen) = Announcer::start(PeerId::from("foo"));
    let accepted =
        match registry.on_request("listener", listener_addr, &listen.encode().unwrap()) {
            Ok(Response::Reply(reply)) => reply.encode().unwrap(),
            other => panic!("{:?}", other),
        };
    match announcer.on_stream(&accepted) {
        Ok(AnnounceReply::GlobalAddress(global)) => assert_eq!(global, listener_addr),
        other => panic!("{:?}", other),
    }

    let request = resolve_request(PeerId::from("foo")).encode().unwrap();
    let introduction = match registry.on_request("requester", requester_addr, &request) {
        Ok(Response::Introduce { peer, requester }) => {
            assert_eq!(peer, "listener");
            introduce(requester, listener_addr)
        }
        other => panic!("{:?}", other),
    };

    let answer = resolve_reply(&introduction.reply.encode().unwrap());
    assert_eq!(connect_target(answer.map_err(|_| ())), Ok(listener_addr));

    match announcer.on_stream(&introduction.knock.encode().unwrap()) {
        Ok(reply) => match on_announce_reply(&reply) {
            AnnounceAction::Punch(puncher) => assert_eq!(puncher.dest(), requester_addr),
            other => panic!("{:?}", other),
        },
        other => panic!("{:?}", other),
    }
}
