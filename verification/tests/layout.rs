use quinn_holepunch::addr::SocketAddr;
use quinn_holepunch::message::Message;
use quinn_holepunch::PeerId;

const IP6: [u8; 16] = [0xfe, 0x80, 0, 0, 0, 0, 0, 0, 0, 1, 0, 2, 0, 3, 0xab, 0xcd];

fn v4() -> SocketAddr {
    SocketAddr::V4 { ip: [10, 0, 0, 7], port: 22022 }
}

fn v6() -> SocketAddr {
    SocketAddr::V6 { ip: IP6, port: 443, flowinfo: 7, scope_id: 3 }
}

#[test]
fn addresses_are_an_index_an_ip_and_a_port() {
    assert_eq!(
        Message::Accepted(v4()).encode().unwrap(),
        postcard::to_stdvec(&(1u32, 0u32, [10u8, 0, 0, 7], 22022u16)).unwrap()
    );
    assert_eq!(
        Message::Incoming(v6()).encode().unwrap(),
        postcard::to_stdvec(&(2u32, 1u32, IP6, 443u16)).unwrap()
    );
    assert_eq!(
        Message::ConnectReply(Some(v6())).encode().unwrap(),
        postcard::to_stdvec(&(4u32, Some((1u32, IP6, 443u16)))).unwrap()
    );
}

#[test]
fn names_are_laid_out_like_strings() {
    let name = "a name".to_string();
    assert_eq!(
        Message::Listen(PeerId::from(name.clone())).encode().unwrap(),
        postcard::to_stdvec(&(0u32, name.clone())).unwrap()
    );
    assert_eq!(
        Message::ConnectRequest(PeerId::from(name.clone())).encode().unwrap(),
        postcard::to_stdvec(&(3u32, name)).unwrap()
    );
}

#[test]
fn addresses_are_read_without_a_scope() {
    let bytes = postcard::to_stdvec(&(1u32, 1u32, IP6, 443u16)).unwrap();
    assert_eq!(
        Message::recv(&bytes).unwrap().as_accepted(),
        Ok(SocketAddr::V6 { ip: IP6, port: 443, flowinfo: 0, scope_id: 0 })
    );
}
