use quinn_holepunch::addr::SocketAddr;
use quinn_holepunch::command::{Command, Plan};
use quinn_holepunch::greeting::{greeting, read_greeting, GreetingError, Opener};
use quinn_holepunch::identity::{
    certificate_names, default_server_settings, settings_for, settings_from, MAX_CONCURRENT_UNI_STREAMS, SERVER_NAME,
};
use quinn_holepunch::random_string;
use quinn_holepunch::text::ascii_string;

fn any(port: u16) -> SocketAddr {
    SocketAddr::V4 { ip: [0, 0, 0, 0], port }
}

fn server() -> SocketAddr {
    SocketAddr::V4 { ip: [203, 0, 113, 1], port: 3033 }
}

#[test]
fn rendevouz_listens_on_its_port() {
    match (Command::Rendevouz { addr: None }).plan() {
        Plan::Serve { addr } => assert_eq!(addr, any(3033)),
        other => panic!("{:?}", other),
    }
    match (Command::Rendevouz { addr: Some(server()) }).plan() {
        Plan::Serve { addr } => assert_eq!(addr, server()),
        other => panic!("{:?}", other),
    }
}

#[test]
fn listen_under_a_name() {
    let command = Command::Listen {
        addr: None,
        rendevouz_addr: server(),
        peer_id: Some("foo".to_string()),
    };
    match command.plan() {
        Plan::Listen { bind_addr, rendevouz_addr, local_id } => {
            assert_eq!(bind_addr, any(22022));
            assert_eq!(rendevouz_addr, server());
            assert_eq!(local_id.as_str(), "foo");
        }
        other => panic!("{:?}", other),
    }
}

#[test]
fn listen_without_a_name() {
    let command = || Command::Listen {
        addr: Some(any(5)),
        rendevouz_addr: server(),
        peer_id: None,
    };
    match command().plan_with("made up".to_string()) {
        Plan::Listen { bind_addr, local_id, .. } => {
            assert_eq!(bind_addr, any(5));
            assert_eq!(local_id.as_str(), "made up");
        }
        other => panic!("{:?}", other),
    }
    match command().plan() {
        Plan::Listen { local_id, .. } => assert_eq!(local_id.as_str().len(), 30),
        other => panic!("{:?}", other),
    }
}

#[test]
fn connect_to_a_name() {
    let command =
        Command::ConnectRendevouz { rendevouz_addr: server(), peer_id: "foo".to_string() };
    match command.plan_with("me".to_string()) {
        Plan::ConnectRendevouz { bind_addr, rendevouz_addr, local_id, peer_id } => {
            assert_eq!(bind_addr, any(0));
            assert_eq!(rendevouz_addr, server());
            assert_eq!(local_id.as_str(), "me");
            assert_eq!(peer_id.as_str(), "foo");
        }
        other => panic!("{:?}", other),
    }
}

#[test]
fn connect_to_an_address() {
    match (Command::ConnectDirect { addr: server() }).plan() {
        Plan::ConnectDirect { addr } => assert_eq!(addr, server()),
        other => panic!("{:?}", other),
    }
}

#[test]
fn random_strings() {
    let one = random_string();
    let other = random_string();
    for text in [&one, &other] {
        assert_eq!(text.len(), 30);
        assert!(text.chars().all(|c| c.is_ascii_alphanumeric()));
    }
    assert_ne!(one, other);
}

#[test]
fn ascii_bytes_become_text() {
    assert_eq!(ascii_string(vec![b'a', b'Z', b'0', 0x7f]), "aZ0\u{7f}");
    assert_eq!(ascii_string(vec![]), "");
}

#[test]
fn greetings() {
    assert_eq!(
        greeting("server", Opener::Remote, "None", "127.0.0.1:9"),
        "Hello! server speaking on accept_bi from None to 127.0.0.1:9"
    );
    assert_eq!(
        greeting("client", Opener::Local, "Some(::1)", "[::1]:9"),
        "Hello! client speaking on open_bi from Some(::1) to [::1]:9"
    );
}

#[test]
fn greetings_are_read() {
    let text = greeting("\u{e9}", Opener::Local, "None", "x");
    assert_eq!(read_greeting(text.clone().into_bytes()).unwrap(), text);
    assert_eq!(read_greeting(vec![b'x'; 1024]).unwrap().len(), 1024);
    assert!(matches!(read_greeting(vec![b'x'; 1025]), Err(GreetingError::TooLong)));
    assert!(matches!(read_greeting(vec![0xff]), Err(GreetingError::NotText(_))));
}

#[test]
fn settings_present_one_certificate() {
    let (settings, certificate) = settings_for(vec![1, 2, 3], vec![4, 5]);
    assert_eq!(settings.cert_chain, vec![vec![1, 2, 3]]);
    assert_eq!(settings.private_key, vec![4, 5]);
    assert_eq!(settings.max_concurrent_uni_streams, 0);
    assert_eq!(certificate, vec![1, 2, 3]);
}

#[test]
fn certificates_are_for_one_name() {
    assert_eq!(SERVER_NAME, "localhost");
    assert_eq!(certificate_names(), vec!["localhost".to_string()]);
}

#[test]
fn settings_follow_what_was_made() {
    let (settings, certificate) = settings_from(Ok((vec![1, 2, 3], vec![4, 5]))).unwrap();
    assert_eq!(settings.cert_chain, vec![vec![1, 2, 3]]);
    assert_eq!(settings.private_key, vec![4, 5]);
    assert_eq!(settings.max_concurrent_uni_streams, 0);
    assert_eq!(certificate, vec![1, 2, 3]);
    assert_eq!(
        settings_from(Err(rcgen::RcgenError::RingUnspecified)).unwrap_err(),
        rcgen::RcgenError::RingUnspecified
    );
}

#[test]
fn default_settings_name_the_server() {
    let (settings, certificate) = default_server_settings().expect("a certificate");
    assert_eq!(settings.cert_chain, vec![certificate.clone()]);
    assert_eq!(settings.max_concurrent_uni_streams, MAX_CONCURRENT_UNI_STREAMS);
    let mut names = vec![0x06, 0x03, 0x55, 0x1d, 0x11, 0x04, 13, 0x30, 11, 0x82, 9];
    names.extend_from_slice(b"localhost");
    assert!(certificate.windows(names.len()).any(|part| part == names));
    let key = &settings.private_key;
    let public_key = &key[key.len() - 65..];
    assert!(certificate.windows(65).any(|part| part == public_key));
    let (_, other) = default_server_settings().expect("a certificate");
    assert_ne!(certificate, other);
}
