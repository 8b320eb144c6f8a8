use quinn_holepunch::addr::SocketAddr;
use quinn_holepunch::punch::{
    forward_holepunch, DatagramMeta, IncomingHolepunchPacket, PunchEvent, PunchOutcome, Puncher,
};

fn addr(last: u8) -> SocketAddr {
    SocketAddr::V4 { ip: [192, 0, 2, last], port: 7000 }
}

fn received(byte: u8, from: SocketAddr) -> PunchEvent {
    PunchEvent::Received(IncomingHolepunchPacket { data: [byte], from })
}

fn meta(len: usize, last: u8) -> DatagramMeta {
    DatagramMeta { len, addr: addr(last) }
}

#[test]
fn only_single_bytes_are_forwarded() {
    let bufs: [&[u8]; 4] = [&[0, 0, 0], &[1, 9], &[7], &[1]];
    let metas = [meta(1, 1), meta(2, 2), meta(0, 3), meta(1, 4)];
    let packets = forward_holepunch(&bufs, &metas, 4);
    assert_eq!(packets.len(), 2);
    assert_eq!((packets[0].data, packets[0].from), ([0], addr(1)));
    assert_eq!((packets[1].data, packets[1].from), ([1], addr(4)));
}

#[test]
fn only_received_datagrams_are_forwarded() {
    let bufs: [&[u8]; 3] = [&[5], &[6], &[7]];
    let metas = [meta(1, 1), meta(1, 2), meta(1, 3)];
    assert_eq!(forward_holepunch(&bufs, &metas, 0).len(), 0);
    assert_eq!(forward_holepunch(&bufs, &metas, 2).len(), 2);
    assert_eq!(forward_holepunch(&bufs, &metas, 9).len(), 3);
    assert_eq!(forward_holepunch(&bufs[..1], &metas, 3).len(), 1);
    assert_eq!(forward_holepunch(&bufs, &metas[..1], 3).len(), 1);
    assert_eq!(forward_holepunch(&[&[]], &[meta(0, 1)], 1).len(), 0);
}

#[test]
fn starts_with_a_probe() {
    let puncher = Puncher::new(addr(1));
    assert_eq!(puncher.dest(), addr(1));
    assert_eq!(puncher.packet().data, [0]);
    assert_eq!(puncher.packet().dest, addr(1));
    assert_eq!(puncher.delay_ms(), 0);
}

#[test]
fn pauses_after_sending() {
    let mut puncher = Puncher::new(addr(1));
    assert_eq!(puncher.step(PunchEvent::Sent), PunchOutcome::Continue);
    assert_eq!(puncher.delay_ms(), 50);
    assert_eq!(puncher.step(PunchEvent::NotReceived), PunchOutcome::Continue);
    assert_eq!(puncher.delay_ms(), 0);
    assert_eq!(puncher.step(PunchEvent::NotSent), PunchOutcome::Continue);
    assert_eq!(puncher.delay_ms(), 50);
    assert_eq!(puncher.packet().data, [0]);
}

#[test]
fn probe_is_answered() {
    let mut puncher = Puncher::new(addr(1));
    puncher.step(PunchEvent::Sent);
    assert_eq!(puncher.step(received(0, addr(1))), PunchOutcome::Continue);
    assert_eq!(puncher.packet().data, [1]);
    assert_eq!(puncher.delay_ms(), 0);
    assert_eq!(puncher.step(received(0, addr(1))), PunchOutcome::Continue);
    assert_eq!(puncher.packet().data, [1]);
}

#[test]
fn answer_finishes() {
    let mut puncher = Puncher::new(addr(1));
    assert_eq!(puncher.step(received(1, addr(1))), PunchOutcome::Finished);
}

#[test]
fn strangers_do_not_count() {
    let mut puncher = Puncher::new(addr(1));
    puncher.step(PunchEvent::Sent);
    assert_eq!(puncher.step(received(0, addr(2))), PunchOutcome::Continue);
    assert_eq!(puncher.packet().data, [0]);
    assert_eq!(puncher.delay_ms(), 0);
    assert_eq!(puncher.step(received(1, addr(2))), PunchOutcome::Continue);
    assert_eq!(puncher.step(received(2, addr(2))), PunchOutcome::Continue);
}

#[test]
fn other_bytes_are_invalid() {
    let mut puncher = Puncher::new(addr(1));
    puncher.step(PunchEvent::Sent);
    assert_eq!(puncher.step(received(2, addr(1))), PunchOutcome::InvalidPacket);
    assert_eq!(puncher.packet().data, [0]);
    assert_eq!(puncher.delay_ms(), 0);
}

#[test]
fn probe_and_answer() {
    let (a, b) = (addr(1), addr(2));
    let mut first = Puncher::new(b);
    let mut second = Puncher::new(a);
    let probe = first.packet();
    assert_eq!(probe.dest, b);
    assert_eq!(
        second.step(received(probe.data[0], a)),
        PunchOutcome::Continue
    );
    let answer = second.packet();
    assert_eq!(answer.dest, a);
    assert_eq!(first.step(received(answer.data[0], b)), PunchOutcome::Finished);
}

#[test]
fn nobody_finishes_while_one_direction_is_closed() {
    let (a, b) = (addr(1), addr(2));
    let mut first = Puncher::new(b);
    let mut second = Puncher::new(a);
    for _ in 0..5 {
        first.step(PunchEvent::Sent);
        second.step(PunchEvent::Sent);
        let probe = second.packet();
        assert_eq!(first.step(received(probe.data[0], b)), PunchOutcome::Continue);
    }
    assert_eq!(first.packet().data, [1]);
    assert_eq!(second.packet().data, [0]);
}
