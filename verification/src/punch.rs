//! Punching a hole through the routers between two peers.
//!
//! Each side keeps sending datagrams of one byte to the other. The byte is 0 until a 0 has come
//! from the other side, and 1 from then on. A side is done when a 1 has come.
use crate::addr::SocketAddr;
use crate::rendevouz::AnnounceReply;
use vstd::prelude::*;

verus! {

/// The pause after a datagram was sent, in milliseconds.
pub const PUNCH_INTERVAL_MS: u64 = 50;

/// A datagram of one byte that came in beside the traffic of the connections.
#[derive(Clone, Copy, Debug)]
pub struct IncomingHolepunchPacket {
    pub data: [u8; 1],
    pub from: SocketAddr,
}

/// A datagram of one byte to send.
#[derive(Clone, Copy, Debug)]
pub struct OutgoingHolepunchPacket {
    pub data: [u8; 1],
    pub dest: SocketAddr,
}

/// What the operating system tells of a datagram besides its content.
#[derive(Clone, Copy, Debug)]
pub struct DatagramMeta {
    /// The number of bytes that came in.
    pub len: usize,
    /// Where they came from.
    pub addr: SocketAddr,
}

/// `packet` stands for the datagram with the description `meta` in the buffer `buf`.
pub open spec fn is_packet_of(
    packet: IncomingHolepunchPacket,
    meta: DatagramMeta,
    buf: Seq<u8>,
) -> bool {
    packet.data@ == seq![buf[0]] && packet.from == meta.addr
}

/// The positions, in order, of the datagrams of one byte among the first `count`.
pub open spec fn one_byte_positions(metas: Seq<DatagramMeta>, count: nat) -> Seq<int>
    decreases count,
{
    if count == 0 {
        Seq::empty()
    } else if metas[count - 1].len == 1 {
        one_byte_positions(metas, (count - 1) as nat).push(count - 1)
    } else {
        one_byte_positions(metas, (count - 1) as nat)
    }
}

/// The number of datagrams that were received: there are `msg_count` of them, as far as there is
/// room for their descriptions and their contents.
pub open spec fn datagram_count(metas: int, bufs: int, msg_count: int) -> int {
    let described = if metas <= bufs {
        metas
    } else {
        bufs
    };
    if described <= msg_count {
        described
    } else {
        msg_count
    }
}

/// Picks the datagrams of one byte out of those that were received: the first `msg_count`
/// buffers hold one datagram each, described in the same place of `metas`.
pub fn forward_holepunch(bufs: &[&[u8]], metas: &[DatagramMeta], msg_count: usize) -> (packets: Vec<
    IncomingHolepunchPacket,
>)
    requires
        forall|i: int|
            0 <= i < datagram_count(metas@.len() as int, bufs@.len() as int, msg_count as int)
                && (#[trigger] metas@[i]).len == 1 ==> bufs@[i]@.len() > 0,
    ensures
        ({
            let count = datagram_count(metas@.len() as int, bufs@.len() as int, msg_count as int);
            let positions = one_byte_positions(metas@, count as nat);
            &&& packets@.len() == positions.len()
            &&& forall|i: int|
                0 <= i < positions.len() ==> is_packet_of(
                    #[trigger] packets@[i],
                    metas@[positions[i]],
                    bufs@[positions[i]]@,
                )
        }),
{
    let mut packets: Vec<IncomingHolepunchPacket> = Vec::new();
    let mut i: usize = 0;
    while i < msg_count && i < metas.len() && i < bufs.len()
        invariant
            i <= datagram_count(metas@.len() as int, bufs@.len() as int, msg_count as int),
            forall|j: int|
                0 <= j < datagram_count(metas@.len() as int, bufs@.len() as int, msg_count as int)
                    && (#[trigger] metas@[j]).len == 1 ==> bufs@[j]@.len() > 0,
            packets@.len() == one_byte_positions(metas@, i as nat).len(),
            forall|j: int|
                0 <= j < packets@.len() ==> is_packet_of(
                    #[trigger] packets@[j],
                    metas@[one_byte_positions(metas@, i as nat)[j]],
                    bufs@[one_byte_positions(metas@, i as nat)[j]]@,
                ),
        decreases msg_count - i,
    {
        let meta = &metas[i];
        if meta.len == 1 {
            let packet = IncomingHolepunchPacket { data: [bufs[i][0]], from: meta.addr };
            assert(packet.data@ =~= seq![bufs@[i as int]@[0]]);
            packets.push(packet);
        }
        i += 1;
    }
    packets
}

/// Every datagram of one byte is picked exactly once and in order, and no other one is.
pub proof fn law_one_byte_datagrams_are_picked(metas: Seq<DatagramMeta>, count: nat)
    requires
        count <= metas.len(),
    ensures
        forall|i: int|
            one_byte_positions(metas, count).contains(i) <==> 0 <= i < count && (
            #[trigger] metas[i]).len == 1,
        forall|a: int, b: int|
            0 <= a < b < one_byte_positions(metas, count).len() ==> one_byte_positions(
                metas,
                count,
            )[a] < one_byte_positions(metas, count)[b],
    decreases count,
{
    if count > 0 {
        let end = count - 1;
        let earlier = one_byte_positions(metas, end as nat);
        let all = one_byte_positions(metas, count);
        law_one_byte_datagrams_are_picked(metas, end as nat);
        assert forall|a: int, b: int| 0 <= a < b < all.len() implies all[a] < all[b] by {
            if b == earlier.len() {
                assert(earlier.contains(earlier[a]));
                assert(metas[earlier[a]].len == 1);
            }
        }
        assert forall|i: int|
            all.contains(i) <==> 0 <= i < count && (#[trigger] metas[i]).len == 1 by {
            if metas[end].len == 1 {
                assert(all[earlier.len() as int] == end);
                if earlier.contains(i) {
                    let at = choose|at: int| 0 <= at < earlier.len() && earlier[at] == i;
                    assert(all[at] == i);
                }
                if all.contains(i) {
                    let at = choose|at: int| 0 <= at < all.len() && all[at] == i;
                    if at < earlier.len() {
                        assert(earlier[at] == i);
                    }
                }
            }
        }
    }
}

/// What happened while a peer is being punched through to.
#[derive(Clone, Copy, Debug)]
pub enum PunchEvent {
    /// The datagram was handed on to be sent.
    Sent,
    /// The datagram could not be handed on.
    NotSent,
    /// A datagram of one byte came in, from whomever.
    Received(IncomingHolepunchPacket),
    /// The datagrams that came in could not be looked at.
    NotReceived,
}

/// How it goes on after an event.
#[derive(Clone, Copy, Debug, PartialEq, Eq, Structural)]
pub enum PunchOutcome {
    /// Go on.
    Continue,
    /// Go on; the peer sent a byte that means nothing.
    InvalidPacket,
    /// The hole is open on both sides.
    Finished,
}

/// One side of punching a hole.
#[derive(Clone, Copy, Debug)]
pub struct Puncher {
    dest: SocketAddr,
    data: u8,
    wait: bool,
    finished: bool,
}

/// The mathematical model of a [`Puncher`].
pub struct PuncherView {
    /// The address of the other side.
    pub dest: SocketAddr,
    /// The byte to send.
    pub data: u8,
    /// A pause is due.
    pub wait: bool,
    /// The hole is open.
    pub finished: bool,
}

impl View for Puncher {
    type V = PuncherView;

    closed spec fn view(&self) -> PuncherView {
        PuncherView { dest: self.dest, data: self.data, wait: self.wait, finished: self.finished }
    }
}

/// One side that has not done anything yet.
pub open spec fn fresh(dest: SocketAddr) -> PuncherView {
    PuncherView { dest, data: 0, wait: false, finished: false }
}

/// The event brings the given byte from the other side.
pub open spec fn brings(event: PunchEvent, dest: SocketAddr, byte: u8) -> bool {
    event matches PunchEvent::Received(packet) && packet.from == dest && packet.data@[0] == byte
}

/// One side after an event.
pub open spec fn punched(before: PuncherView, event: PunchEvent) -> PuncherView {
    if brings(event, before.dest, 1) {
        PuncherView { finished: true, ..before }
    } else if brings(event, before.dest, 0) {
        PuncherView { data: 1, wait: false, ..before }
    } else {
        PuncherView { wait: event is Sent || event is NotSent, ..before }
    }
}

/// How it goes on after an event.
pub open spec fn outcome(dest: SocketAddr, event: PunchEvent) -> PunchOutcome {
    if brings(event, dest, 1) {
        PunchOutcome::Finished
    } else if event matches PunchEvent::Received(packet) && packet.from == dest && packet.data@[0]
        != 0 {
        PunchOutcome::InvalidPacket
    } else {
        PunchOutcome::Continue
    }
}

impl Puncher {
    /// Starts to punch a hole to the given address.
    pub fn new(dest: SocketAddr) -> (puncher: Puncher)
        ensures
            puncher@ == fresh(dest),
    {
        Puncher { dest, data: 0, wait: false, finished: false }
    }

    /// The address of the other side.
    pub fn dest(&self) -> (dest: SocketAddr)
        ensures
            dest == self@.dest,
    {
        self.dest
    }

    /// The pause that is due before the next datagram is sent or taken in, in milliseconds.
    pub fn delay_ms(&self) -> (delay: u64)
        ensures
            delay == (if self@.wait {
                PUNCH_INTERVAL_MS
            } else {
                0
            }),
    {
        if self.wait {
            PUNCH_INTERVAL_MS
        } else {
            0
        }
    }

    /// The datagram to send next.
    pub fn packet(&self) -> (packet: OutgoingHolepunchPacket)
        ensures
            packet.data@ == seq![self@.data],
            packet.dest == self@.dest,
    {
        let packet = OutgoingHolepunchPacket { data: [self.data], dest: self.dest };
        assert(packet.data@ =~= seq![self@.data]);
        packet
    }

    /// Takes an event in. Nothing is taken in any more once the hole is open.
    pub fn step(&mut self, event: PunchEvent) -> (next: PunchOutcome)
        requires
            !old(self)@.finished,
        ensures
            final(self)@ == punched(old(self)@, event),
            next == outcome(old(self)@.dest, event),
    {
        match event {
            PunchEvent::Sent | PunchEvent::NotSent => {
                self.wait = true;
                PunchOutcome::Continue
            },
            PunchEvent::Received(packet) => {
                let mut next = PunchOutcome::Continue;
                if packet.from == self.dest {
                    let byte: u8 = packet.data[0];
                    if byte == 0 {
                        self.data = 1;
                    } else if byte == 1 {
                        self.finished = true;
                        return PunchOutcome::Finished;
                    } else {
                        next = PunchOutcome::InvalidPacket;
                    }
                }
                self.wait = false;
                next
            },
            PunchEvent::NotReceived => {
                self.wait = false;
                PunchOutcome::Continue
            },
        }
    }
}

/// What a client does about the news of its announcement.
#[derive(Clone, Copy, Debug)]
pub enum AnnounceAction {
    /// Take note of the client's own address.
    NoteAddress(SocketAddr),
    /// Punch a hole to the peer that knocked.
    Punch(Puncher),
}

/// Decides what to do about the news of an announcement.
pub fn on_announce_reply(reply: &AnnounceReply) -> (action: AnnounceAction)
    ensures
        match *reply {
            AnnounceReply::GlobalAddress(addr) => action == AnnounceAction::NoteAddress(addr),
            AnnounceReply::Knock(knock) => action matches AnnounceAction::Punch(puncher)
                && puncher@ == fresh(knock.addr),
        },
        action is Punch <==> reply is Knock,
        action matches AnnounceAction::Punch(puncher) ==> puncher@.dest == reply->Knock_0.addr
            && puncher@.data == 0 && !puncher@.wait && !puncher@.finished,
{
    match reply {
        AnnounceReply::GlobalAddress(addr) => AnnounceAction::NoteAddress(*addr),
        AnnounceReply::Knock(knock) => AnnounceAction::Punch(Puncher::new(knock.addr)),
    }
}

/// One side after a sequence of events; it takes none in once it is finished.
pub open spec fn punched_by(dest: SocketAddr, events: Seq<PunchEvent>) -> PuncherView
    decreases events.len(),
{
    if events.len() == 0 {
        fresh(dest)
    } else if punched_by(dest, events.drop_last()).finished {
        punched_by(dest, events.drop_last())
    } else {
        punched(punched_by(dest, events.drop_last()), events.last())
    }
}

/// The other side sent the given byte at some point of the events.
pub open spec fn brought(dest: SocketAddr, events: Seq<PunchEvent>, byte: u8) -> bool {
    exists|i: int| 0 <= i < events.len() && brings(#[trigger] events[i], dest, byte)
}

proof fn lemma_brought(dest: SocketAddr, events: Seq<PunchEvent>, byte: u8)
    requires
        events.len() > 0,
    ensures
        brought(dest, events, byte) <==> brought(dest, events.drop_last(), byte) || brings(
            events.last(),
            dest,
            byte,
        ),
{
    let earlier = events.drop_last();
    if brought(dest, earlier, byte) {
        let i = choose|i: int| 0 <= i < earlier.len() && brings(#[trigger] earlier[i], dest, byte);
        assert(brings(events[i], dest, byte));
    }
    if brings(events.last(), dest, byte) {
        assert(brings(events[events.len() - 1], dest, byte));
    }
    if brought(dest, events, byte) {
        let i = choose|i: int| 0 <= i < events.len() && brings(#[trigger] events[i], dest, byte);
        if i < earlier.len() {
            assert(brings(earlier[i], dest, byte));
        }
    }
}

/// Punching ends exactly when the other side has sent a 1. Until then a side sends 1 exactly when
/// the other side has sent a 0, and pauses exactly after it has sent something.
pub proof fn law_punching(dest: SocketAddr, events: Seq<PunchEvent>)
    ensures
        punched_by(dest, events).dest == dest,
        punched_by(dest, events).finished <==> brought(dest, events, 1),
        !punched_by(dest, events).finished ==> punched_by(dest, events).data == (if brought(
            dest,
            events,
            0,
        ) {
            1u8
        } else {
            0u8
        }),
        punched_by(dest, events).data <= 1,
        !punched_by(dest, events).finished ==> punched_by(dest, events).wait == (events.len() > 0
            && (events.last() is Sent || events.last() is NotSent)),
    decreases events.len(),
{
    if events.len() > 0 {
        law_punching(dest, events.drop_last());
        lemma_brought(dest, events, 0);
        lemma_brought(dest, events, 1);
    }
}

/// Once a side sends 1 it never goes back to sending 0, and the other side's address stays.
pub proof fn law_punching_never_goes_back(before: PuncherView, event: PunchEvent)
    requires
        before.data <= 1,
    ensures
        before.data <= punched(before, event).data <= 1,
        before.finished ==> punched(before, event).finished,
        punched(before, event).dest == before.dest,
{
}

/// What does not come from the other side changes nothing but the pause.
pub proof fn law_only_the_peer_counts(before: PuncherView, event: PunchEvent)
    requires
        event matches PunchEvent::Received(packet) ==> packet.from != before.dest,
    ensures
        punched(before, event) == (PuncherView { wait: punched(before, event).wait, ..before }),
        outcome(before.dest, event) == PunchOutcome::Continue,
{
}

/// A datagram of a side that still sends 0, once it arrives, makes the other side send 1 at once;
/// and the datagram that it sends from then on, once it arrives, finishes the first side.
pub proof fn law_probe_and_answer(
    first: PuncherView,
    second: PuncherView,
    probe: IncomingHolepunchPacket,
    answer: IncomingHolepunchPacket,
)
    requires
        !first.finished,
        !second.finished,
        first.data == 0,
        probe.data@ == seq![first.data],
        probe.from == second.dest,
        answer.data@ == seq![punched(second, PunchEvent::Received(probe)).data],
        answer.from == first.dest,
    ensures
        punched(second, PunchEvent::Received(probe)) == (PuncherView {
            data: 1,
            wait: false,
            ..second
        }),
        punched(first, PunchEvent::Received(answer)).finished,
        outcome(first.dest, PunchEvent::Received(answer)) == PunchOutcome::Finished,
{
}

/// A side that went through the given events sent the given byte, or was about to, at some point
/// of them.
pub open spec fn sends(dest: SocketAddr, events: Seq<PunchEvent>, byte: u8) -> bool {
    exists|seen: int|
        0 <= seen <= events.len() && ({
            let side = #[trigger] punched_by(dest, events.take(seen));
            !side.finished && side.data == byte
        })
}

/// Between two sides that punch, a side that is finished knows the way to be open in both
/// directions: a datagram of the other side has reached it, and one of its own has reached the
/// other side.
///
/// `first` and `second` are the addresses of the two sides as the other one sees them, and all
/// that comes to the first side from the second was sent by it.
pub proof fn law_finished_means_open_both_ways(
    first: SocketAddr,
    second: SocketAddr,
    first_events: Seq<PunchEvent>,
    second_events: Seq<PunchEvent>,
)
    requires
        forall|i: int, byte: u8|
            0 <= i < first_events.len() && #[trigger] brings(first_events[i], second, byte)
                ==> sends(first, second_events, byte),
        punched_by(second, first_events).finished,
    ensures
        brought(second, first_events, 1),
        brought(first, second_events, 0),
{
    law_punching(second, first_events);
    let i = choose|i: int|
        0 <= i < first_events.len() && brings(#[trigger] first_events[i], second, 1);
    assert(brings(first_events[i], second, 1));
    let seen = choose|seen: int|
        0 <= seen <= second_events.len() && ({
            let side = #[trigger] punched_by(first, second_events.take(seen));
            !side.finished && side.data == 1
        });
    let earlier = second_events.take(seen);
    law_punching(first, earlier);
    let at = choose|at: int| 0 <= at < earlier.len() && brings(#[trigger] earlier[at], first, 0);
    assert(brings(second_events[at], first, 0));
}

/// What one event does, by what it is. A 1 from the other side, and nothing else, finishes; a 0
/// from the other side makes this side send 1 and goes on; any other byte from the other side is
/// invalid and changes nothing that is sent; what comes from anybody else is of no account. A
/// pause is due exactly after a datagram was handed on, or could not be.
pub proof fn law_what_an_event_does(before: PuncherView, event: PunchEvent)
    ensures
        outcome(before.dest, event) == PunchOutcome::Finished <==> (event matches
            PunchEvent::Received(packet) && packet.from == before.dest && packet.data@[0] == 1),
        outcome(before.dest, event) == PunchOutcome::InvalidPacket <==> (event matches
            PunchEvent::Received(packet) && packet.from == before.dest && packet.data@[0] >= 2),
        !before.finished ==> (punched(before, event).finished <==> outcome(before.dest, event)
            == PunchOutcome::Finished),
        before.finished ==> punched(before, event).finished,
        punched(before, event).dest == before.dest,
        (event matches PunchEvent::Received(packet) && packet.from == before.dest
            && packet.data@[0] == 0) ==> punched(before, event).data == 1,
        !(event matches PunchEvent::Received(packet) && packet.from == before.dest
            && packet.data@[0] == 0) ==> punched(before, event).data == before.data,
        outcome(before.dest, event) != PunchOutcome::Finished ==> (punched(before, event).wait <==> (
        event is Sent || event is NotSent)),
{
}

/// What a side has to send, and how long it pauses, told from what came before alone: the byte is
/// 1 where the other side has sent a 0, and 0 where it has not; a side is done where the other
/// side has sent a 1, and only there.
pub proof fn law_what_is_sent(dest: SocketAddr, events: Seq<PunchEvent>)
    ensures
        ({
            let side = punched_by(dest, events);
            &&& side.dest == dest
            &&& side.finished <==> exists|i: int|
                0 <= i < events.len() && (#[trigger] events[i] matches PunchEvent::Received(packet)
                    && packet.from == dest && packet.data@[0] == 1)
            &&& !side.finished ==> (side.data == 1 <==> exists|i: int|
                0 <= i < events.len() && (#[trigger] events[i] matches PunchEvent::Received(packet)
                    && packet.from == dest && packet.data@[0] == 0))
            &&& side.data == 0 || side.data == 1
            &&& !side.finished ==> (side.wait <==> events.len() > 0 && (events[events.len() - 1]
                is Sent || events[events.len() - 1] is NotSent))
        }),
    decreases events.len(),
{
    if events.len() > 0 {
        let earlier = events.drop_last();
        law_what_is_sent(dest, earlier);
        assert forall|i: int| 0 <= i < earlier.len() implies #[trigger] earlier[i] == events[i] by {}
        assert(forall|i: int| 0 <= i < earlier.len() ==> #[trigger] events[i] == earlier[i]);
        assert(events.last() == events[events.len() - 1]);
    }
}

/// The number of datagrams received is bounded by each of its three bounds, and is one of them.
pub proof fn law_datagrams_received(metas: nat, bufs: nat, msg_count: nat)
    ensures
        ({
            let count = datagram_count(metas as int, bufs as int, msg_count as int);
            &&& 0 <= count <= metas
            &&& count <= bufs
            &&& count <= msg_count
            &&& count == metas || count == bufs || count == msg_count
        }),
{
}

/// The places are in order, and none occurs twice.
pub open spec fn in_order(places: Seq<int>) -> bool {
    forall|a: int, b: int| 0 <= a < b < places.len() ==> places[a] < places[b]
}

proof fn lemma_order_is_unique(one: Seq<int>, other: Seq<int>)
    requires
        in_order(one),
        in_order(other),
        forall|i: int| one.contains(i) <==> #[trigger] other.contains(i),
    ensures
        one == other,
    decreases one.len(),
{
    if one.len() == 0 {
        if other.len() > 0 {
            assert(other.contains(other[0]));
        }
        assert(one =~= other);
    } else {
        assert(one.contains(one[0]));
        assert(other.contains(one[0]));
        let end = one.last();
        assert(one.contains(one[one.len() - 1]));
        assert(other.contains(end));
        assert(other.contains(other[other.len() - 1]));
        let at = choose|at: int| 0 <= at < other.len() && other[at] == end;
        let back = choose|back: int| 0 <= back < one.len() && one[back] == other.last();
        assert(end == other.last());
        let shorter = one.drop_last();
        let other_shorter = other.drop_last();
        assert forall|i: int| shorter.contains(i) <==> #[trigger] other_shorter.contains(i) by {
            if shorter.contains(i) {
                let k = choose|k: int| 0 <= k < shorter.len() && shorter[k] == i;
                assert(one[k] == i);
                assert(one.contains(i));
                assert(other.contains(i));
                let l = choose|l: int| 0 <= l < other.len() && other[l] == i;
                assert(other_shorter[l] == i);
            }
            if other_shorter.contains(i) {
                let k = choose|k: int| 0 <= k < other_shorter.len() && other_shorter[k] == i;
                assert(other[k] == i);
                assert(other.contains(i));
                assert(one.contains(i));
                let l = choose|l: int| 0 <= l < one.len() && one[l] == i;
                assert(shorter[l] == i);
            }
        }
        lemma_order_is_unique(shorter, other_shorter);
        assert(one =~= shorter.push(end));
        assert(other =~= other_shorter.push(end));
    }
}

/// What [`forward_holepunch`] gives back is, for each datagram of one byte in the order of their
/// places, the whole content of the datagram and where it came from.
///
/// `places` are the places of the datagrams of one byte among the `count` that were received.
pub proof fn law_datagrams_are_forwarded(
    bufs: Seq<&[u8]>,
    metas: Seq<DatagramMeta>,
    msg_count: nat,
    packets: Seq<IncomingHolepunchPacket>,
    count: nat,
    places: Seq<int>,
)
    requires
        count <= metas.len(),
        count <= bufs.len(),
        count <= msg_count,
        count == metas.len() || count == bufs.len() || count == msg_count,
        in_order(places),
        forall|i: int|
            places.contains(i) <==> 0 <= i < count && (#[trigger] metas[i]).len == 1,
        forall|i: int|
            0 <= i < count && (#[trigger] metas[i]).len == 1 ==> bufs[i]@.len() > 0,
        ({
            let positions = one_byte_positions(
                metas,
                datagram_count(metas.len() as int, bufs.len() as int, msg_count as int) as nat,
            );
            &&& packets.len() == positions.len()
            &&& forall|i: int|
                0 <= i < positions.len() ==> is_packet_of(
                    #[trigger] packets[i],
                    metas[positions[i]],
                    bufs[positions[i]]@,
                )
        }),
    ensures
        packets.len() == places.len(),
        forall|i: int|
            0 <= i < places.len() ==> (#[trigger] packets[i]).data@ == bufs[places[i]]@.take(
                metas[places[i]].len as int,
            ) && packets[i].from == metas[places[i]].addr,
{
    law_datagrams_received(metas.len(), bufs.len(), msg_count);
    law_one_byte_datagrams_are_picked(metas, count);
    let positions = one_byte_positions(metas, count);
    assert(in_order(positions));
    assert forall|i: int| positions.contains(i) <==> #[trigger] places.contains(i) by {
        if positions.contains(i) || places.contains(i) {
            assert(metas[i].len == 1);
        }
    }
    lemma_order_is_unique(positions, places);
    assert forall|i: int| 0 <= i < places.len() implies (#[trigger] packets[i]).data@
        == bufs[places[i]]@.take(metas[places[i]].len as int) && packets[i].from
        == metas[places[i]].addr by {
        assert(places.contains(places[i]));
        assert(metas[places[i]].len == 1);
        assert(is_packet_of(packets[i], metas[positions[i]], bufs[positions[i]]@));
        assert(packets[i].data@ =~= bufs[places[i]]@.take(1));
    }
}

/// What lies in a buffer behind the bytes of its datagram does not matter: buffers that agree on
/// the datagram give the same packet.
pub proof fn law_only_the_datagram_counts(
    one: IncomingHolepunchPacket,
    other: IncomingHolepunchPacket,
    meta: DatagramMeta,
    buf: Seq<u8>,
    other_buf: Seq<u8>,
)
    requires
        meta.len == 1,
        meta.len <= buf.len(),
        meta.len <= other_buf.len(),
        buf.take(meta.len as int) == other_buf.take(meta.len as int),
        is_packet_of(one, meta, buf),
        is_packet_of(other, meta, other_buf),
    ensures
        one.data@ == other.data@,
        one.data@ == buf.take(meta.len as int),
        one.from == other.from,
        one.from == meta.addr,
{
    assert(buf.take(1)[0] == other_buf.take(1)[0]);
    assert(one.data@ =~= buf.take(1));
}

} // verus!
