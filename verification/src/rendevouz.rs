//! The client's side of the rendevouz: announcing oneself, and finding a peer.
use crate::addr::{AddrView, SocketAddr};
use crate::message::{InvalidMessage, Message, MessageError, MessageView};
use crate::peer::PeerId;
use vstd::prelude::*;

verus! {

/// News for a client that has announced itself.
#[derive(Debug)]
pub enum AnnounceReply {
    /// The client's own address as the server sees it.
    GlobalAddress(SocketAddr),
    /// Somebody wants to connect.
    Knock(Knock),
}

/// Somebody wants to connect.
#[derive(Debug)]
pub struct Knock {
    /// The address from which the connection will come.
    pub addr: SocketAddr,
    /// The name of the other side, where it is known.
    pub peer_id: Option<PeerId>,
}

/// The mathematical model of an [`AnnounceReply`].
pub enum AnnounceReplyView {
    GlobalAddress(AddrView),
    Knock { addr: AddrView, peer_id: Option<Seq<char>> },
}

impl View for AnnounceReply {
    type V = AnnounceReplyView;

    open spec fn view(&self) -> AnnounceReplyView {
        match *self {
            AnnounceReply::GlobalAddress(addr) => AnnounceReplyView::GlobalAddress(addr@),
            AnnounceReply::Knock(knock) => AnnounceReplyView::Knock {
                addr: knock.addr@,
                peer_id: match knock.peer_id {
                    Some(id) => Some(id@),
                    None => None,
                },
            },
        }
    }
}

/// What is wrong with something that the server sent.
#[derive(Debug)]
pub enum ProtocolError {
    /// It is no message.
    Message(MessageError),
    /// It is a message, but not one that was due.
    Invalid(InvalidMessage),
}

/// `err` is the reason for which a stream with this content does not bring the message that was
/// due.
pub open spec fn rejected(stream: Seq<u8>, err: ProtocolError) -> bool {
    match err {
        ProtocolError::Message(err) => crate::message::refused(stream, err),
        ProtocolError::Invalid(_) => crate::message::received(stream) is Some,
    }
}

/// How far an announcement has come.
#[derive(Debug, Clone, Copy, PartialEq, Eq, Structural)]
pub enum AnnounceState {
    /// The client has asked to be listed, and waits for the answer on the same stream.
    Announced,
    /// The client is listed, and waits for streams that the server opens.
    Listening,
    /// Something went wrong, and no news will come any more.
    Ended,
}

/// An announcement in progress.
#[derive(Debug)]
pub struct Announcer {
    state: AnnounceState,
}

/// The news that a message brings in a state of an announcement, if it is the one that is due.
pub open spec fn news(state: AnnounceState, message: Option<MessageView>) -> Option<
    AnnounceReplyView,
> {
    match (state, message) {
        (AnnounceState::Announced, Some(MessageView::Accepted(addr))) => Some(
            AnnounceReplyView::GlobalAddress(addr),
        ),
        (AnnounceState::Listening, Some(MessageView::Incoming(addr))) => Some(
            AnnounceReplyView::Knock { addr, peer_id: None },
        ),
        _ => None,
    }
}

/// The state of an announcement after a message.
pub open spec fn state_after(state: AnnounceState, message: Option<MessageView>) -> AnnounceState {
    if news(state, message) is Some {
        AnnounceState::Listening
    } else {
        AnnounceState::Ended
    }
}

impl View for Announcer {
    type V = AnnounceState;

    closed spec fn view(&self) -> AnnounceState {
        self.state
    }
}

impl Announcer {
    /// Starts to announce a client under a name; also gives the message to send.
    pub fn start(local_id: PeerId) -> (started: (Announcer, Message))
        ensures
            started.0@ == AnnounceState::Announced,
            started.1@ == MessageView::Listen(local_id@),
            vstd::utf8::encode_utf8(local_id@).len() <= crate::message::max_peer_id_len()
                ==> crate::message::received(started.1@.encoded()) == Some(
                MessageView::Listen(local_id@),
            ),
    {
        proof {
            if vstd::utf8::encode_utf8(local_id@).len() <= crate::message::max_peer_id_len() {
                crate::message::law_short_message_arrives(MessageView::Listen(local_id@));
            }
        }
        (Announcer { state: AnnounceState::Announced }, Message::Listen(local_id))
    }

    /// How far the announcement has come.
    pub fn state(&self) -> (state: AnnounceState)
        ensures
            state == self@,
    {
        self.state
    }

    /// Takes in the whole content of the stream that was due, and says what news it brings.
    pub fn on_stream(&mut self, stream: &[u8]) -> (reply: Result<AnnounceReply, ProtocolError>)
        requires
            old(self)@ != AnnounceState::Ended,
        ensures
            final(self)@ == state_after(old(self)@, crate::message::received(stream@)),
            match news(old(self)@, crate::message::received(stream@)) {
                Some(due) => reply matches Ok(reply) && reply@ == due,
                None => reply matches Err(err) && rejected(stream@, err),
            },
    {
        let state = self.state;
        self.state = AnnounceState::Ended;
        let message = match Message::recv(stream) {
            Ok(message) => message,
            Err(err) => {
                return Err(ProtocolError::Message(err));
            },
        };
        match state {
            AnnounceState::Announced => match message.as_accepted() {
                Ok(addr) => {
                    self.state = AnnounceState::Listening;
                    Ok(AnnounceReply::GlobalAddress(addr))
                },
                Err(err) => Err(ProtocolError::Invalid(err)),
            },
            _ => match message.as_incoming() {
                Ok(addr) => {
                    self.state = AnnounceState::Listening;
                    Ok(AnnounceReply::Knock(Knock { addr, peer_id: None }))
                },
                Err(err) => Err(ProtocolError::Invalid(err)),
            },
        }
    }
}

/// The message that asks the server for the address of a peer.
pub fn resolve_request(peer_id: PeerId) -> (message: Message)
    ensures
        message@ == MessageView::ConnectRequest(peer_id@),
        vstd::utf8::encode_utf8(peer_id@).len() <= crate::message::max_peer_id_len()
            ==> crate::message::received(message@.encoded()) == Some(
            MessageView::ConnectRequest(peer_id@),
        ),
{
    proof {
        if vstd::utf8::encode_utf8(peer_id@).len() <= crate::message::max_peer_id_len() {
            crate::message::law_short_message_arrives(MessageView::ConnectRequest(peer_id@));
        }
    }
    Message::ConnectRequest(peer_id)
}

/// What the server's answer says of the address of a peer: `None` where it is no such answer.
pub open spec fn resolved(message: Option<MessageView>) -> Option<Option<AddrView>> {
    match message {
        Some(MessageView::ConnectReply(addr)) => Some(addr),
        _ => None,
    }
}

/// Reads the server's answer to a [`resolve_request`], given the whole content of the stream that
/// brought it: the address of the peer, or nothing where the server does not know it.
pub fn resolve_reply(stream: &[u8]) -> (addr: Result<Option<SocketAddr>, ProtocolError>)
    ensures
        match resolved(crate::message::received(stream@)) {
            Some(due) => addr matches Ok(addr) && crate::message::option_addr_view(addr) == due,
            None => addr matches Err(err) && rejected(stream@, err),
        },
{
    match Message::recv(stream) {
        Ok(message) => match message.as_connect_reply() {
            Ok(addr) => Ok(addr),
            Err(err) => Err(ProtocolError::Invalid(err)),
        },
        Err(err) => Err(ProtocolError::Message(err)),
    }
}

/// Why no connection to a peer can be attempted.
#[derive(Debug, PartialEq, Eq)]
pub enum ConnectError<E> {
    /// The server does not know the peer.
    PeerNotFound,
    /// The server could not be asked.
    Unresolved(E),
}

impl<E> ConnectError<E> {
    /// The error in words, where it has words of its own.
    pub fn text(&self) -> (text: Option<&'static str>)
        ensures
            match *self {
                ConnectError::PeerNotFound => text matches Some(t) && t@ == "Peer not found"@,
                ConnectError::Unresolved(_) => text is None,
            },
    {
        match self {
            ConnectError::PeerNotFound => Some("Peer not found"),
            ConnectError::Unresolved(_) => None,
        }
    }
}

/// Where to connect to, given what asking the server came to.
pub fn connect_target<E>(asked: Result<Option<SocketAddr>, E>) -> (target: Result<
    SocketAddr,
    ConnectError<E>,
>)
    ensures
        target == (match asked {
            Ok(Some(addr)) => Ok(addr),
            Ok(None) => Err(ConnectError::PeerNotFound),
            Err(err) => Err(ConnectError::Unresolved(err)),
        }),
        target is Ok <==> asked is Ok && asked->Ok_0 is Some,
        target matches Ok(addr) ==> asked->Ok_0 == Some(addr),
{
    match asked {
        Ok(Some(addr)) => Ok(addr),
        Ok(None) => Err(ConnectError::PeerNotFound),
        Err(err) => Err(ConnectError::Unresolved(err)),
    }
}

/// The state of an announcement after the given streams; it takes none in once it has ended.
pub open spec fn state_of(streams: Seq<Seq<u8>>) -> AnnounceState
    decreases streams.len(),
{
    if streams.len() == 0 {
        AnnounceState::Announced
    } else if state_of(streams.drop_last()) == AnnounceState::Ended {
        AnnounceState::Ended
    } else {
        state_after(state_of(streams.drop_last()), crate::message::received(streams.last()))
    }
}

/// All the news of an announcement to which the given streams came, in order.
pub open spec fn news_of(streams: Seq<Seq<u8>>) -> Seq<AnnounceReplyView>
    decreases streams.len(),
{
    if streams.len() == 0 {
        Seq::empty()
    } else {
        match news(state_of(streams.drop_last()), crate::message::received(streams.last())) {
            Some(reply) => news_of(streams.drop_last()).push(reply),
            None => news_of(streams.drop_last()),
        }
    }
}

/// A client first learns its own address; all news after that are knocks, by peers whose name is
/// not told. One piece of news comes per stream until the announcement ends.
pub proof fn law_address_comes_before_knocks(streams: Seq<Seq<u8>>)
    ensures
        news_of(streams).len() <= streams.len(),
        state_of(streams) != AnnounceState::Ended ==> news_of(streams).len() == streams.len(),
        news_of(streams).len() > 0 ==> news_of(streams)[0] is GlobalAddress,
        forall|i: int|
            0 < i < news_of(streams).len() ==> (#[trigger] news_of(streams)[i] matches
                AnnounceReplyView::Knock { peer_id, .. } && peer_id is None),
        state_of(streams) == AnnounceState::Announced <==> streams.len() == 0,
    decreases streams.len(),
{
    if streams.len() > 0 {
        law_address_comes_before_knocks(streams.drop_last());
    }
}

/// In each state one kind of message is due and brings news, with the address that it carries; the
/// announcement goes on after it, and ends on everything else.
pub proof fn law_what_is_due(state: AnnounceState, message: Option<MessageView>)
    ensures
        forall|addr: AddrView| #[trigger]
            news(AnnounceState::Announced, Some(MessageView::Accepted(addr))) == Some(
                AnnounceReplyView::GlobalAddress(addr),
            ) && state_after(AnnounceState::Announced, Some(MessageView::Accepted(addr)))
                == AnnounceState::Listening,
        forall|addr: AddrView| #[trigger]
            news(AnnounceState::Listening, Some(MessageView::Incoming(addr))) == Some(
                AnnounceReplyView::Knock { addr, peer_id: None },
            ) && state_after(AnnounceState::Listening, Some(MessageView::Incoming(addr)))
                == AnnounceState::Listening,
        !(state == AnnounceState::Announced && message matches Some(MessageView::Accepted(_)))
            && !(state == AnnounceState::Listening && message matches Some(
            MessageView::Incoming(_),
        )) ==> news(state, message) is None && state_after(state, message) == AnnounceState::Ended,
{
}

/// An announcement lasts as long as the streams that are due come: if the first brings the
/// confirmation and every other one a notice, then the client is still listening, and its news are
/// its own address and one knock for each notice, in order and with the addresses that came.
pub proof fn law_announcement_lasts(
    streams: Seq<Seq<u8>>,
    own: AddrView,
    knocking: Seq<AddrView>,
)
    requires
        streams.len() == knocking.len() + 1,
        crate::message::received(streams[0]) == Some(MessageView::Accepted(own)),
        forall|i: int|
            0 <= i < knocking.len() ==> crate::message::received(streams[i + 1]) == Some(
                MessageView::Incoming(#[trigger] knocking[i]),
            ),
    ensures
        state_of(streams) == AnnounceState::Listening,
        news_of(streams).len() == streams.len(),
        news_of(streams)[0] == AnnounceReplyView::GlobalAddress(own),
        forall|i: int|
            0 <= i < knocking.len() ==> news_of(streams)[i + 1] == (AnnounceReplyView::Knock {
                addr: #[trigger] knocking[i],
                peer_id: None,
            }),
    decreases streams.len(),
{
    let earlier = streams.drop_last();
    if knocking.len() == 0 {
        assert(earlier.len() == 0);
        assert(state_of(earlier) == AnnounceState::Announced);
        assert(news_of(earlier).len() == 0);
    } else {
        let end = knocking.len() - 1;
        let before = knocking.drop_last();
        assert forall|i: int| 0 <= i < before.len() implies crate::message::received(earlier[i + 1])
            == Some(MessageView::Incoming(#[trigger] before[i])) by {
            assert(before[i] == knocking[i]);
            assert(earlier[i + 1] == streams[i + 1]);
        }
        law_announcement_lasts(earlier, own, before);
        assert(crate::message::received(streams[end + 1]) == Some(
            MessageView::Incoming(knocking[end]),
        ));
        assert forall|i: int| 0 <= i < knocking.len() implies news_of(streams)[i + 1] == (
        AnnounceReplyView::Knock { addr: #[trigger] knocking[i], peer_id: None }) by {
            if i < end {
                assert(before[i] == knocking[i]);
            }
        }
    }
}

/// A stream that is not the one that is due ends the announcement, for good.
pub proof fn law_wrong_stream_ends(streams: Seq<Seq<u8>>, at: int)
    requires
        0 <= at < streams.len(),
        at == 0 ==> !(crate::message::received(streams[0]) matches Some(MessageView::Accepted(_))),
        at > 0 ==> !(crate::message::received(streams[at]) matches Some(MessageView::Incoming(_))),
    ensures
        state_of(streams) == AnnounceState::Ended,
        news_of(streams).len() <= at,
    decreases streams.len(),
{
    let earlier = streams.drop_last();
    law_address_comes_before_knocks(earlier);
    if at < streams.len() - 1 {
        assert(earlier[at] == streams[at]);
        assert(earlier[0] == streams[0]);
        law_wrong_stream_ends(earlier, at);
    }
}

/// Only an answer to the question says anything of the address of a peer, and it says what it
/// holds.
pub proof fn law_what_an_answer_says(message: Option<MessageView>, addr: Option<AddrView>)
    ensures
        resolved(Some(MessageView::ConnectReply(addr))) == Some(addr),
        !(message matches Some(MessageView::ConnectReply(_))) ==> resolved(message) is None,
{
}

/// Something that was sent is rejected as a message of the wrong kind only where it is a message,
/// and as no message only for the reason why it is none.
pub proof fn law_reasons_to_reject(stream: Seq<u8>, err: ProtocolError)
    ensures
        err is Invalid ==> (rejected(stream, err) <==> crate::message::received(stream) is Some),
        err matches ProtocolError::Message(reason) ==> (rejected(stream, err)
            <==> crate::message::refused(stream, reason)),
{
}

/// The model of a piece of news says what it holds.
pub proof fn law_news_model(addr: SocketAddr, knock: Knock)
    ensures
        AnnounceReply::GlobalAddress(addr)@ == AnnounceReplyView::GlobalAddress(addr@),
        AnnounceReply::Knock(knock)@ matches AnnounceReplyView::Knock { addr: from, peer_id }
            && from == knock.addr@ && (peer_id is Some <==> knock.peer_id is Some) && (
        peer_id matches Some(id) ==> id == knock.peer_id->0@),
{
}

} // verus!
