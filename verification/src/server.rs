//! The rendevouz server: who listens under which name, and what is answered to whom.
use crate::addr::{AddrView, SocketAddr};
use crate::message::{Message, MessageError, MessageView};
use crate::rendevouz::{AnnounceReplyView, AnnounceState};
use vstd::hash_map::StringHashMap;
use vstd::prelude::*;

verus! {

/// The peers that listen, each with the connection over which it announced itself.
///
/// `C` is the handle of a connection.
#[verifier::reject_recursive_types(C)]
pub struct Registry<C> {
    peers: StringHashMap<C>,
}

impl<C> View for Registry<C> {
    type V = Map<Seq<char>, C>;

    closed spec fn view(&self) -> Map<Seq<char>, C> {
        self.peers@
    }
}

/// What the server does about a request.
#[derive(Debug)]
pub enum Response<C> {
    /// Answer with this message.
    Reply(Message),
    /// Bring two clients together: the one that asked, known by its address, and the one that
    /// listens, known by its connection. See [`introduce`].
    Introduce { peer: C, requester: SocketAddr },
}

/// Why the server gives a connection up.
#[derive(Debug)]
pub enum RequestError {
    /// The client sent something that is no message.
    Message(MessageError),
    /// The client sent an answer that only the server gives.
    ReceivedAccepted,
    /// The client sent a notice that only the server gives.
    ReceivedIncoming,
    /// The client sent an answer that only the server gives.
    ReceivedConnectReply,
}

/// The two messages by which the server brings two clients together.
#[derive(Debug)]
pub struct Introduction {
    /// The answer to the client that asked.
    pub reply: Message,
    /// The notice to the client that listens.
    pub knock: Message,
}

impl RequestError {
    /// The error in words, where the server has words of its own for it.
    pub fn text(&self) -> (text: Option<&'static str>)
        ensures
            match *self {
                RequestError::Message(_) => text is None,
                RequestError::ReceivedAccepted => text matches Some(t) && t@
                    == "Received invalid message: Accepted"@,
                RequestError::ReceivedIncoming => text matches Some(t) && t@
                    == "Received invalid message: Accepted"@,
                RequestError::ReceivedConnectReply => text matches Some(t) && t@
                    == "Received invalid message: ConnectReply"@,
            },
    {
        match self {
            RequestError::Message(_) => None,
            RequestError::ReceivedAccepted => Some("Received invalid message: Accepted"),
            RequestError::ReceivedIncoming => Some("Received invalid message: Accepted"),
            RequestError::ReceivedConnectReply => Some("Received invalid message: ConnectReply"),
        }
    }
}

/// The listening peers after a message from the connection `conn`.
pub open spec fn peers_after<C>(
    peers: Map<Seq<char>, C>,
    conn: C,
    message: MessageView,
) -> Map<Seq<char>, C> {
    match message {
        MessageView::Listen(id) => peers.insert(id, conn),
        _ => peers,
    }
}

/// `response` is what the server owes a client at the address `remote` for a message, while
/// `peers` listen.
pub open spec fn response_due<C: Clone>(
    peers: Map<Seq<char>, C>,
    remote: SocketAddr,
    message: MessageView,
    response: Result<Response<C>, RequestError>,
) -> bool {
    match message {
        MessageView::Listen(_) => response matches Ok(Response::Reply(reply)) && reply@
            == MessageView::Accepted(remote@),
        MessageView::ConnectRequest(id) => if peers.contains_key(id) {
            response matches Ok(Response::Introduce { peer, requester }) && cloned(peers[id], peer)
                && requester == remote
        } else {
            response matches Ok(Response::Reply(reply)) && reply@ == MessageView::ConnectReply(None)
        },
        MessageView::Accepted(_) => response matches Err(RequestError::ReceivedAccepted),
        MessageView::Incoming(_) => response matches Err(RequestError::ReceivedIncoming),
        MessageView::ConnectReply(_) => response matches Err(RequestError::ReceivedConnectReply),
    }
}

impl<C: Clone> Registry<C> {
    /// A server to which nobody listens yet.
    pub fn new() -> (registry: Registry<C>)
        ensures
            registry@ == Map::<Seq<char>, C>::empty(),
    {
        Registry { peers: StringHashMap::new() }
    }

    /// Handles a message that came over the connection `conn` from the address `remote`.
    pub fn on_message(&mut self, conn: C, remote: SocketAddr, message: Message) -> (response: Result<
        Response<C>,
        RequestError,
    >)
        ensures
            final(self)@ == peers_after(old(self)@, conn, message@),
            response_due(old(self)@, remote, message@, response),
    {
        match message {
            Message::Listen(id) => {
                self.peers.insert(id.into_string(), conn);
                Ok(Response::Reply(Message::Accepted(remote)))
            },
            Message::ConnectRequest(id) => match self.peers.get(id.as_str()) {
                Some(peer) => Ok(Response::Introduce { peer: peer.clone(), requester: remote }),
                None => Ok(Response::Reply(Message::ConnectReply(None))),
            },
            Message::Accepted(_) => Err(RequestError::ReceivedAccepted),
            Message::Incoming(_) => Err(RequestError::ReceivedIncoming),
            Message::ConnectReply(_) => Err(RequestError::ReceivedConnectReply),
        }
    }

    /// Handles a request, given the whole content of the stream that brought it.
    pub fn on_request(&mut self, conn: C, remote: SocketAddr, stream: &[u8]) -> (response: Result<
        Response<C>,
        RequestError,
    >)
        ensures
            match crate::message::received(stream@) {
                Some(message) => final(self)@ == peers_after(old(self)@, conn, message)
                    && response_due(old(self)@, remote, message, response),
                None => final(self)@ == old(self)@ && (response matches Err(RequestError::Message(err))
                    && crate::message::refused(stream@, err)),
            },
    {
        match Message::recv(stream) {
            Ok(message) => self.on_message(conn, remote, message),
            Err(err) => Err(RequestError::Message(err)),
        }
    }
}

/// Brings two clients together: `requester` is the address of the one that asked, `peer` the
/// address of the one that listens, at the time of the request. Each learns the other's.
pub fn introduce(requester: SocketAddr, peer: SocketAddr) -> (introduction: Introduction)
    ensures
        introduction.reply@ == MessageView::ConnectReply(Some(peer@)),
        introduction.knock@ == MessageView::Incoming(requester@),
        crate::rendevouz::resolved(crate::message::received(introduction.reply@.encoded())) == Some(
            Some(peer@.unscoped()),
        ),
        crate::rendevouz::news(
            AnnounceState::Listening,
            crate::message::received(introduction.knock@.encoded()),
        ) == Some(AnnounceReplyView::Knock { addr: requester@.unscoped(), peer_id: None }),
{
    proof {
        crate::addr::lemma_addr_view(requester, peer);
        crate::addr::lemma_addr_view(peer, requester);
        crate::message::law_short_message_arrives(MessageView::ConnectReply(Some(peer@)));
        crate::message::law_short_message_arrives(MessageView::Incoming(requester@));
    }
    Introduction {
        reply: Message::ConnectReply(Some(peer)),
        knock: Message::Incoming(requester),
    }
}

/// The listening peers after a history of messages, each with the connection it came over.
pub open spec fn peers_of<C>(history: Seq<(C, MessageView)>) -> Map<Seq<char>, C>
    decreases history.len(),
{
    if history.len() == 0 {
        Map::empty()
    } else {
        peers_after(peers_of(history.drop_last()), history.last().0, history.last().1)
    }
}

/// The position of the last message in the history by which somebody took the name `id`.
pub open spec fn is_last_listen<C>(history: Seq<(C, MessageView)>, id: Seq<char>, at: int) -> bool {
    &&& 0 <= at < history.len()
    &&& history[at].1 == MessageView::Listen(id)
    &&& forall|later: int|
        at < later < history.len() ==> #[trigger] history[later].1 != MessageView::Listen(id)
}

/// A name belongs to the connection that asked for it last, and to nobody if none ever did.
pub proof fn law_last_listener_owns_the_name<C>(history: Seq<(C, MessageView)>, id: Seq<char>)
    ensures
        peers_of(history).contains_key(id) <==> exists|at: int| is_last_listen(history, id, at),
        forall|at: int|
            is_last_listen(history, id, at) ==> peers_of(history)[id] == history[at].0,
    decreases history.len(),
{
    if history.len() > 0 {
        let earlier = history.drop_last();
        let end = history.len() - 1;
        law_last_listener_owns_the_name(earlier, id);
        if history.last().1 == MessageView::Listen(id) {
            assert(is_last_listen(history, id, end));
        } else {
            assert forall|at: int| is_last_listen(history, id, at) implies is_last_listen(
                earlier,
                id,
                at,
            ) by {
                assert forall|later: int| at < later < earlier.len() implies #[trigger] earlier[later].1
                    != MessageView::Listen(id) by {
                    assert(earlier[later] == history[later]);
                }
            }
            assert forall|at: int| is_last_listen(earlier, id, at) implies is_last_listen(
                history,
                id,
                at,
            ) by {
                assert forall|later: int| at < later < history.len() implies #[trigger] history[later].1
                    != MessageView::Listen(id) by {
                    if later < end {
                        assert(earlier[later] == history[later]);
                    }
                }
            }
        }
    }
}

/// What the server owes for each message, from whatever address it comes and whoever listens: a
/// client that listens is confirmed its own address; a client that asks is brought together with
/// the connection under that name, or told that there is none; all else is refused by its kind.
pub proof fn law_what_is_owed<C: Clone>(
    peers: Map<Seq<char>, C>,
    remote: SocketAddr,
    id: Seq<char>,
    addr: AddrView,
    found: Option<AddrView>,
    response: Result<Response<C>, RequestError>,
)
    ensures
        response_due(peers, remote, MessageView::Listen(id), response) ==> (response matches Ok(
            Response::Reply(reply),
        ) && reply@ == MessageView::Accepted(remote@)),
        response_due(peers, remote, MessageView::ConnectRequest(id), response)
            && peers.dom().contains(id) ==> (response matches Ok(
            Response::Introduce { peer, requester },
        ) && requester == remote && cloned(peers[id], peer)),
        response_due(peers, remote, MessageView::ConnectRequest(id), response)
            && !peers.dom().contains(id) ==> (response matches Ok(Response::Reply(reply)) && reply@
            == MessageView::ConnectReply(None)),
        response_due(peers, remote, MessageView::Accepted(addr), response) ==> response == Err::<
            Response<C>,
            RequestError,
        >(RequestError::ReceivedAccepted),
        response_due(peers, remote, MessageView::Incoming(addr), response) ==> response == Err::<
            Response<C>,
            RequestError,
        >(RequestError::ReceivedIncoming),
        response_due(peers, remote, MessageView::ConnectReply(found), response) ==> response
            == Err::<Response<C>, RequestError>(RequestError::ReceivedConnectReply),
{
}

/// Listening puts the connection under the name and touches no other name; no other message
/// touches any name.
pub proof fn law_who_is_listed<C>(
    peers: Map<Seq<char>, C>,
    conn: C,
    message: MessageView,
    name: Seq<char>,
)
    ensures
        ({
            let after = peers_after(peers, conn, message);
            &&& message == MessageView::Listen(name) ==> after.dom().contains(name) && after[name]
                == conn
            &&& message != MessageView::Listen(name) ==> (after.dom().contains(name)
                <==> peers.dom().contains(name))
            &&& message != MessageView::Listen(name) && peers.dom().contains(name) ==> after[name]
                == peers[name]
        }),
{
}

} // verus!
