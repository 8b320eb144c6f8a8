//! What holds of clients, server and messages together.
use crate::addr::{AddrView, SocketAddr};
use crate::message::MessageView;
use crate::rendevouz::{AnnounceReplyView, AnnounceState};
use crate::server::{RequestError, Response};
use vstd::prelude::*;
use vstd::utf8::encode_utf8;

verus! {

/// Announcing works: a client's announcement reaches the server as it was meant, the server lists
/// the client under its name with the connection it came over, and the client learns the address
/// at which the server sees it.
pub proof fn law_announcing<C>(
    peers: Map<Seq<char>, C>,
    conn: C,
    id: Seq<char>,
    listener: AddrView,
)
    requires
        encode_utf8(id).len() <= crate::message::max_peer_id_len(),
        listener.wf(),
    ensures
        crate::message::received(MessageView::Listen(id).encoded()) == Some(
            MessageView::Listen(id),
        ),
        crate::server::peers_after(peers, conn, MessageView::Listen(id)) == peers.insert(id, conn),
        crate::rendevouz::news(
            AnnounceState::Announced,
            crate::message::received(MessageView::Accepted(listener).encoded()),
        ) == Some(AnnounceReplyView::GlobalAddress(listener.unscoped())),
{
    crate::message::law_short_message_arrives(MessageView::Listen(id));
    crate::message::law_short_message_arrives(MessageView::Accepted(listener));
}

/// Introducing works: whoever asks the server for a name is given the address of the client that
/// took the name last, and that client is told the address of whoever asked.
///
/// `history` holds the messages that the server has handled, `at` the place of the one by which
/// the name was taken last. `peer` is the address of that client at the time of the request.
pub proof fn law_introducing<C: Clone>(
    history: Seq<(C, MessageView)>,
    at: int,
    id: Seq<char>,
    peer: AddrView,
    requester: SocketAddr,
    response: Result<Response<C>, RequestError>,
)
    requires
        encode_utf8(id).len() <= crate::message::max_peer_id_len(),
        crate::server::is_last_listen(history, id, at),
        peer.wf(),
        crate::server::response_due(
            crate::server::peers_of(history),
            requester,
            MessageView::ConnectRequest(id),
            response,
        ),
    ensures
        crate::message::received(MessageView::ConnectRequest(id).encoded()) == Some(
            MessageView::ConnectRequest(id),
        ),
        response matches Ok(Response::Introduce { peer: conn, requester: asking }) && cloned(
            history[at].0,
            conn,
        ) && asking == requester,
        crate::rendevouz::resolved(
            crate::message::received(MessageView::ConnectReply(Some(peer)).encoded()),
        ) == Some(Some(peer.unscoped())),
        crate::rendevouz::news(
            AnnounceState::Listening,
            crate::message::received(MessageView::Incoming(requester@).encoded()),
        ) == Some(AnnounceReplyView::Knock { addr: requester@.unscoped(), peer_id: None }),
{
    crate::message::law_short_message_arrives(MessageView::ConnectRequest(id));
    crate::message::law_short_message_arrives(MessageView::ConnectReply(Some(peer)));
    crate::addr::lemma_addr_view(requester, requester);
    crate::message::law_short_message_arrives(MessageView::Incoming(requester@));
    crate::server::law_last_listener_owns_the_name(history, id);
}

/// Whoever asks for a name that nobody has taken is told so.
pub proof fn law_unknown_peer<C: Clone>(
    history: Seq<(C, MessageView)>,
    id: Seq<char>,
    requester: SocketAddr,
    response: Result<Response<C>, RequestError>,
)
    requires
        forall|i: int| 0 <= i < history.len() ==> #[trigger] history[i].1 != MessageView::Listen(id),
        crate::server::response_due(
            crate::server::peers_of(history),
            requester,
            MessageView::ConnectRequest(id),
            response,
        ),
    ensures
        response matches Ok(Response::Reply(reply)) && reply@ == MessageView::ConnectReply(None),
        crate::rendevouz::resolved(
            crate::message::received(MessageView::ConnectReply(None).encoded()),
        ) == Some(None::<AddrView>),
{
    crate::server::law_last_listener_owns_the_name(history, id);
    crate::message::law_short_message_arrives(MessageView::ConnectReply(None));
}

/// A message that only the server sends makes it give the connection up, and leaves the list of
/// peers alone; so does asking for a name.
pub proof fn law_only_listening_changes_the_list<C: Clone>(
    peers: Map<Seq<char>, C>,
    conn: C,
    remote: SocketAddr,
    message: MessageView,
    response: Result<Response<C>, RequestError>,
)
    requires
        crate::server::response_due(peers, remote, message, response),
    ensures
        !(message is Listen) ==> crate::server::peers_after(peers, conn, message) == peers,
        response is Err <==> message is Accepted || message is Incoming || message is ConnectReply,
{
}

/// A client that listens learns its own address from the very answer that the server owes it,
/// whatever the address and the name are, and goes on listening.
pub proof fn law_listener_learns_its_address<C: Clone>(
    peers: Map<Seq<char>, C>,
    id: Seq<char>,
    remote: SocketAddr,
    response: Result<Response<C>, RequestError>,
)
    requires
        crate::server::response_due(peers, remote, MessageView::Listen(id), response),
    ensures
        response matches Ok(Response::Reply(reply)) && crate::rendevouz::news(
            AnnounceState::Announced,
            crate::message::received(reply@.encoded()),
        ) == Some(AnnounceReplyView::GlobalAddress(remote@.unscoped()))
            && crate::rendevouz::state_after(
            AnnounceState::Announced,
            crate::message::received(reply@.encoded()),
        ) == AnnounceState::Listening,
{
    crate::addr::lemma_addr_view(remote, remote);
    crate::message::law_short_message_arrives(MessageView::Accepted(remote@));
}

/// A client that asks for a name that nobody has is told so by the very answer that the server
/// owes it; where somebody has the name, the connection under it is the one that is brought
/// together with the client's own address.
pub proof fn law_asking_is_answered<C: Clone>(
    peers: Map<Seq<char>, C>,
    id: Seq<char>,
    remote: SocketAddr,
    response: Result<Response<C>, RequestError>,
)
    requires
        crate::server::response_due(peers, remote, MessageView::ConnectRequest(id), response),
    ensures
        !peers.dom().contains(id) ==> (response matches Ok(Response::Reply(reply))
            && crate::rendevouz::resolved(crate::message::received(reply@.encoded())) == Some(
            None::<AddrView>,
        )),
        peers.dom().contains(id) ==> (response matches Ok(Response::Introduce { peer, requester })
            && cloned(peers[id], peer) && requester == remote),
{
    crate::message::law_short_message_arrives(MessageView::ConnectReply(None));
}

} // verus!
