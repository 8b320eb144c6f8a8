//! The messages that clients and the rendevouz server exchange.
//!
//! Every message travels alone, as the whole content of one stream.
use crate::addr::{AddrView, SocketAddr};
use crate::peer::PeerId;
use crate::wire;
use crate::wire::{
    addr_from_bytes, addr_to_stdvec, from_wire, option_addr_from_bytes, option_addr_to_stdvec,
    take_index_from_bytes, text_from_bytes, text_to_stdvec, to_wire, WireAddr,
};
use vstd::prelude::*;

verus! {

/// The longest content of a stream that is read as a message, in bytes.
pub const MAX_STREAM_LEN: usize = 1024;

/// What a client or the server says to the other side.
#[derive(Debug)]
pub enum Message {
    /// A client asks to be reachable under a name.
    Listen(PeerId),
    /// The server confirms that, and tells the client its address as seen from outside.
    Accepted(SocketAddr),
    /// The server tells a listening client that somebody at this address wants to connect.
    Incoming(SocketAddr),
    /// A client asks for the address of a named peer.
    ConnectRequest(PeerId),
    /// The server answers with the address, or with nothing where the name is unknown.
    ConnectReply(Option<SocketAddr>),
}

/// The mathematical model of a [`Message`].
pub enum MessageView {
    Listen(Seq<char>),
    Accepted(AddrView),
    Incoming(AddrView),
    ConnectRequest(Seq<char>),
    ConnectReply(Option<AddrView>),
}

/// Why the content of a stream is no message.
#[derive(Debug)]
pub enum MessageError {
    /// The stream holds more than [`MAX_STREAM_LEN`] bytes.
    TooLong,
    /// The bytes are not laid out as a message.
    Codec(postcard::Error),
    /// The bytes begin with an index that belongs to no message.
    UnknownMessage(u32),
}

/// A message of another kind than the one that was due.
#[derive(Debug, Clone, Copy, PartialEq, Eq)]
pub struct InvalidMessage;

impl InvalidMessage {
    /// The error in words.
    pub fn text(&self) -> (text: &'static str)
        ensures
            text@ == "Invalid message"@,
    {
        "Invalid message"
    }
}

/// The model of an address that may be missing.
pub open spec fn option_addr_view(addr: Option<SocketAddr>) -> Option<AddrView> {
    match addr {
        Some(addr) => Some(addr@),
        None => None,
    }
}

impl View for Message {
    type V = MessageView;

    open spec fn view(&self) -> MessageView {
        match *self {
            Message::Listen(id) => MessageView::Listen(id@),
            Message::Accepted(addr) => MessageView::Accepted(addr@),
            Message::Incoming(addr) => MessageView::Incoming(addr@),
            Message::ConnectRequest(id) => MessageView::ConnectRequest(id@),
            Message::ConnectReply(addr) => MessageView::ConnectReply(option_addr_view(addr)),
        }
    }
}

impl MessageView {
    /// The addresses in the message are well formed.
    pub open spec fn wf(self) -> bool {
        match self {
            MessageView::Accepted(addr) => addr.wf(),
            MessageView::Incoming(addr) => addr.wf(),
            MessageView::ConnectReply(Some(addr)) => addr.wf(),
            _ => true,
        }
    }

    /// The message as it arrives: its addresses have lost flow information and scope.
    pub open spec fn unscoped(self) -> MessageView {
        match self {
            MessageView::Accepted(addr) => MessageView::Accepted(addr.unscoped()),
            MessageView::Incoming(addr) => MessageView::Incoming(addr.unscoped()),
            MessageView::ConnectReply(Some(addr)) => MessageView::ConnectReply(
                Some(addr.unscoped()),
            ),
            other => other,
        }
    }

    /// The bytes of the message: its index, then its content.
    pub open spec fn encoded(self) -> Seq<u8> {
        match self {
            MessageView::Listen(id) => wire::varint(0) + wire::text_bytes(id),
            MessageView::Accepted(addr) => wire::varint(1) + wire::addr_bytes(addr),
            MessageView::Incoming(addr) => wire::varint(2) + wire::addr_bytes(addr),
            MessageView::ConnectRequest(id) => wire::varint(3) + wire::text_bytes(id),
            MessageView::ConnectReply(addr) => wire::varint(4)
                + wire::option_addr_bytes(addr),
        }
    }
}

/// The number of kinds of messages: their indices are the numbers below it.
pub open spec fn message_kinds() -> nat {
    5
}

/// The content of the message with the given index, read from the bytes behind that index.
pub open spec fn decoded_content(index: nat, bytes: Seq<u8>) -> Option<MessageView> {
    if index == 0 {
        match wire::read_text(bytes) {
            Some(id) => Some(MessageView::Listen(id)),
            None => None,
        }
    } else if index == 1 {
        match wire::read_addr(bytes) {
            Some(addr) => Some(MessageView::Accepted(addr)),
            None => None,
        }
    } else if index == 2 {
        match wire::read_addr(bytes) {
            Some(addr) => Some(MessageView::Incoming(addr)),
            None => None,
        }
    } else if index == 3 {
        match wire::read_text(bytes) {
            Some(id) => Some(MessageView::ConnectRequest(id)),
            None => None,
        }
    } else if index == 4 {
        match wire::read_option_addr(bytes) {
            Some(addr) => Some(MessageView::ConnectReply(addr)),
            None => None,
        }
    } else {
        None
    }
}

/// The index at the front of the bytes, if it belongs to no message.
pub open spec fn unknown_index(bytes: Seq<u8>) -> Option<nat> {
    match wire::take_varint(bytes, wire::limit_u32()) {
        Some((index, _)) => if index >= message_kinds() {
            Some(index)
        } else {
            None
        },
        None => None,
    }
}

/// The message at the front of the bytes. What follows the message is ignored.
pub open spec fn decoded(bytes: Seq<u8>) -> Option<MessageView> {
    match wire::take_varint(bytes, wire::limit_u32()) {
        Some((index, rest)) => decoded_content(index, rest),
        None => None,
    }
}

/// The message that a stream with this content brings.
pub open spec fn received(stream: Seq<u8>) -> Option<MessageView> {
    if stream.len() <= MAX_STREAM_LEN {
        decoded(stream)
    } else {
        None
    }
}

/// `err` is the reason for which a stream with this content brings no message.
pub open spec fn refused(stream: Seq<u8>, err: MessageError) -> bool {
    match err {
        MessageError::TooLong => stream.len() > MAX_STREAM_LEN,
        MessageError::UnknownMessage(index) => stream.len() <= MAX_STREAM_LEN && unknown_index(
            stream,
        ) == Some(index as nat),
        MessageError::Codec(_) => stream.len() <= MAX_STREAM_LEN && decoded(stream) is None
            && unknown_index(stream) is None,
    }
}

fn option_to_wire(addr: &Option<SocketAddr>) -> (wire: Option<WireAddr>)
    ensures
        wire::option_wire_view(wire) == (match option_addr_view(*addr) {
            Some(addr) => Some(addr.unscoped()),
            None => None,
        }),
{
    match addr {
        Some(addr) => Some(to_wire(addr)),
        None => None,
    }
}

impl Message {
    /// The bytes to write to a stream in order to send the message.
    pub fn encode(&self) -> (bytes: Result<Vec<u8>, postcard::Error>)
        ensures
            bytes is Ok,
            bytes->Ok_0@ == self@.encoded(),
    {
        match self {
            Message::Listen(id) => text_to_stdvec(0, id.as_str()),
            Message::Accepted(addr) => addr_to_stdvec(1, &to_wire(addr)),
            Message::Incoming(addr) => addr_to_stdvec(2, &to_wire(addr)),
            Message::ConnectRequest(id) => text_to_stdvec(3, id.as_str()),
            Message::ConnectReply(addr) => option_addr_to_stdvec(4, &option_to_wire(addr)),
        }
    }

    /// Reads the message that a stream brought, given the whole content of the stream.
    pub fn recv(stream: &[u8]) -> (message: Result<Message, MessageError>)
        ensures
            match message {
                Ok(message) => received(stream@) == Some(message@) && message@.wf(),
                Err(err) => received(stream@) is None && refused(stream@, err),
            },
    {
        if stream.len() > MAX_STREAM_LEN {
            return Err(MessageError::TooLong);
        }
        let (index, content) = match take_index_from_bytes(stream) {
            Ok(taken) => taken,
            Err(err) => {
                return Err(MessageError::Codec(err));
            },
        };
        if index == 0 || index == 3 {
            match text_from_bytes(content) {
                Ok(text) => {
                    let id: PeerId = PeerId::from(text);
                    if index == 0 {
                        Ok(Message::Listen(id))
                    } else {
                        Ok(Message::ConnectRequest(id))
                    }
                },
                Err(err) => Err(MessageError::Codec(err)),
            }
        } else if index == 1 || index == 2 {
            match addr_from_bytes(content) {
                Ok(wire) => {
                    let addr = from_wire(wire);
                    if index == 1 {
                        Ok(Message::Accepted(addr))
                    } else {
                        Ok(Message::Incoming(addr))
                    }
                },
                Err(err) => Err(MessageError::Codec(err)),
            }
        } else if index == 4 {
            match option_addr_from_bytes(content) {
                Ok(Some(wire)) => Ok(Message::ConnectReply(Some(from_wire(wire)))),
                Ok(None) => Ok(Message::ConnectReply(None)),
                Err(err) => Err(MessageError::Codec(err)),
            }
        } else {
            Err(MessageError::UnknownMessage(index))
        }
    }

    /// The answer to a [`Message::ConnectRequest`]; every other message is an error.
    pub fn as_connect_reply(self) -> (addr: Result<Option<SocketAddr>, InvalidMessage>)
        ensures
            addr == (match self {
                Message::ConnectReply(addr) => Ok(addr),
                _ => Err(InvalidMessage),
            }),
    {
        match self {
            Message::ConnectReply(addr) => Ok(addr),
            _ => Err(InvalidMessage),
        }
    }

    /// The answer to a [`Message::Listen`]; every other message is an error.
    pub fn as_accepted(self) -> (addr: Result<SocketAddr, InvalidMessage>)
        ensures
            addr == (match self {
                Message::Accepted(addr) => Ok(addr),
                _ => Err(InvalidMessage),
            }),
    {
        match self {
            Message::Accepted(addr) => Ok(addr),
            _ => Err(InvalidMessage),
        }
    }

    /// The address of somebody who wants to connect; every other message is an error.
    pub fn as_incoming(self) -> (addr: Result<SocketAddr, InvalidMessage>)
        ensures
            addr == (match self {
                Message::Incoming(addr) => Ok(addr),
                _ => Err(InvalidMessage),
            }),
    {
        match self {
            Message::Incoming(addr) => Ok(addr),
            _ => Err(InvalidMessage),
        }
    }
}

proof fn lemma_decoded_index(index: nat, content: Seq<u8>, rest: Seq<u8>)
    requires
        index < 128,
    ensures
        decoded(wire::varint(index) + content + rest) == decoded_content(index, content + rest),
{
    let bytes = wire::varint(index) + content + rest;
    assert(bytes[0] == index);
    assert(bytes.skip(1) =~= content + rest);
}

/// Whatever message was written is read back from its bytes, with any bytes behind them; only
/// flow information and scope of IPv6 addresses are lost.
pub proof fn law_decode_inverts_encode(message: MessageView, rest: Seq<u8>)
    requires
        message.wf(),
        message.encoded().len() <= usize::MAX,
    ensures
        decoded(message.encoded() + rest) == Some(message.unscoped()),
{
    match message {
        MessageView::Listen(id) => {
            lemma_decoded_index(0, wire::text_bytes(id), rest);
            wire::lemma_text_round_trip(id, rest);
        },
        MessageView::Accepted(addr) => {
            lemma_decoded_index(1, wire::addr_bytes(addr), rest);
            wire::lemma_addr_round_trip(addr, rest);
        },
        MessageView::Incoming(addr) => {
            lemma_decoded_index(2, wire::addr_bytes(addr), rest);
            wire::lemma_addr_round_trip(addr, rest);
        },
        MessageView::ConnectRequest(id) => {
            lemma_decoded_index(3, wire::text_bytes(id), rest);
            wire::lemma_text_round_trip(id, rest);
        },
        MessageView::ConnectReply(addr) => {
            lemma_decoded_index(4, wire::option_addr_bytes(addr), rest);
            wire::lemma_option_addr_round_trip(addr, rest);
        },
    }
}

/// A message that was sent arrives unless its bytes exceed the limit of a stream.
pub proof fn law_sent_message_arrives(message: MessageView)
    requires
        message.wf(),
    ensures
        message.encoded().len() <= MAX_STREAM_LEN ==> received(message.encoded()) == Some(
            message.unscoped(),
        ),
        message.encoded().len() > MAX_STREAM_LEN ==> received(message.encoded()) is None,
{
    if message.encoded().len() <= MAX_STREAM_LEN {
        law_decode_inverts_encode(message, Seq::empty());
        assert(message.encoded() + Seq::<u8>::empty() =~= message.encoded());
    }
}

/// The longest peer id that fits in a message, in bytes of UTF-8.
pub open spec fn max_peer_id_len() -> nat {
    1021
}

/// The peer id, if any, that the message carries.
pub open spec fn carried_id(message: MessageView) -> Option<Seq<char>> {
    match message {
        MessageView::Listen(id) => Some(id),
        MessageView::ConnectRequest(id) => Some(id),
        _ => None,
    }
}

/// A message fits in a stream unless it carries a peer id of more than 1021 bytes.
pub proof fn law_only_long_ids_do_not_fit(message: MessageView)
    requires
        message.wf(),
    ensures
        message.encoded().len() <= MAX_STREAM_LEN <==> (carried_id(message) matches Some(id)
            ==> vstd::utf8::encode_utf8(id).len() <= max_peer_id_len()),
{
    wire::lemma_varint_len(0);
    wire::lemma_varint_len(1);
    wire::lemma_varint_len(2);
    wire::lemma_varint_len(3);
    wire::lemma_varint_len(4);
    match message {
        MessageView::Listen(id) => {
            wire::lemma_varint_len(vstd::utf8::encode_utf8(id).len());
        },
        MessageView::ConnectRequest(id) => {
            wire::lemma_varint_len(vstd::utf8::encode_utf8(id).len());
        },
        MessageView::Accepted(addr) => lemma_addr_len(addr),
        MessageView::Incoming(addr) => lemma_addr_len(addr),
        MessageView::ConnectReply(Some(addr)) => lemma_addr_len(addr),
        MessageView::ConnectReply(None) => {},
    }
}

/// Every message arrives but for one that carries a peer id of more than 1021 bytes.
pub proof fn law_short_message_arrives(message: MessageView)
    requires
        message.wf(),
        carried_id(message) matches Some(id) ==> vstd::utf8::encode_utf8(id).len()
            <= max_peer_id_len(),
    ensures
        received(message.encoded()) == Some(message.unscoped()),
{
    law_only_long_ids_do_not_fit(message);
    law_sent_message_arrives(message);
}

proof fn lemma_addr_len(addr: AddrView)
    requires
        addr.wf(),
    ensures
        wire::addr_bytes(addr).len() <= 20,
{
    match addr {
        AddrView::V4 { port, .. } => wire::lemma_varint_len(port as nat),
        AddrView::V6 { port, .. } => wire::lemma_varint_len(port as nat),
    }
}

/// Two messages with the same bytes differ at most in what does not travel.
pub proof fn law_bytes_determine_message(one: MessageView, other: MessageView)
    requires
        one.wf(),
        other.wf(),
        one.encoded() == other.encoded(),
        one.encoded().len() <= usize::MAX,
    ensures
        one.unscoped() == other.unscoped(),
{
    law_decode_inverts_encode(one, Seq::empty());
    law_decode_inverts_encode(other, Seq::empty());
}

/// The model of a message says what it holds, and its addresses are well formed.
pub proof fn law_message_model(message: Message)
    ensures
        message@.wf(),
        message matches Message::Listen(id) ==> message@ == MessageView::Listen(id@),
        message matches Message::Accepted(addr) ==> message@ == MessageView::Accepted(addr@),
        message matches Message::Incoming(addr) ==> message@ == MessageView::Incoming(addr@),
        message matches Message::ConnectRequest(id) ==> message@ == MessageView::ConnectRequest(id@),
        message matches Message::ConnectReply(Some(addr)) ==> message@ == MessageView::ConnectReply(
            Some(addr@),
        ),
        message matches Message::ConnectReply(None) ==> message@ == MessageView::ConnectReply(None),
{
}

/// Byte for byte, how messages are laid out: the index of the kind; then the length and the UTF-8
/// of a name, or the family, the octets and the port of an address; an address that may be missing
/// has a byte before it that says whether it is there.
pub proof fn law_layout(
    id: Seq<char>,
    ip: Seq<u8>,
    port: u16,
    flowinfo: u32,
    scope_id: u32,
)
    ensures
        ({
            let utf8 = vstd::utf8::encode_utf8(id);
            let name = wire::varint(utf8.len()) + utf8;
            let v4 = AddrView::V4 { ip, port };
            let v6 = AddrView::V6 { ip, port, flowinfo, scope_id };
            let tail = ip + wire::varint(port as nat);
            &&& MessageView::Listen(id).encoded() == seq![0u8] + name
            &&& MessageView::ConnectRequest(id).encoded() == seq![3u8] + name
            &&& MessageView::Accepted(v4).encoded() == seq![1u8, 0] + tail
            &&& MessageView::Accepted(v6).encoded() == seq![1u8, 1] + tail
            &&& MessageView::Incoming(v4).encoded() == seq![2u8, 0] + tail
            &&& MessageView::Incoming(v6).encoded() == seq![2u8, 1] + tail
            &&& MessageView::ConnectReply(None).encoded() == seq![4u8, 0]
            &&& MessageView::ConnectReply(Some(v4)).encoded() == seq![4u8, 1, 0] + tail
            &&& MessageView::ConnectReply(Some(v6)).encoded() == seq![4u8, 1, 1] + tail
        }),
{
    let utf8 = vstd::utf8::encode_utf8(id);
    let name = wire::varint(utf8.len()) + utf8;
    let v4 = AddrView::V4 { ip, port };
    let v6 = AddrView::V6 { ip, port, flowinfo, scope_id };
    let tail = ip + wire::varint(port as nat);
    assert(MessageView::Listen(id).encoded() =~= seq![0u8] + name);
    assert(MessageView::ConnectRequest(id).encoded() =~= seq![3u8] + name);
    assert(MessageView::Accepted(v4).encoded() =~= seq![1u8, 0] + tail);
    assert(MessageView::Accepted(v6).encoded() =~= seq![1u8, 1] + tail);
    assert(MessageView::Incoming(v4).encoded() =~= seq![2u8, 0] + tail);
    assert(MessageView::Incoming(v6).encoded() =~= seq![2u8, 1] + tail);
    assert(MessageView::ConnectReply(None).encoded() =~= seq![4u8, 0]);
    assert(MessageView::ConnectReply(Some(v4)).encoded() =~= seq![4u8, 1, 0] + tail);
    assert(MessageView::ConnectReply(Some(v6)).encoded() =~= seq![4u8, 1, 1] + tail);
}

/// A stream of at most 1024 bytes brings a message exactly where it begins with the index of that
/// kind, however it is spelled, and what the message holds follows; a longer one brings none.
pub proof fn law_what_a_stream_brings(stream: Seq<u8>, id: Seq<char>, addr: AddrView)
    ensures
        stream.len() > 1024 ==> received(stream) is None,
        stream.len() <= 1024 ==> match wire::take_varint(stream, wire::limit_u32()) {
            Some((index, content)) => {
                &&& received(stream) == Some(MessageView::Listen(id)) <==> index == 0
                    && wire::read_text(content) == Some(id)
                &&& received(stream) == Some(MessageView::Accepted(addr)) <==> index == 1
                    && wire::read_addr(content) == Some(addr)
                &&& received(stream) == Some(MessageView::Incoming(addr)) <==> index == 2
                    && wire::read_addr(content) == Some(addr)
                &&& received(stream) == Some(MessageView::ConnectRequest(id)) <==> index == 3
                    && wire::read_text(content) == Some(id)
                &&& received(stream) == Some(MessageView::ConnectReply(Some(addr))) <==> index == 4
                    && wire::read_option_addr(content) == Some(Some(addr))
                &&& received(stream) == Some(MessageView::ConnectReply(None)) <==> index == 4
                    && wire::read_option_addr(content) == Some(None::<AddrView>)
            },
            None => received(stream) is None,
        },
{
}

/// A stream is refused for exactly one reason where it brings no message, and for none where it
/// brings one: it is too long; or it begins with an index from 5 on, which is told; or its bytes
/// are not laid out as a message.
pub proof fn law_reasons_to_refuse(stream: Seq<u8>, err: MessageError)
    ensures
        refused(stream, err) ==> received(stream) is None,
        err is TooLong ==> (refused(stream, err) <==> stream.len() > 1024),
        err matches MessageError::UnknownMessage(told) ==> (refused(stream, err) <==> stream.len()
            <= 1024 && (wire::take_varint(stream, wire::limit_u32()) matches Some((index, _))
            && index >= 5 && index == told)),
        err is Codec ==> (refused(stream, err) <==> stream.len() <= 1024 && received(stream) is None
            && !(wire::take_varint(stream, wire::limit_u32()) matches Some((index, _)) && index
            >= 5)),
{
}

} // verus!
