//! The bytes of a message: how the `postcard` crate lays plain values out, and the calls into it.
//!
//! A message is an index followed by one payload. Each function here that reaches `postcard` does
//! so on plain values of std, whose layout is stated by the spec functions of this module: the
//! index of a message is an unsigned number, a peer id is text, and an address is a choice of two
//! pairs.
use crate::addr::{AddrView, SocketAddr};
use vstd::prelude::*;
use vstd::utf8::{decode_utf8, encode_utf8, valid_utf8};

verus! {

/// An address as it is laid out in a message: the first choice is IPv4, the second IPv6.
pub type WireAddr = Result<([u8; 4], u16), ([u8; 16], u16)>;

/// Why `postcard` could not read or write a value.
#[verifier::external_type_specification]
#[verifier::external_body]
pub struct ExPostcardError(postcard::Error);

/// A number below this limit fits in 16 bits.
pub open spec fn limit_u16() -> nat {
    0x1_0000
}

/// A number below this limit fits in 32 bits.
pub open spec fn limit_u32() -> nat {
    0x1_0000_0000
}

/// A number below this limit fits in a machine word.
pub open spec fn limit_usize() -> nat {
    (usize::MAX + 1) as nat
}

/// The bytes of an unsigned number: seven bits per byte, the lowest first, with the high bit set
/// in every byte but the last.
pub open spec fn varint(n: nat) -> Seq<u8>
    decreases n,
{
    if n < 128 {
        seq![n as u8]
    } else {
        seq![(n % 128 + 128) as u8] + varint(n / 128)
    }
}

/// The unsigned number below `limit` at the front of `bytes`, and the bytes behind it.
///
/// There is none where the bytes end early or where the number needs more bits than `limit` has.
pub open spec fn take_varint(bytes: Seq<u8>, limit: nat) -> Option<(nat, Seq<u8>)>
    decreases bytes.len(),
{
    if bytes.len() == 0 {
        None
    } else if bytes[0] < 128 {
        if bytes[0] < limit {
            Some((bytes[0] as nat, bytes.skip(1)))
        } else {
            None
        }
    } else if limit <= 128 {
        None
    } else {
        match take_varint(bytes.skip(1), limit / 128) {
            Some((high, rest)) => Some(((bytes[0] - 128 + 128 * high) as nat, rest)),
            None => None,
        }
    }
}

/// The bytes of a text: its length in UTF-8, then the UTF-8 itself.
pub open spec fn text_bytes(text: Seq<char>) -> Seq<u8> {
    varint(encode_utf8(text).len()) + encode_utf8(text)
}

/// The text at the front of `bytes`, if there is one.
pub open spec fn read_text(bytes: Seq<u8>) -> Option<Seq<char>> {
    match take_varint(bytes, limit_usize()) {
        Some((len, rest)) => if len <= rest.len() && valid_utf8(rest.take(len as int)) {
            Some(decode_utf8(rest.take(len as int)))
        } else {
            None
        },
        None => None,
    }
}

/// The bytes of an address: which family it is of, its octets, its port. The flow information and
/// the scope of an IPv6 address are left out.
pub open spec fn addr_bytes(addr: AddrView) -> Seq<u8> {
    match addr {
        AddrView::V4 { ip, port } => seq![0u8] + ip + varint(port as nat),
        AddrView::V6 { ip, port, .. } => seq![1u8] + ip + varint(port as nat),
    }
}

/// The `len` octets and the port at the front of `bytes`.
pub open spec fn read_ip_and_port(bytes: Seq<u8>, len: nat) -> Option<(Seq<u8>, u16)> {
    if bytes.len() < len {
        None
    } else {
        match take_varint(bytes.skip(len as int), limit_u16()) {
            Some((port, _)) => Some((bytes.take(len as int), port as u16)),
            None => None,
        }
    }
}

/// The address at the front of `bytes`, if there is one.
pub open spec fn read_addr(bytes: Seq<u8>) -> Option<AddrView> {
    match take_varint(bytes, limit_u32()) {
        Some((family, rest)) => if family == 0 {
            match read_ip_and_port(rest, 4) {
                Some((ip, port)) => Some(AddrView::V4 { ip, port }),
                None => None,
            }
        } else if family == 1 {
            match read_ip_and_port(rest, 16) {
                Some((ip, port)) => Some(AddrView::V6 { ip, port, flowinfo: 0, scope_id: 0 }),
                None => None,
            }
        } else {
            None
        },
        None => None,
    }
}

/// The bytes of an address that may be missing: one byte that says whether it is there, then the
/// address.
pub open spec fn option_addr_bytes(addr: Option<AddrView>) -> Seq<u8> {
    match addr {
        Some(addr) => seq![1u8] + addr_bytes(addr),
        None => seq![0u8],
    }
}

/// The address that may be missing at the front of `bytes`; `None` where the bytes hold neither.
pub open spec fn read_option_addr(bytes: Seq<u8>) -> Option<Option<AddrView>> {
    if bytes.len() == 0 {
        None
    } else if bytes[0] == 0 {
        Some(None)
    } else if bytes[0] == 1 {
        match read_addr(bytes.skip(1)) {
            Some(addr) => Some(Some(addr)),
            None => None,
        }
    } else {
        None
    }
}

/// The address that a [`WireAddr`] stands for.
pub open spec fn wire_view(addr: WireAddr) -> AddrView {
    match addr {
        Ok((ip, port)) => AddrView::V4 { ip: ip@, port },
        Err((ip, port)) => AddrView::V6 { ip: ip@, port, flowinfo: 0, scope_id: 0 },
    }
}

/// The address that a [`WireAddr`] that may be missing stands for.
pub open spec fn option_wire_view(addr: Option<WireAddr>) -> Option<AddrView> {
    match addr {
        Some(addr) => Some(wire_view(addr)),
        None => None,
    }
}

/// Calls `postcard::to_stdvec` on the pair of a number and a text.
///
/// Taken on trust: the call succeeds, and its result is the number as a `u32` varint followed by
/// the length of the text as a varint and the text in UTF-8.
#[verifier::external_body]
pub(crate) fn text_to_stdvec(index: u32, text: &str) -> (bytes: Result<Vec<u8>, postcard::Error>)
    ensures
        bytes is Ok,
        bytes->Ok_0@ == varint(index as nat) + text_bytes(text@),
{
    postcard::to_stdvec(&(index, text))
}

/// Calls `postcard::to_stdvec` on the pair of a number and an address.
///
/// Taken on trust: the call succeeds, and its result is the number as a `u32` varint followed by
/// the index of the choice, the octets as they are, and the port as a varint.
#[verifier::external_body]
pub(crate) fn addr_to_stdvec(index: u32, addr: &WireAddr) -> (bytes: Result<
    Vec<u8>,
    postcard::Error,
>)
    ensures
        bytes is Ok,
        bytes->Ok_0@ == varint(index as nat) + addr_bytes(wire_view(*addr)),
{
    postcard::to_stdvec(&(index, addr))
}

/// Calls `postcard::to_stdvec` on the pair of a number and an address that may be missing.
///
/// Taken on trust: the call succeeds, and its result is the number as a `u32` varint followed by
/// one byte, 0 where there is no address and 1 where the address follows.
#[verifier::external_body]
pub(crate) fn option_addr_to_stdvec(index: u32, addr: &Option<WireAddr>) -> (bytes: Result<
    Vec<u8>,
    postcard::Error,
>)
    ensures
        bytes is Ok,
        bytes->Ok_0@ == varint(index as nat) + option_addr_bytes(option_wire_view(*addr)),
{
    postcard::to_stdvec(&(index, addr))
}

/// Calls `postcard::take_from_bytes` for a number of 32 bits.
///
/// Taken on trust: the call reads a varint of at most 32 bits from the front and hands back the
/// bytes behind it, and it fails exactly where there is no such varint.
#[verifier::external_body]
pub(crate) fn take_index_from_bytes(bytes: &[u8]) -> (taken: Result<(u32, &[u8]), postcard::Error>)
    ensures
        match take_varint(bytes@, limit_u32()) {
            Some((index, rest)) => taken matches Ok((i, r)) && i == index && r@ == rest,
            None => taken is Err,
        },
{
    postcard::take_from_bytes(bytes)
}

/// Calls `postcard::from_bytes` for a text.
///
/// Taken on trust: the call reads a length as a varint of the width of a machine word and as many
/// bytes behind it, which must be UTF-8; it ignores what follows, and it fails exactly where the
/// bytes do not begin with a text.
#[verifier::external_body]
pub(crate) fn text_from_bytes(bytes: &[u8]) -> (text: Result<String, postcard::Error>)
    ensures
        match read_text(bytes@) {
            Some(read) => text matches Ok(t) && t@ == read,
            None => text is Err,
        },
{
    postcard::from_bytes(bytes)
}

/// Calls `postcard::from_bytes` for an address.
///
/// Taken on trust: the call reads the index of the choice as a `u32` varint, the octets, and the
/// port as a `u16` varint; it ignores what follows, and it fails exactly where the bytes do not
/// begin with an address.
#[verifier::external_body]
pub(crate) fn addr_from_bytes(bytes: &[u8]) -> (addr: Result<WireAddr, postcard::Error>)
    ensures
        match read_addr(bytes@) {
            Some(read) => addr matches Ok(a) && wire_view(a) == read,
            None => addr is Err,
        },
{
    postcard::from_bytes(bytes)
}

/// Calls `postcard::from_bytes` for an address that may be missing.
///
/// Taken on trust: the call reads one byte, 0 for no address and 1 for the address that follows;
/// it ignores what is behind, and it fails exactly on any other byte, on none, or where no address
/// follows the 1.
#[verifier::external_body]
pub(crate) fn option_addr_from_bytes(bytes: &[u8]) -> (addr: Result<
    Option<WireAddr>,
    postcard::Error,
>)
    ensures
        match read_option_addr(bytes@) {
            Some(read) => addr matches Ok(a) && option_wire_view(a) == read,
            None => addr is Err,
        },
{
    postcard::from_bytes(bytes)
}

/// Lays an address out for a message, without flow information and scope.
pub(crate) fn to_wire(addr: &SocketAddr) -> (wire: WireAddr)
    ensures
        wire_view(wire) == addr@.unscoped(),
{
    match *addr {
        SocketAddr::V4 { ip, port } => Ok((ip, port)),
        SocketAddr::V6 { ip, port, .. } => Err((ip, port)),
    }
}

/// Turns an address that came in a message back into a socket address.
pub(crate) fn from_wire(wire: WireAddr) -> (addr: SocketAddr)
    ensures
        addr@ == wire_view(wire),
{
    match wire {
        Ok((ip, port)) => SocketAddr::V4 { ip, port },
        Err((ip, port)) => SocketAddr::V6 { ip, port, flowinfo: 0, scope_id: 0 },
    }
}

/// The limit belongs to an integer type: dividing by 128 as often as possible leaves no remainder
/// on the way.
pub open spec fn is_width(limit: nat) -> bool
    decreases limit,
{
    limit <= 128 || (limit % 128 == 0 && is_width(limit / 128))
}

proof fn lemma_widths()
    ensures
        is_width(limit_u16()),
        is_width(limit_u32()),
        is_width(limit_usize()),
{
    reveal_with_fuel(is_width, 11);
}

/// A number that was written is read back, whatever follows it.
pub proof fn lemma_varint_round_trip(n: nat, limit: nat, rest: Seq<u8>)
    requires
        n < limit,
        is_width(limit),
    ensures
        take_varint(varint(n) + rest, limit) == Some((n, rest)),
    decreases n,
{
    let bytes = varint(n) + rest;
    if n < 128 {
        assert(bytes.skip(1) =~= rest);
    } else {
        assert(n / 128 < limit / 128);
        lemma_varint_round_trip(n / 128, limit / 128, rest);
        assert(bytes.skip(1) =~= varint(n / 128) + rest);
    }
}

/// A text that was written is read back, whatever follows it.
pub proof fn lemma_text_round_trip(text: Seq<char>, rest: Seq<u8>)
    requires
        encode_utf8(text).len() <= usize::MAX,
    ensures
        read_text(text_bytes(text) + rest) == Some(text),
{
    let utf8 = encode_utf8(text);
    lemma_widths();
    assert(text_bytes(text) + rest =~= varint(utf8.len()) + (utf8 + rest));
    lemma_varint_round_trip(utf8.len(), limit_usize(), utf8 + rest);
    assert((utf8 + rest).take(utf8.len() as int) =~= utf8);
    vstd::utf8::encode_utf8_valid_utf8(text);
    vstd::utf8::encode_utf8_decode_utf8(text);
}

proof fn lemma_ip_and_port_round_trip(ip: Seq<u8>, port: u16, rest: Seq<u8>)
    ensures
        read_ip_and_port(ip + varint(port as nat) + rest, ip.len()) == Some((ip, port)),
{
    let bytes = ip + varint(port as nat) + rest;
    lemma_widths();
    assert(bytes.take(ip.len() as int) =~= ip);
    assert(bytes.skip(ip.len() as int) =~= varint(port as nat) + rest);
    lemma_varint_round_trip(port as nat, limit_u16(), rest);
}

/// An address that was written is read back without its scope, whatever follows it.
pub proof fn lemma_addr_round_trip(addr: AddrView, rest: Seq<u8>)
    requires
        addr.wf(),
    ensures
        read_addr(addr_bytes(addr) + rest) == Some(addr.unscoped()),
{
    let bytes = addr_bytes(addr) + rest;
    match addr {
        AddrView::V4 { ip, port } => {
            assert(bytes.skip(1) =~= ip + varint(port as nat) + rest);
            lemma_ip_and_port_round_trip(ip, port, rest);
        },
        AddrView::V6 { ip, port, .. } => {
            assert(bytes.skip(1) =~= ip + varint(port as nat) + rest);
            lemma_ip_and_port_round_trip(ip, port, rest);
        },
    }
}

/// An address that may be missing is read back without its scope, whatever follows it.
pub proof fn lemma_option_addr_round_trip(addr: Option<AddrView>, rest: Seq<u8>)
    requires
        addr matches Some(addr) ==> addr.wf(),
    ensures
        read_option_addr(option_addr_bytes(addr) + rest) == Some(
            match addr {
                Some(addr) => Some(addr.unscoped()),
                None => None,
            },
        ),
{
    let bytes = option_addr_bytes(addr) + rest;
    if let Some(addr) = addr {
        assert(bytes.skip(1) =~= addr_bytes(addr) + rest);
        lemma_addr_round_trip(addr, rest);
    }
}

/// How many bytes small numbers take, and large ones at least.
pub proof fn lemma_varint_len(n: nat)
    ensures
        n < 128 ==> varint(n).len() == 1,
        128 <= n < 0x4000 ==> varint(n).len() == 2,
        0x4000 <= n < 0x20_0000 ==> varint(n).len() == 3,
        0x20_0000 <= n ==> varint(n).len() >= 4,
{
    reveal_with_fuel(varint, 4);
}

/// The shortest spelling of numbers that take up to three bytes: every port, and the length of
/// every text that fits in a stream.
pub proof fn law_small_numbers(n: nat)
    ensures
        n < 128 ==> varint(n) == seq![n as u8],
        128 <= n < 0x4000 ==> varint(n) == seq![(n % 128 + 128) as u8, (n / 128) as u8],
        0x4000 <= n < 0x20_0000 ==> varint(n) == seq![
            (n % 128 + 128) as u8,
            (n / 128 % 128 + 128) as u8,
            (n / 0x4000) as u8,
        ],
{
    reveal_with_fuel(varint, 3);
    if 128 <= n < 0x4000 {
        assert(varint(n) =~= seq![(n % 128 + 128) as u8, (n / 128) as u8]);
    } else if 0x4000 <= n < 0x20_0000 {
        assert(n / 128 / 128 == n / 0x4000);
        assert(varint(n) =~= seq![
            (n % 128 + 128) as u8,
            (n / 128 % 128 + 128) as u8,
            (n / 0x4000) as u8,
        ]);
    }
}

/// An address as it is laid out stands for the address with the same octets and port.
pub proof fn law_wire_model(v4: ([u8; 4], u16), v6: ([u8; 16], u16), addr: WireAddr)
    ensures
        wire_view(Ok(v4)) == (AddrView::V4 { ip: v4.0@, port: v4.1 }),
        wire_view(Err(v6)) == (AddrView::V6 {
            ip: v6.0@,
            port: v6.1,
            flowinfo: 0,
            scope_id: 0,
        }),
        option_wire_view(Some(addr)) == Some(wire_view(addr)),
        option_wire_view(None) is None,
{
}

} // verus!
