//! Addresses of peers, as plain values.
use vstd::prelude::*;

verus! {

/// An internet socket address: the octets of an IP address in network order, and a port.
///
/// An IPv6 address also carries the flow information and the scope that the operating system
/// attaches to it. They take part in comparisons, but never travel in a message.
#[allow(inconsistent_fields)]
#[derive(Clone, Copy, Debug, Eq, Hash)]
pub enum SocketAddr {
    V4 { ip: [u8; 4], port: u16 },
    V6 { ip: [u8; 16], port: u16, flowinfo: u32, scope_id: u32 },
}

/// The mathematical model of a [`SocketAddr`].
pub enum AddrView {
    V4 { ip: Seq<u8>, port: u16 },
    V6 { ip: Seq<u8>, port: u16, flowinfo: u32, scope_id: u32 },
}

impl AddrView {
    /// The address has as many octets as its family asks for.
    pub open spec fn wf(self) -> bool {
        match self {
            AddrView::V4 { ip, .. } => ip.len() == 4,
            AddrView::V6 { ip, .. } => ip.len() == 16,
        }
    }

    /// What is left of the address after it has travelled in a message: an IPv6 address
    /// arrives with neither flow information nor scope.
    pub open spec fn unscoped(self) -> AddrView {
        match self {
            AddrView::V4 { ip, port } => AddrView::V4 { ip, port },
            AddrView::V6 { ip, port, .. } => AddrView::V6 { ip, port, flowinfo: 0, scope_id: 0 },
        }
    }
}

impl View for SocketAddr {
    type V = AddrView;

    open spec fn view(&self) -> AddrView {
        match *self {
            SocketAddr::V4 { ip, port } => AddrView::V4 { ip: ip@, port },
            SocketAddr::V6 { ip, port, flowinfo, scope_id } => AddrView::V6 {
                ip: ip@,
                port,
                flowinfo,
                scope_id,
            },
        }
    }
}

impl SocketAddr {
    /// The address `0.0.0.0` with the given port: every local IPv4 interface.
    pub fn any_v4(port: u16) -> (addr: SocketAddr)
        ensures
            addr@ == (AddrView::V4 { ip: seq![0u8, 0, 0, 0], port }),
    {
        let addr = SocketAddr::V4 { ip: [0, 0, 0, 0], port };
        assert(addr@->V4_ip =~= seq![0u8, 0, 0, 0]);
        addr
    }
}

fn same_octets<const N: usize>(a: &[u8; N], b: &[u8; N]) -> (same: bool)
    ensures
        same == (*a == *b),
{
    let mut i: usize = 0;
    while i < N
        invariant
            i <= N,
            forall|j: int| 0 <= j < i ==> a@[j] == b@[j],
        decreases N - i,
    {
        if a[i] != b[i] {
            assert(a@[i as int] != b@[i as int]);
            return false;
        }
        i += 1;
    }
    assert(a@ =~= b@);
    assert(*a == *b);
    true
}

impl PartialEq for SocketAddr {
    fn eq(&self, other: &SocketAddr) -> (same: bool) {
        match (self, other) {
            (SocketAddr::V4 { ip, port }, SocketAddr::V4 { ip: other_ip, port: other_port }) => {
                *port == *other_port && same_octets(ip, other_ip)
            },
            (
                SocketAddr::V6 { ip, port, flowinfo, scope_id },
                SocketAddr::V6 {
                    ip: other_ip,
                    port: other_port,
                    flowinfo: other_flowinfo,
                    scope_id: other_scope_id,
                },
            ) => *port == *other_port && *flowinfo == *other_flowinfo && *scope_id
                == *other_scope_id && same_octets(ip, other_ip),
            _ => false,
        }
    }
}

/// Two addresses are equal when every part of them is, the scope of an IPv6 address too.
impl vstd::std_specs::cmp::PartialEqSpecImpl for SocketAddr {
    open spec fn obeys_eq_spec() -> bool {
        true
    }

    open spec fn eq_spec(&self, other: &SocketAddr) -> bool {
        *self == *other
    }
}

/// Every address is well formed, and an address is determined by its model.
pub proof fn lemma_addr_view(a: SocketAddr, b: SocketAddr)
    ensures
        a@.wf(),
        a@ == b@ <==> a == b,
{
    if a@ == b@ {
        match (a, b) {
            (SocketAddr::V4 { ip, .. }, SocketAddr::V4 { ip: other, .. }) => {
                assert(ip == other);
            },
            (SocketAddr::V6 { ip, .. }, SocketAddr::V6 { ip: other, .. }) => {
                assert(ip == other);
            },
            _ => {},
        }
    }
}

/// Only flow information and scope are lost on the way: octets and port arrive as they are.
pub proof fn law_what_travels(addr: AddrView)
    ensures
        addr matches AddrView::V4 { ip, port } ==> addr.unscoped() == (AddrView::V4 { ip, port }),
        addr matches AddrView::V6 { ip, port, .. } ==> addr.unscoped() == (AddrView::V6 {
            ip,
            port,
            flowinfo: 0,
            scope_id: 0,
        }),
{
}

/// The model of an address says what it holds.
pub proof fn law_addr_model(addr: SocketAddr)
    ensures
        addr@.wf(),
        addr matches SocketAddr::V4 { ip, port } ==> addr@ == (AddrView::V4 { ip: ip@, port }),
        addr matches SocketAddr::V6 { ip, port, flowinfo, scope_id } ==> addr@ == (AddrView::V6 {
            ip: ip@,
            port,
            flowinfo,
            scope_id,
        }),
{
}

} // verus!
