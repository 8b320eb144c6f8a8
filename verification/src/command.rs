//! What the program is asked to do, and the choices it makes where nothing is said.
use crate::addr::{AddrView, SocketAddr};
use crate::peer::PeerId;
use crate::random::random_string;
use vstd::prelude::*;

verus! {

/// The port on which a rendevouz server listens unless told otherwise.
pub const RENDEVOUZ_PORT: u16 = 3033;

/// The port on which a listening client binds unless told otherwise.
pub const LISTEN_PORT: u16 = 22022;

/// A command as it is given.
#[allow(inconsistent_fields)]
#[derive(Debug)]
pub enum Command {
    /// Run a rendevouz server.
    Rendevouz { addr: Option<SocketAddr> },
    /// Connect to an address.
    ConnectDirect { addr: SocketAddr },
    /// Connect to a peer by its name.
    ConnectRendevouz { rendevouz_addr: SocketAddr, peer_id: String },
    /// Wait for peers to connect.
    Listen { addr: Option<SocketAddr>, rendevouz_addr: SocketAddr, peer_id: Option<String> },
}

/// A command with every choice made.
#[derive(Debug)]
pub enum Plan {
    /// Run a rendevouz server at `addr`.
    Serve { addr: SocketAddr },
    /// Connect to `addr`.
    ConnectDirect { addr: SocketAddr },
    /// Bind `bind_addr`, announce `local_id` to the server, and connect to `peer_id`.
    ConnectRendevouz {
        bind_addr: SocketAddr,
        rendevouz_addr: SocketAddr,
        local_id: PeerId,
        peer_id: PeerId,
    },
    /// Bind `bind_addr`, announce `local_id` to the server, and wait.
    Listen { bind_addr: SocketAddr, rendevouz_addr: SocketAddr, local_id: PeerId },
}

/// Every local IPv4 interface, with the given port.
pub open spec fn any_v4(port: u16) -> AddrView {
    AddrView::V4 { ip: seq![0u8, 0, 0, 0], port }
}

/// The address that was given, or every local interface with the given port.
pub open spec fn given_or_any(given: Option<SocketAddr>, port: u16) -> AddrView {
    match given {
        Some(addr) => addr@,
        None => any_v4(port),
    }
}

/// `plan` carries the command out, with `generated` as the name of a client that was given none.
pub open spec fn carries_out(command: Command, generated: Seq<char>, plan: Plan) -> bool {
    match command {
        Command::Rendevouz { addr } => plan matches Plan::Serve { addr: at } && at@ == given_or_any(
            addr,
            RENDEVOUZ_PORT,
        ),
        Command::ConnectDirect { addr } => plan == (Plan::ConnectDirect { addr }),
        Command::ConnectRendevouz { rendevouz_addr, peer_id } => {
            &&& plan matches Plan::ConnectRendevouz {
                bind_addr,
                rendevouz_addr: server,
                local_id,
                peer_id: peer,
            }
            &&& bind_addr@ == any_v4(0)
            &&& server == rendevouz_addr
            &&& local_id@ == generated
            &&& peer@ == peer_id@
        },
        Command::Listen { addr, rendevouz_addr, peer_id } => {
            &&& plan matches Plan::Listen { bind_addr, rendevouz_addr: server, local_id }
            &&& bind_addr@ == given_or_any(addr, LISTEN_PORT)
            &&& server == rendevouz_addr
            &&& local_id@ == (match peer_id {
                Some(id) => id@,
                None => generated,
            })
        },
    }
}

fn addr_or_any(given: Option<SocketAddr>, port: u16) -> (addr: SocketAddr)
    ensures
        addr@ == given_or_any(given, port),
{
    match given {
        Some(addr) => addr,
        None => SocketAddr::any_v4(port),
    }
}

impl Command {
    /// Makes the choices that the command leaves open, with `generated` as the name of a client
    /// that was given none.
    pub fn plan_with(self, generated: String) -> (plan: Plan)
        ensures
            carries_out(self, generated@, plan),
    {
        match self {
            Command::Rendevouz { addr } => Plan::Serve { addr: addr_or_any(addr, RENDEVOUZ_PORT) },
            Command::ConnectDirect { addr } => Plan::ConnectDirect { addr },
            Command::ConnectRendevouz { rendevouz_addr, peer_id } => Plan::ConnectRendevouz {
                bind_addr: SocketAddr::any_v4(0),
                rendevouz_addr,
                local_id: PeerId::from(generated),
                peer_id: PeerId::from(peer_id),
            },
            Command::Listen { addr, rendevouz_addr, peer_id } => Plan::Listen {
                bind_addr: addr_or_any(addr, LISTEN_PORT),
                rendevouz_addr,
                local_id: match peer_id {
                    Some(id) => PeerId::from(id),
                    None => PeerId::from(generated),
                },
            },
        }
    }

    /// Makes the choices that the command leaves open; a client that was given no name gets a
    /// random one.
    pub fn plan(self) -> (plan: Plan)
        ensures
            exists|generated: Seq<char>|
                crate::random::is_random_string(generated) && #[trigger] carries_out(
                    self,
                    generated,
                    plan,
                ),
    {
        let generated = random_string();
        self.plan_with(generated)
    }
}

/// Whatever a command gives is in the plan as it was given, and only what it does not give is
/// chosen: every local interface with the usual port, or the generated name.
pub proof fn law_what_is_given_is_kept(command: Command, generated: Seq<char>, plan: Plan)
    requires
        carries_out(command, generated, plan),
    ensures
        match command {
            Command::Rendevouz { addr: Some(given) } => plan == (Plan::Serve { addr: given }),
            Command::Rendevouz { addr: None } => plan matches Plan::Serve { addr } && addr@ == (
            AddrView::V4 { ip: seq![0u8, 0, 0, 0], port: 3033 }),
            Command::ConnectDirect { addr: given } => plan matches Plan::ConnectDirect { addr }
                && addr == given,
            Command::ConnectRendevouz { rendevouz_addr: given, peer_id: name } => {
                &&& plan matches Plan::ConnectRendevouz {
                    bind_addr,
                    rendevouz_addr,
                    local_id,
                    peer_id,
                }
                &&& rendevouz_addr == given
                &&& peer_id@ == name@
                &&& local_id@ == generated
                &&& bind_addr@ == (AddrView::V4 { ip: seq![0u8, 0, 0, 0], port: 0 })
            },
            Command::Listen { addr, rendevouz_addr: given, peer_id } => {
                &&& plan matches Plan::Listen { bind_addr, rendevouz_addr, local_id }
                &&& rendevouz_addr == given
                &&& addr matches Some(own) ==> bind_addr == own
                &&& addr is None ==> bind_addr@ == (AddrView::V4 {
                    ip: seq![0u8, 0, 0, 0],
                    port: 22022,
                })
                &&& peer_id matches Some(name) ==> local_id@ == name@
                &&& peer_id is None ==> local_id@ == generated
            },
        },
{
    match (command, plan) {
        (Command::Rendevouz { addr: Some(given) }, Plan::Serve { addr }) => {
            crate::addr::lemma_addr_view(given, addr);
        },
        (Command::Listen { addr: Some(given), .. }, Plan::Listen { bind_addr, .. }) => {
            crate::addr::lemma_addr_view(given, bind_addr);
        },
        _ => {},
    }
}

/// Two plans for one command differ at most in the generated name.
pub proof fn law_only_the_name_is_random(
    command: Command,
    generated: Seq<char>,
    other_generated: Seq<char>,
    plan: Plan,
    other: Plan,
)
    requires
        carries_out(command, generated, plan),
        carries_out(command, other_generated, other),
    ensures
        match (plan, other) {
            (Plan::Serve { addr }, Plan::Serve { addr: addr_b }) => addr == addr_b,
            (Plan::ConnectDirect { addr }, Plan::ConnectDirect { addr: addr_b }) => addr == addr_b,
            (
                Plan::ConnectRendevouz { bind_addr, rendevouz_addr, peer_id, .. },
                Plan::ConnectRendevouz {
                    bind_addr: bind_b,
                    rendevouz_addr: server_b,
                    peer_id: peer_b,
                    ..
                },
            ) => bind_addr == bind_b && rendevouz_addr == server_b && peer_id@ == peer_b@,
            (
                Plan::Listen { bind_addr, rendevouz_addr, local_id },
                Plan::Listen { bind_addr: bind_b, rendevouz_addr: server_b, local_id: id_b },
            ) => bind_addr == bind_b && rendevouz_addr == server_b && (local_id@ == id_b@ || (
            local_id@ == generated && id_b@ == other_generated)),
            _ => false,
        },
{
    match (plan, other) {
        (Plan::Serve { addr }, Plan::Serve { addr: addr_b }) => {
            crate::addr::lemma_addr_view(addr, addr_b);
        },
        (
            Plan::ConnectRendevouz { bind_addr, .. },
            Plan::ConnectRendevouz { bind_addr: bind_b, .. },
        ) => {
            crate::addr::lemma_addr_view(bind_addr, bind_b);
        },
        (Plan::Listen { bind_addr, .. }, Plan::Listen { bind_addr: bind_b, .. }) => {
            crate::addr::lemma_addr_view(bind_addr, bind_b);
        },
        _ => {},
    }
}

} // verus!
