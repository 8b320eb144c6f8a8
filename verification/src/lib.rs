//! The decisions behind QUIC connections between peers that sit behind routers.
//!
//! Peers announce themselves to a rendevouz server under a name. Whoever asks the server for a
//! name learns the address of the peer that goes by it, and the peer is told who asked, so that
//! both can open their routers for each other's datagrams.
//!
//! - [`message`] and [`wire`]: the messages between clients and server, and their bytes;
//! - [`server`]: whom the server lists, and what it answers;
//! - [`rendevouz`]: the client's side of announcing and asking;
//! - [`punch`]: opening the routers;
//! - [`command`], [`identity`], [`greeting`], [`random`]: the program around them;
//! - [`laws`]: what holds of all of it together.
pub mod addr;
pub mod command;
pub mod greeting;
pub mod identity;
pub mod laws;
pub mod message;
pub mod peer;
pub mod punch;
pub mod random;
pub mod rendevouz;
pub mod server;
pub mod text;
pub mod wire;

pub use peer::PeerId;
pub use punch::{IncomingHolepunchPacket, OutgoingHolepunchPacket};
pub use random::random_string;
