//! The transport layer: the connection data model, the outside transport
//! types, the connection registry, and the TCP/UDP driver logic.

pub mod ext;
pub mod registry;
pub mod state;
pub mod tcp;
pub mod udp;
