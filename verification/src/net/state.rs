//! The connection data model: `Association`, `Package`, `Event`, `Zip`, the
//! listening/accepting abstraction (`Gate`, `GateListener`, `GateAccept`),
//! and the process-wide sizing constants.

use crate::exception::GlobalError;
use crate::exception::GlobalResult;
use tokio::net::TcpListener;
use tokio::net::TcpStream;
use tokio::net::UdpSocket;
use tokio::sync::mpsc::Receiver;
use tokio::sync::mpsc::Sender;
use vstd::prelude::*;

verus! {

/// Size of the fixed read buffer: a single read never yields more bytes.
pub const SOCKET_BUFFER_SIZE: usize = 4096;

/// Bounded capacity of the internal channels carrying `Zip` values.
pub const CHANNEL_BUFFER_SIZE: usize = 10000;

/// The reserved event code meaning "peer disconnected / connection closed".
pub const DISCONNECT_CODE: u8 = 0;

pub const UDP: &'static str = "UDP";

pub const TCP: &'static str = "TCP";

pub const ALL: &'static str = "ALL";

/// The transport kind of an endpoint or of a peer conversation.
#[derive(Debug, Eq, Hash, PartialEq, Clone, Copy, Structural)]
pub enum Protocol {
    UDP,
    TCP,
    ALL,
}

impl Protocol {
    pub open spec fn spec_value(self) -> Seq<char> {
        match self {
            Protocol::UDP => "UDP"@,
            Protocol::TCP => "TCP"@,
            Protocol::ALL => "ALL"@,
        }
    }

    /// The textual name of the transport kind.
    pub fn get_value(&self) -> (r: &'static str)
        ensures
            r@ == self.spec_value(),
    {
        match self {
            Protocol::UDP => UDP,
            Protocol::TCP => TCP,
            Protocol::ALL => ALL,
        }
    }
}

/// A socket address as plain values: the IP (an IPv4 address in the low 32
/// bits when `is_v6` is false, a full IPv6 address otherwise) and the port.
#[derive(Debug, Eq, Hash, PartialEq, Clone, Copy, Structural)]
pub struct SocketAddress {
    pub ip: u128,
    pub is_v6: bool,
    pub port: u16,
}

impl SocketAddress {
    pub fn new(ip: u128, is_v6: bool, port: u16) -> (r: Self)
        ensures
            r == (SocketAddress { ip, is_v6, port }),
    {
        SocketAddress { ip, is_v6, port }
    }
}

/// The identity of a logical peer conversation: local address, remote
/// address, and transport kind. Immutable once constructed; two associations
/// differing only in the transport kind name distinct peers.
#[derive(Debug, Eq, Hash, PartialEq, Clone, Copy, Structural)]
pub struct Association {
    pub local_addr: SocketAddress,
    pub remote_addr: SocketAddress,
    pub protocol: Protocol,
}

impl Association {
    pub fn new(local_addr: SocketAddress, remote_addr: SocketAddress, protocol: Protocol) -> (r:
        Self)
        ensures
            r == (Association { local_addr, remote_addr, protocol }),
    {
        Association { local_addr, remote_addr, protocol }
    }

    pub fn get_local_addr(&self) -> (r: &SocketAddress)
        ensures
            *r == self.local_addr,
    {
        &self.local_addr
    }

    pub fn get_remote_addr(&self) -> (r: &SocketAddress)
        ensures
            *r == self.remote_addr,
    {
        &self.remote_addr
    }

    pub fn get_protocol(&self) -> (r: &Protocol)
        ensures
            *r == self.protocol,
    {
        &self.protocol
    }
}

/// Law: associations built from two different source addresses are distinct,
/// whatever else they share; so are associations differing only in transport.
pub proof fn lemma_association_identity(
    local: SocketAddress,
    r1: SocketAddress,
    r2: SocketAddress,
    p1: Protocol,
    p2: Protocol,
)
    ensures
        r1 != r2 ==> (Association { local_addr: local, remote_addr: r1, protocol: p1 })
            != (Association { local_addr: local, remote_addr: r2, protocol: p1 }),
        p1 != p2 ==> (Association { local_addr: local, remote_addr: r1, protocol: p1 })
            != (Association { local_addr: local, remote_addr: r1, protocol: p2 }),
{
}

/// A control-plane unit: an event code tagged with its association.
/// Code `DISCONNECT_CODE` means the peer conversation is over; other codes
/// are reserved.
#[derive(Debug, Eq, Hash, PartialEq, Clone, Copy, Structural)]
pub struct Event {
    pub association: Association,
    pub type_code: u8,
}

impl Event {
    pub fn new(association: Association, type_code: u8) -> (r: Self)
        ensures
            r == (Event { association, type_code }),
    {
        Event { association, type_code }
    }

    pub fn get_association(&self) -> (r: &Association)
        ensures
            *r == self.association,
    {
        &self.association
    }

    pub fn get_type_code(&self) -> (r: u8)
        ensures
            r == self.type_code,
    {
        self.type_code
    }
}

/// A data-plane unit: a byte payload tagged with its association.
#[derive(Debug, PartialEq, Clone)]
pub struct Package {
    pub association: Association,
    pub data: Vec<u8>,
}

impl Package {
    pub fn new(association: Association, data: Vec<u8>) -> (r: Self)
        ensures
            r == (Package { association, data }),
    {
        Package { association, data }
    }

    pub fn get_association(&self) -> (r: &Association)
        ensures
            *r == self.association,
    {
        &self.association
    }

    pub fn get_data(&self) -> (r: &Vec<u8>)
        ensures
            r@ == self.data@,
    {
        &self.data
    }

    /// Consumes the package and hands out its payload.
    pub fn get_owned_data(self) -> (r: Vec<u8>)
        ensures
            r@ == self.data@,
    {
        self.data
    }
}

/// The single message type flowing on every internal channel: either a data
/// `Package` or a control `Event`.
#[derive(Debug, PartialEq, Clone)]
pub enum Zip {
    Data(Package),
    Event(Event),
}

impl Zip {
    pub open spec fn spec_association(self) -> Association {
        match self {
            Zip::Data(p) => p.association,
            Zip::Event(e) => e.association,
        }
    }

    pub fn build_data(package: Package) -> (r: Self)
        ensures
            r == Zip::Data(package),
    {
        Zip::Data(package)
    }

    pub fn build_event(event: Event) -> (r: Self)
        ensures
            r == Zip::Event(event),
    {
        Zip::Event(event)
    }

    /// The owning association, whatever the variant.
    pub fn get_association(&self) -> (r: Association)
        ensures
            r == self.spec_association(),
    {
        match self {
            Zip::Data(package) => package.association,
            Zip::Event(event) => event.association,
        }
    }

    /// The owning association's transport kind, whatever the variant.
    pub fn get_association_protocol(&self) -> (r: &Protocol)
        ensures
            *r == self.spec_association().protocol,
    {
        match self {
            Zip::Data(package) => &package.association.protocol,
            Zip::Event(event) => &event.association.protocol,
        }
    }
}

/// A bound listening endpoint together with the two channel ends the
/// application uses: `input` carries what the sockets read towards the
/// application, `output` carries what the application wants written.
/// The output receiver is owned by exactly one entity at a time.
#[derive(Debug)]
pub struct Gate {
    local_addr: SocketAddress,
    input: Sender<Zip>,
    output: Receiver<Zip>,
}

impl Gate {
    pub closed spec fn spec_local_addr(&self) -> SocketAddress {
        self.local_addr
    }

    pub closed spec fn spec_input(&self) -> Sender<Zip> {
        self.input
    }

    pub closed spec fn spec_output(&self) -> Receiver<Zip> {
        self.output
    }

    pub fn new(local_addr: SocketAddress, input: Sender<Zip>, output: Receiver<Zip>) -> (r: Self)
        ensures
            r.spec_local_addr() == local_addr,
            r.spec_input() == input,
            r.spec_output() == output,
    {
        Gate { local_addr, input, output }
    }

    pub fn get_local_addr(&self) -> (r: &SocketAddress)
        ensures
            *r == self.spec_local_addr(),
    {
        &self.local_addr
    }

    pub fn get_input(&self) -> (r: &Sender<Zip>)
        ensures
            *r == self.spec_input(),
    {
        &self.input
    }

    /// Consumes this endpoint and hands out the outbound receiver, which moves
    /// into the write driver.
    pub fn get_owned_output(self) -> (r: Receiver<Zip>)
        ensures
            r == self.spec_output(),
    {
        self.output
    }
}

/// A listener a driver-agnostic supervisor can hold uniformly: a TCP
/// listener, a UDP socket, or both at once.
#[derive(Debug)]
pub enum GateListener {
    Tcp(Gate, TcpListener),
    Udp(Gate, UdpSocket),
    All((Gate, TcpListener), (Gate, UdpSocket)),
}

impl GateListener {
    pub fn build_tcp(gate: Gate, tcp_listener: TcpListener) -> (r: Self)
        ensures
            r == GateListener::Tcp(gate, tcp_listener),
    {
        GateListener::Tcp(gate, tcp_listener)
    }

    pub fn build_udp(gate: Gate, udp_socket: UdpSocket) -> (r: Self)
        ensures
            r == GateListener::Udp(gate, udp_socket),
    {
        GateListener::Udp(gate, udp_socket)
    }

    /// Pairs one TCP listener with one UDP listener. Any other pairing is a
    /// programming error and fails fast with an error, never with a partial
    /// listener.
    pub fn build_all(tg: GateListener, ug: GateListener) -> (r: GlobalResult<GateListener>)
        ensures
            r is Ok <==> (tg is Tcp && ug is Udp),
            tg matches GateListener::Tcp(t_gate, tcp_listener) ==> ug matches GateListener::Udp(
                u_gate,
                udp_socket,
            ) ==> r == Ok::<GateListener, GlobalError>(
                GateListener::All((t_gate, tcp_listener), (u_gate, udp_socket)),
            ),
            r matches Err(e) ==> e matches GlobalError::SysErr(m) && m@
                == "build_all requires a Tcp and Udp listener"@,
    {
        match (tg, ug) {
            (GateListener::Tcp(t_gate, tcp_listener), GateListener::Udp(u_gate, udp_socket)) => {
                Ok(GateListener::All((t_gate, tcp_listener), (u_gate, udp_socket)))
            },
            _ => Err(GlobalError::new_sys_error("build_all requires a Tcp and Udp listener")),
        }
    }
}

/// A just-accepted peer a supervisor can hold uniformly: a fresh TCP stream
/// with its remote address, or the one bound UDP socket.
#[derive(Debug)]
pub enum GateAccept {
    Tcp(Gate, SocketAddress, TcpStream),
    Udp(Gate, UdpSocket),
}

impl GateAccept {
    pub fn accept_tcp(gate: Gate, remote_addr: SocketAddress, tcp_stream: TcpStream) -> (r: Self)
        ensures
            r == GateAccept::Tcp(gate, remote_addr, tcp_stream),
    {
        GateAccept::Tcp(gate, remote_addr, tcp_stream)
    }

    pub fn accept_udp(gate: Gate, udp_socket: UdpSocket) -> (r: Self)
        ensures
            r == GateAccept::Udp(gate, udp_socket),
    {
        GateAccept::Udp(gate, udp_socket)
    }
}

} // verus!
