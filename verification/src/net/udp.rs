//! The UDP driver's decisions. UDP is connectionless: one bound socket
//! serves all peers, conversations are virtual and identified only by the
//! source address of each datagram, and there is no teardown signal and no
//! registry use.

use super::state::Association;
use super::state::Package;
use super::state::Protocol;
use super::state::SOCKET_BUFFER_SIZE;
use super::state::SocketAddress;
use super::state::Zip;
use super::tcp::ReadStep;
use super::tcp::WriteOutcome;
use super::tcp::WriteResultStep;
use vstd::prelude::*;

verus! {

/// The association of a UDP conversation between the two addresses.
pub open spec fn udp_association(local_addr: SocketAddress, remote_addr: SocketAddress) -> Association {
    Association { local_addr, remote_addr, protocol: Protocol::UDP }
}

/// What one receive attempt on the socket came to, as plain values.
#[derive(Debug)]
pub enum UdpReadOutcome {
    /// A received datagram: its bytes (never more than the buffer) and its
    /// source address.
    Datagram(Vec<u8>, SocketAddress),
    /// A transient would-block result.
    WouldBlock,
    /// Any other receive error.
    Fatal,
}

/// One turn of the UDP read loop. A nonempty datagram emits exactly one
/// data message carrying the bytes unmodified, under the association built
/// from the socket's local address and the datagram's source address; an
/// empty datagram and a would-block result are not errors and the loop goes
/// on (UDP has no "connection closed" signal); any other receive error ends
/// the loop.
pub fn udp_read_step(local_addr: SocketAddress, outcome: UdpReadOutcome) -> (r: ReadStep)
    requires
        outcome matches UdpReadOutcome::Datagram(data, remote_addr) ==> data@.len()
            <= SOCKET_BUFFER_SIZE,
    ensures
        outcome matches UdpReadOutcome::Datagram(data, remote_addr) ==> data@.len() > 0 ==> r.zip
            == Some(
            Zip::Data((Package { association: udp_association(local_addr, remote_addr), data })),
        ) && !r.done,
        outcome matches UdpReadOutcome::Datagram(data, remote_addr) ==> data@.len() == 0 ==> r.zip
            is None && !r.done,
        outcome is WouldBlock ==> r.zip is None && !r.done,
        outcome is Fatal ==> r.zip is None && r.done,
{
    match outcome {
        UdpReadOutcome::Datagram(data, remote_addr) => {
            if data.len() > 0 {
                let association = Association::new(local_addr, remote_addr, Protocol::UDP);
                ReadStep {
                    zip: Some(Zip::build_data(Package::new(association, data))),
                    done: false,
                }
            } else {
                ReadStep { zip: None, done: false }
            }
        },
        UdpReadOutcome::WouldBlock => ReadStep { zip: None, done: false },
        UdpReadOutcome::Fatal => ReadStep { zip: None, done: true },
    }
}

/// What the UDP write loop does with one received message: the package to
/// send (to its association's remote address), if any, and whether the loop
/// is over.
#[derive(Debug, PartialEq)]
pub struct UdpWriteStep {
    pub send: Option<Package>,
    pub done: bool,
}

/// One turn of the UDP write loop over a received message. A data message
/// is handed back to be sent to its association's remote address; events
/// are not meaningful for UDP and are ignored.
pub fn udp_write_step(zip: Zip) -> (r: UdpWriteStep)
    ensures
        zip matches Zip::Data(package) ==> r.send == Some(package) && !r.done,
        zip is Event ==> r.send is None && !r.done,
{
    match zip {
        Zip::Data(package) => UdpWriteStep { send: Some(package), done: false },
        Zip::Event(_) => UdpWriteStep { send: None, done: false },
    }
}

/// One turn of the UDP write loop over the result of a send. Success moves
/// on; a would-block result retries the same datagram in place; any other
/// send error ends the loop.
pub fn udp_write_result_step(outcome: WriteOutcome) -> (r: WriteResultStep)
    ensures
        outcome is Written ==> !r.retry && !r.done,
        outcome is WouldBlock ==> r.retry && !r.done,
        outcome is Fatal ==> !r.retry && r.done,
{
    match outcome {
        WriteOutcome::Written => WriteResultStep { retry: false, done: false },
        WriteOutcome::WouldBlock => WriteResultStep { retry: true, done: false },
        WriteOutcome::Fatal => WriteResultStep { retry: false, done: true },
    }
}

/// Law: UDP keeps peers apart by source address alone. Datagrams arriving
/// from two different source addresses at the same socket yield two
/// distinct associations (same local address, different remote), never a
/// merged one.
pub proof fn lemma_udp_distinct_sources(
    local_addr: SocketAddress,
    remote_a: SocketAddress,
    remote_b: SocketAddress,
)
    requires
        remote_a != remote_b,
    ensures
        udp_association(local_addr, remote_a) != udp_association(local_addr, remote_b),
{
}

} // verus!
