//! Declarations of the outside transport types that the data model carries.
//!
//! The library never reads into these values: sockets are bound, accepted,
//! read and written by the asynchronous drivers outside the library, and the
//! channel ends are used there and by the application. Here they only travel
//! inside `Gate`, `GateListener`, `GateAccept` and the registry.

use vstd::prelude::*;

verus! {

/// tokio's bounded channel sender, carried opaquely.
#[verifier::external_type_specification]
#[verifier::external_body]
#[verifier::reject_recursive_types(T)]
pub struct ExSender<T>(tokio::sync::mpsc::Sender<T>);

/// tokio's bounded channel receiver, carried opaquely.
#[verifier::external_type_specification]
#[verifier::external_body]
#[verifier::reject_recursive_types(T)]
pub struct ExReceiver<T>(tokio::sync::mpsc::Receiver<T>);

/// tokio's TCP listening socket, carried opaquely.
#[verifier::external_type_specification]
#[verifier::external_body]
pub struct ExTcpListener(tokio::net::TcpListener);

/// tokio's TCP stream, carried opaquely.
#[verifier::external_type_specification]
#[verifier::external_body]
pub struct ExTcpStream(tokio::net::TcpStream);

/// tokio's UDP socket, carried opaquely.
#[verifier::external_type_specification]
#[verifier::external_body]
pub struct ExUdpSocket(tokio::net::UdpSocket);

} // verus!
