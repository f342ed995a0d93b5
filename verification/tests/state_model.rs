use gateway::exception::GlobalError;
use gateway::net::state::Association;
use gateway::net::state::Event;
use gateway::net::state::Gate;
use gateway::net::state::GateListener;
use gateway::net::state::Package;
use gateway::net::state::Protocol;
use gateway::net::state::SocketAddress;
use gateway::net::state::Zip;
use gateway::net::state::DISCONNECT_CODE;
use gateway::net::state::CHANNEL_BUFFER_SIZE;
use gateway::net::state::SOCKET_BUFFER_SIZE;

fn addr(port: u16) -> SocketAddress {
    SocketAddress::new(0x7f00_0001, false, port)
}

#[test]
fn protocol_names() {
    assert_eq!(Protocol::UDP.get_value(), "UDP");
    assert_eq!(Protocol::TCP.get_value(), "TCP");
    assert_eq!(Protocol::ALL.get_value(), "ALL");
}

#[test]
fn buffer_size_default() {
    assert_eq!(SOCKET_BUFFER_SIZE, 4096);
    assert_eq!(CHANNEL_BUFFER_SIZE, 10000);
}

#[test]
fn association_equality_and_accessors() {
    let a = Association::new(addr(1), addr(2), Protocol::TCP);
    let b = Association::new(addr(1), addr(2), Protocol::TCP);
    let c = Association::new(addr(1), addr(2), Protocol::UDP);
    assert_eq!(a, b);
    assert_ne!(a, c, "transport kind distinguishes associations");
    assert_eq!(*a.get_local_addr(), addr(1));
    assert_eq!(*a.get_remote_addr(), addr(2));
    assert_eq!(*a.get_protocol(), Protocol::TCP);
}

#[test]
fn zip_accessors_both_variants() {
    let a = Association::new(addr(1), addr(2), Protocol::TCP);
    let data = Zip::build_data(Package::new(a, vec![1, 2, 3]));
    let event = Zip::build_event(Event::new(a, DISCONNECT_CODE));
    assert_eq!(data.get_association(), a);
    assert_eq!(event.get_association(), a);
    assert_eq!(*data.get_association_protocol(), Protocol::TCP);
    assert_eq!(*event.get_association_protocol(), Protocol::TCP);
}

#[test]
fn package_hands_data_out() {
    let a = Association::new(addr(1), addr(2), Protocol::TCP);
    let p = Package::new(a, vec![9, 8, 7]);
    assert_eq!(p.get_data().as_slice(), &[9, 8, 7]);
    assert_eq!(p.get_owned_data(), vec![9, 8, 7]);
}

#[test]
fn event_accessors() {
    let a = Association::new(addr(1), addr(2), Protocol::TCP);
    let e = Event::new(a, 0);
    assert_eq!(*e.get_association(), a);
    assert_eq!(e.get_type_code(), 0);
}

fn tcp_gate_listener(port: u16) -> GateListener {
    let rt = tokio::runtime::Builder::new_current_thread().enable_all().build().unwrap();
    let listener = rt.block_on(async { tokio::net::TcpListener::bind("127.0.0.1:0").await.unwrap() });
    let (tx, _rx_in) = tokio::sync::mpsc::channel::<Zip>(4);
    let (_tx_out, rx) = tokio::sync::mpsc::channel::<Zip>(4);
    let gate = Gate::new(addr(port), tx, rx);
    GateListener::build_tcp(gate, listener)
}

fn udp_gate_listener(port: u16) -> GateListener {
    let rt = tokio::runtime::Builder::new_current_thread().enable_all().build().unwrap();
    let socket = rt.block_on(async { tokio::net::UdpSocket::bind("127.0.0.1:0").await.unwrap() });
    let (tx, _rx_in) = tokio::sync::mpsc::channel::<Zip>(4);
    let (_tx_out, rx) = tokio::sync::mpsc::channel::<Zip>(4);
    let gate = Gate::new(addr(port), tx, rx);
    GateListener::build_udp(gate, socket)
}

#[test]
fn build_all_accepts_tcp_udp_pair() {
    let tg = tcp_gate_listener(1);
    let ug = udp_gate_listener(2);
    let all = GateListener::build_all(tg, ug);
    assert!(matches!(all, Ok(GateListener::All(_, _))));
}

#[test]
fn build_all_rejects_two_tcp_listeners() {
    let tg1 = tcp_gate_listener(1);
    let tg2 = tcp_gate_listener(2);
    let r = GateListener::build_all(tg1, tg2);
    match r {
        Err(GlobalError::SysErr(m)) => {
            assert_eq!(m, "build_all requires a Tcp and Udp listener");
        }
        _ => panic!("two TCP listeners must be rejected"),
    }
}

#[test]
fn build_all_rejects_swapped_pair() {
    let ug = udp_gate_listener(1);
    let tg = tcp_gate_listener(2);
    assert!(GateListener::build_all(ug, tg).is_err());
}

#[test]
fn gate_hands_output_out() {
    let (tx, _rx_in) = tokio::sync::mpsc::channel::<Zip>(4);
    let (tx_out, rx) = tokio::sync::mpsc::channel::<Zip>(4);
    let gate = Gate::new(addr(7), tx, rx);
    assert_eq!(*gate.get_local_addr(), addr(7));
    let _ = gate.get_input();
    let mut out = gate.get_owned_output();
    drop(tx_out);
    assert!(out.try_recv().is_err(), "no message was ever sent");
}
