//! End-to-end flows of the drivers' decision logic over an in-memory byte
//! pipe. The test runner offers no network traffic, so the stream a TCP
//! socket would carry is an in-memory duplex pipe here; every decision the
//! library makes (messages, registry, loop control) is the real one.

use gateway::net::registry::Registry;
use gateway::net::state::Association;
use gateway::net::state::Gate;
use gateway::net::state::Package;
use gateway::net::state::Protocol;
use gateway::net::state::SocketAddress;
use gateway::net::state::Zip;
use gateway::net::state::DISCONNECT_CODE;
use gateway::net::tcp::tcp_read_step;
use gateway::net::tcp::tcp_write_step;
use gateway::net::tcp::TcpReadOutcome;
use gateway::net::udp::udp_read_step;
use gateway::net::udp::UdpReadOutcome;
use tokio::io::AsyncReadExt;
use tokio::io::AsyncWriteExt;

const LOOPBACK: u128 = 0x7f00_0001;

fn addr(port: u16) -> SocketAddress {
    SocketAddress::new(LOOPBACK, false, port)
}

#[test]
fn tcp_end_to_end_ping_then_disconnect() {
    let rt = tokio::runtime::Builder::new_multi_thread()
        .worker_threads(2)
        .enable_all()
        .build()
        .unwrap();
    rt.block_on(async {
        let local_sa = addr(5060);
        let remote_sa = addr(40001);
        let expected = Association::new(local_sa, remote_sa, Protocol::TCP);

        let (in_tx, mut in_rx) = tokio::sync::mpsc::channel::<Zip>(100);
        let (out_tx, out_rx) = tokio::sync::mpsc::channel::<Zip>(100);
        let (lone_tx, _lone_rx) = tokio::sync::mpsc::channel::<Zip>(100);
        let gate = Gate::new(local_sa, in_tx.clone(), out_rx);
        let mut registry = Registry::new();

        // What the accept path does for a fresh conversation: register its
        // outbound channel under the association.
        registry.insert(expected, lone_tx);
        assert!(registry.contains(&expected));
        let mut out_rx = gate.get_owned_output();

        let (mut client, server) = tokio::io::duplex(4096);
        let (mut read_half, mut write_half) = tokio::io::split(server);

        // The client sends a payload; one turn of the read loop forwards it.
        client.write_all(b"ping").await.unwrap();
        let mut buf = [0u8; 4096];
        let n = read_half.read(&mut buf).await.unwrap();
        assert!(n > 0);
        let step = tcp_read_step(
            &mut registry,
            local_sa,
            remote_sa,
            TcpReadOutcome::Data(buf[..n].to_vec()),
        );
        assert!(!step.done);
        in_tx.send(step.zip.unwrap()).await.unwrap();
        match in_rx.recv().await.unwrap() {
            Zip::Data(p) => {
                assert_eq!(*p.get_association(), expected);
                assert_eq!(p.get_owned_data(), b"ping".to_vec());
            }
            Zip::Event(e) => panic!("expected the payload, got event {:?}", e),
        }

        // The application answers; one turn of the write loop sends it.
        out_tx
            .send(Zip::Data(Package::new(expected, b"pong".to_vec())))
            .await
            .unwrap();
        let zip = out_rx.recv().await.unwrap();
        let wstep = tcp_write_step(&mut registry, zip);
        assert!(!wstep.done);
        let payload = wstep.payload.unwrap();
        write_half.write_all(payload.get_data().as_slice()).await.unwrap();
        let mut back = [0u8; 16];
        let m = client.read(&mut back).await.unwrap();
        assert_eq!(&back[..m], b"pong");

        // The client closes; the next read turn emits the disconnect event
        // and clears the registry.
        drop(client);
        let n = read_half.read(&mut buf).await.unwrap();
        assert_eq!(n, 0, "an orderly close reads as length zero");
        let step = tcp_read_step(&mut registry, local_sa, remote_sa, TcpReadOutcome::Eof);
        assert!(step.done);
        in_tx.send(step.zip.unwrap()).await.unwrap();
        match in_rx.recv().await.unwrap() {
            Zip::Event(e) => {
                assert_eq!(e.get_type_code(), DISCONNECT_CODE);
                assert_eq!(*e.get_association(), expected);
            }
            Zip::Data(p) => panic!("expected the disconnect event, got data {:?}", p),
        }
        assert!(
            !registry.contains(&expected),
            "the registry no longer holds the association"
        );
    });
}

#[test]
fn tcp_payloads_arrive_in_send_order() {
    let rt = tokio::runtime::Builder::new_multi_thread()
        .worker_threads(2)
        .enable_all()
        .build()
        .unwrap();
    rt.block_on(async {
        let local_sa = addr(5060);
        let remote_sa = addr(40002);
        let (in_tx, mut in_rx) = tokio::sync::mpsc::channel::<Zip>(100);
        let mut registry = Registry::new();

        let (mut client, server) = tokio::io::duplex(4096);
        let (mut read_half, _write_half) = tokio::io::split(server);

        client.write_all(b"first").await.unwrap();
        client.flush().await.unwrap();
        client.write_all(b"second").await.unwrap();
        drop(client);

        // Read and forward until the stream closes; a single read may yield
        // any split of the byte stream, but never reordered bytes.
        let mut got: Vec<u8> = Vec::new();
        loop {
            let mut buf = [0u8; 4096];
            let n = read_half.read(&mut buf).await.unwrap();
            if n == 0 {
                break;
            }
            let step = tcp_read_step(
                &mut registry,
                local_sa,
                remote_sa,
                TcpReadOutcome::Data(buf[..n].to_vec()),
            );
            in_tx.send(step.zip.unwrap()).await.unwrap();
            match in_rx.recv().await.unwrap() {
                Zip::Data(p) => got.extend_from_slice(p.get_data().as_slice()),
                Zip::Event(e) => panic!("unexpected event {:?}", e),
            }
        }
        assert_eq!(got, b"firstsecond".to_vec(), "bytes arrive unmodified and in order");
    });
}

#[test]
fn udp_end_to_end_two_sources() {
    let rt = tokio::runtime::Builder::new_multi_thread()
        .worker_threads(2)
        .enable_all()
        .build()
        .unwrap();
    rt.block_on(async {
        let local_sa = addr(5061);
        let source_a = addr(50001);
        let source_b = addr(50002);
        let (in_tx, mut in_rx) = tokio::sync::mpsc::channel::<Zip>(100);

        // Two datagrams arrive at one socket from two source addresses; one
        // turn of the read loop forwards each.
        for (payload, from) in [(b"from-a".to_vec(), source_a), (b"from-b".to_vec(), source_b)] {
            let step = udp_read_step(local_sa, UdpReadOutcome::Datagram(payload, from));
            assert!(!step.done, "UDP never tears a conversation down");
            in_tx.send(step.zip.unwrap()).await.unwrap();
        }

        let mut seen: Vec<(Association, Vec<u8>)> = Vec::new();
        while seen.len() < 2 {
            match in_rx.recv().await.unwrap() {
                Zip::Data(p) => {
                    let a = *p.get_association();
                    seen.push((a, p.get_owned_data()));
                }
                Zip::Event(e) => panic!("UDP never emits events, got {:?}", e),
            }
        }
        let (a1, d1) = &seen[0];
        let (a2, d2) = &seen[1];
        assert_ne!(a1, a2, "two sources make two distinct associations, never a merged one");
        assert_eq!(*a1.get_local_addr(), local_sa);
        assert_eq!(*a2.get_local_addr(), local_sa);
        assert_ne!(a1.get_remote_addr(), a2.get_remote_addr());
        assert_eq!(d1, &b"from-a".to_vec());
        assert_eq!(d2, &b"from-b".to_vec());
    });
}
