use gateway::net::registry::Registry;
use gateway::net::state::Association;
use gateway::net::state::Protocol;
use gateway::net::state::SocketAddress;
use gateway::net::state::Zip;
use gateway::net::tcp::accept_retry_decision;
use gateway::net::tcp::should_retry;
use gateway::net::tcp::AcceptDecision;
use gateway::net::tcp::AcceptErrorKind;
use gateway::net::tcp::Backoff;
use gateway::net::tcp::INIT_BACKOFF_MS;
use gateway::net::tcp::MAX_BACKOFF_MS;

fn assoc(port: u16) -> Association {
    Association::new(
        SocketAddress::new(0x7f00_0001, false, 9),
        SocketAddress::new(0x7f00_0001, false, port),
        Protocol::TCP,
    )
}

fn sender() -> tokio::sync::mpsc::Sender<Zip> {
    tokio::sync::mpsc::channel::<Zip>(4).0
}

#[test]
fn registry_insert_lookup_remove() {
    let mut reg = Registry::new();
    assert_eq!(reg.len(), 0);
    assert!(!reg.contains(&assoc(1)));
    reg.insert(assoc(1), sender());
    assert_eq!(reg.len(), 1);
    assert!(reg.contains(&assoc(1)));
    assert!(reg.lookup(&assoc(1)).is_some());
    assert!(reg.lookup(&assoc(2)).is_none());
    assert!(reg.remove(&assoc(1)));
    assert_eq!(reg.len(), 0);
    assert!(!reg.contains(&assoc(1)));
}

#[test]
fn registry_remove_is_idempotent() {
    let mut reg = Registry::new();
    reg.insert(assoc(1), sender());
    reg.insert(assoc(2), sender());
    assert!(reg.remove(&assoc(1)), "first removal finds the entry");
    assert!(!reg.remove(&assoc(1)), "second removal is a no-op");
    assert_eq!(reg.len(), 1, "the second removal changed nothing");
    assert!(!reg.remove(&assoc(3)), "removing a never-inserted key is a no-op");
    assert_eq!(reg.len(), 1);
    assert!(reg.contains(&assoc(2)));
}

#[test]
fn registry_lookup_returns_the_registered_sender() {
    let mut reg = Registry::new();
    let (tx, mut rx) = tokio::sync::mpsc::channel::<Zip>(4);
    let (other_tx, mut other_rx) = tokio::sync::mpsc::channel::<Zip>(4);
    reg.insert(assoc(1), tx);
    reg.insert(assoc(2), other_tx);
    let got = reg.lookup(&assoc(1)).expect("the association was registered");
    let zip = Zip::Event(gateway::net::state::Event::new(assoc(1), 0));
    got.try_send(zip).expect("the registered channel accepts the message");
    assert!(rx.try_recv().is_ok(), "the message went to the channel registered under the key");
    assert!(other_rx.try_recv().is_err(), "nothing went to the other association's channel");
}

#[test]
fn registry_insert_overwrites_stale_entry() {
    let mut reg = Registry::new();
    reg.insert(assoc(1), sender());
    reg.insert(assoc(1), sender());
    assert_eq!(reg.len(), 1);
    assert!(reg.remove(&assoc(1)));
    assert!(!reg.remove(&assoc(1)));
}

#[test]
fn retryable_error_kinds() {
    assert!(should_retry(AcceptErrorKind::WouldBlock));
    assert!(should_retry(AcceptErrorKind::TimedOut));
    assert!(should_retry(AcceptErrorKind::Interrupted));
    assert!(should_retry(AcceptErrorKind::ResourceBusy));
    assert!(should_retry(AcceptErrorKind::NotConnected));
    assert!(!should_retry(AcceptErrorKind::Other));
}

#[test]
fn backoff_doubles_until_cap_then_times_out() {
    let mut backoff = Backoff::new();
    let mut delays: Vec<u64> = Vec::new();
    let timed_out;
    loop {
        match accept_retry_decision(&mut backoff, AcceptErrorKind::WouldBlock) {
            AcceptDecision::Sleep(d) => delays.push(d),
            AcceptDecision::FailTimeout => {
                timed_out = true;
                break;
            }
            AcceptDecision::FailFatal => panic!("a retryable error never fails fatally"),
        }
        if delays.len() > 64 {
            panic!("the backoff must reach its cap, not retry forever");
        }
    }
    assert!(timed_out, "exhausting the cap yields a timeout, not endless retries");
    assert_eq!(delays, vec![10, 20, 40, 80, 160, 320, 640, 1280, 2560]);
    for w in delays.windows(2) {
        assert!(w[0] <= w[1], "delays never decrease");
        assert_eq!(w[1], 2 * w[0], "delays double");
    }
    for d in &delays {
        assert!(*d <= MAX_BACKOFF_MS, "every delay slept is capped");
    }
    assert_eq!(delays[0], INIT_BACKOFF_MS);
}

#[test]
fn backoff_fatal_error_fails_at_once() {
    let mut backoff = Backoff::new();
    assert_eq!(
        accept_retry_decision(&mut backoff, AcceptErrorKind::Other),
        AcceptDecision::FailFatal
    );
    assert_eq!(backoff.delay_ms, INIT_BACKOFF_MS, "a fatal error does not advance the backoff");
}
