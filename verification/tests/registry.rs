use device_gateway::handle::OutboundHandle;
use device_gateway::protocol::WsOutputData;
use device_gateway::registry::{reached_session, SessionRegistry};
use tokio::sync::mpsc::error::TryRecvError;
use tokio::sync::mpsc::{unbounded_channel, UnboundedReceiver};

fn channel() -> (OutboundHandle, UnboundedReceiver<WsOutputData>) {
    let (tx, rx) = unbounded_channel();
    (OutboundHandle::new(tx), rx)
}

fn settings(ms: u64) -> WsOutputData {
    WsOutputData::Settings { presence_timeout: ms }
}

#[test]
fn new_registry_is_empty() {
    let registry = SessionRegistry::new();
    assert_eq!(registry.len(), 0);
    assert!(registry.lookup(1).is_none());
}

#[test]
fn register_then_lookup_finds_the_handle() {
    let mut registry = SessionRegistry::new();
    let (h, mut rx) = channel();
    assert!(registry.register(5, h).is_none());
    assert_eq!(registry.len(), 1);
    let found = registry.lookup(5).expect("registered");
    assert_eq!(found.deliver(settings(1)), Ok(()));
    assert_eq!(rx.try_recv(), Ok(settings(1)));
    assert!(registry.lookup(6).is_none());
}

#[test]
fn second_registration_replaces_the_first() {
    let mut registry = SessionRegistry::new();
    let (h1, mut rx1) = channel();
    let (h2, mut rx2) = channel();
    assert!(registry.register(4, h1).is_none());
    let previous = registry.register(4, h2).expect("the first handle comes back");
    assert_eq!(registry.len(), 1);

    let found = registry.lookup(4).expect("registered");
    assert_eq!(found.deliver(settings(2)), Ok(()));
    assert_eq!(rx2.try_recv(), Ok(settings(2)));
    assert_eq!(rx1.try_recv(), Err(TryRecvError::Empty));

    assert!(registry.send(4, WsOutputData::Presence { status: true }));
    assert_eq!(rx2.try_recv(), Ok(WsOutputData::Presence { status: true }));
    assert_eq!(rx1.try_recv(), Err(TryRecvError::Empty));

    // What still goes through the first handle reaches only the session that owns it.
    assert_eq!(previous.deliver(settings(3)), Ok(()));
    assert_eq!(rx1.try_recv(), Ok(settings(3)));
    assert_eq!(rx2.try_recv(), Err(TryRecvError::Empty));

    // Once that session is gone, delivery through the first handle fails.
    drop(rx1);
    assert_eq!(previous.deliver(settings(4)), Err(settings(4)));
}

#[test]
fn remove_forgets_the_device() {
    let mut registry = SessionRegistry::new();
    let (h1, _rx1) = channel();
    let (h2, mut rx2) = channel();
    registry.register(1, h1);
    registry.register(2, h2);
    registry.remove(1);
    assert!(registry.lookup(1).is_none());
    assert_eq!(registry.len(), 1);
    assert!(registry.send(2, settings(9)));
    assert_eq!(rx2.try_recv(), Ok(settings(9)));
    registry.remove(1);
    assert_eq!(registry.len(), 1);
    registry.remove(2);
    assert_eq!(registry.len(), 0);
}

#[test]
fn send_reports_whether_a_live_session_took_the_message() {
    let mut registry = SessionRegistry::new();
    assert!(!registry.send(7, settings(1)));
    let (h, mut rx) = channel();
    registry.register(7, h);
    assert!(registry.send(7, settings(1)));
    assert!(registry.send(7, WsOutputData::Presence { status: false }));
    assert!(!registry.send(8, settings(1)));
    assert_eq!(rx.try_recv(), Ok(settings(1)));
    assert_eq!(rx.try_recv(), Ok(WsOutputData::Presence { status: false }));
    assert_eq!(rx.try_recv(), Err(TryRecvError::Empty));
    drop(rx);
    assert!(!registry.send(7, settings(2)));
    assert_eq!(registry.len(), 1);
}

#[test]
fn messages_reach_a_session_in_the_order_sent() {
    let mut registry = SessionRegistry::new();
    let (h, mut rx) = channel();
    registry.register(3, h);
    for ms in 0..50u64 {
        assert!(registry.send(3, settings(ms)));
    }
    for ms in 0..50u64 {
        assert_eq!(rx.try_recv(), Ok(settings(ms)));
    }
    assert_eq!(rx.try_recv(), Err(TryRecvError::Empty));
}

#[test]
fn hundred_devices_keep_their_own_handles() {
    let mut registry = SessionRegistry::new();
    let mut receivers = Vec::new();
    for i in 0..100i64 {
        // Register in an order that is not the order of the identities.
        let id = (i * 37) % 100 - 50;
        let (h, rx) = channel();
        assert!(registry.register(id, h).is_none());
        receivers.push((id, rx));
    }
    assert_eq!(registry.len(), 100);
    for (id, _) in receivers.iter() {
        assert!(registry.send(*id, settings(*id as u64)));
    }
    for (id, rx) in receivers.iter_mut() {
        assert_eq!(rx.try_recv(), Ok(settings(*id as u64)));
        assert_eq!(rx.try_recv(), Err(TryRecvError::Empty));
    }
}

#[test]
fn registrations_are_numbered_in_order() {
    let mut registry = SessionRegistry::new();
    assert_eq!(registry.generation(1), None);
    let (h1, _rx1) = channel();
    let (h2, _rx2) = channel();
    let (h3, _rx3) = channel();
    registry.register(1, h1);
    registry.register(2, h2);
    assert_eq!(registry.generation(1), Some(0));
    assert_eq!(registry.generation(2), Some(1));
    registry.register(1, h3);
    assert_eq!(registry.generation(1), Some(2));
    assert_eq!(registry.generation(2), Some(1));
    registry.remove(2);
    assert_eq!(registry.generation(2), None);
}

#[test]
fn remove_registration_spares_a_later_registration() {
    let mut registry = SessionRegistry::new();
    let (h1, _rx1) = channel();
    let (h2, mut rx2) = channel();
    registry.register(4, h1);
    let first = registry.generation(4).expect("registered");
    registry.register(4, h2);
    let second = registry.generation(4).expect("registered");
    assert_ne!(first, second);

    assert!(!registry.remove_registration(4, first));
    assert_eq!(registry.len(), 1);
    assert!(registry.send(4, settings(1)));
    assert_eq!(rx2.try_recv(), Ok(settings(1)));

    assert!(!registry.remove_registration(5, second));
    assert!(registry.remove_registration(4, second));
    assert!(registry.lookup(4).is_none());
    assert!(!registry.remove_registration(4, second));
    assert_eq!(registry.len(), 0);
}

#[test]
fn reached_session_reads_the_attempt() {
    assert!(!reached_session(None));
    assert!(reached_session(Some(Ok(()))));
    assert!(!reached_session(Some(Err(settings(1)))));
    assert!(!reached_session(Some(Err(WsOutputData::Presence { status: true }))));
}
