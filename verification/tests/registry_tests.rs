use restoai::channel::SendStatus;
use restoai::event::WireEvent;
use restoai::registry::Registry;
use restoai::writer::{SessionWriter, WriteError};
use tokio::sync::mpsc::error::TryRecvError;

#[test]
fn register_returns_distinct_indices_and_connected_marker() {
    let mut reg = Registry::new();
    let (id_a, mut rx_a) = reg.register().unwrap();
    let (id_b, mut rx_b) = reg.register().unwrap();
    assert_ne!(id_a, id_b);
    assert_eq!(id_a, 0);
    assert_eq!(id_b, 1);
    assert_eq!(rx_a.try_recv(), Ok(WireEvent::Connected));
    assert_eq!(rx_a.try_recv(), Err(TryRecvError::Empty));
    assert_eq!(rx_b.try_recv(), Ok(WireEvent::Connected));
    assert_eq!(rx_b.try_recv(), Err(TryRecvError::Empty));
}

#[test]
fn register_never_reuses_an_identity() {
    let mut reg = Registry::new();
    let (id_a, rx_a) = reg.register().unwrap();
    let (id_b, _rx_b) = reg.register().unwrap();
    drop(rx_a);
    let reaped = reg.sweep();
    assert_eq!(reaped, 1);
    let (id_c, _rx_c) = reg.register().unwrap();
    assert_ne!(id_c, id_a);
    assert_ne!(id_c, id_b);
    assert_eq!(id_c, 2);
}

#[test]
fn broadcast_reaches_slots_registered_at_call_time_only() {
    let mut reg = Registry::new();
    let (id_a, mut rx_a) = reg.register().unwrap();
    let statuses = reg.broadcast("hello");
    assert_eq!(statuses, vec![(id_a, SendStatus::Sent)]);
    let (_id_b, mut rx_b) = reg.register().unwrap();
    assert_eq!(rx_a.try_recv(), Ok(WireEvent::Connected));
    assert_eq!(rx_a.try_recv(), Ok(WireEvent::Data("hello".to_string())));
    assert_eq!(rx_a.try_recv(), Err(TryRecvError::Empty));
    // The slot registered after the broadcast sees only its connected marker.
    assert_eq!(rx_b.try_recv(), Ok(WireEvent::Connected));
    assert_eq!(rx_b.try_recv(), Err(TryRecvError::Empty));
}

#[test]
fn broadcast_ignores_full_buffers() {
    let mut reg = Registry::new();
    // The connected marker takes one of the ten buffer slots.
    let (id, mut rx) = reg.register().unwrap();
    for _ in 0..9 {
        assert_eq!(reg.broadcast("m"), vec![(id, SendStatus::Sent)]);
    }
    assert_eq!(reg.broadcast("overflow"), vec![(id, SendStatus::Full)]);
    let mut drained = Vec::new();
    while let Ok(ev) = rx.try_recv() {
        drained.push(ev);
    }
    assert_eq!(drained.len(), 10);
    assert_eq!(drained[0], WireEvent::Connected);
    for ev in &drained[1..] {
        assert_eq!(*ev, WireEvent::Data("m".to_string()));
    }
}

#[test]
fn send_to_missing_slot_is_quiet_noop() {
    let mut reg = Registry::new();
    let (id, mut rx) = reg.register().unwrap();
    assert_eq!(reg.send_to(id, "x"), Some(SendStatus::Sent));
    assert_eq!(reg.send_to(99, "x"), None);
    assert_eq!(rx.try_recv(), Ok(WireEvent::Connected));
    assert_eq!(rx.try_recv(), Ok(WireEvent::Data("x".to_string())));
}

#[test]
fn sweep_prunes_dead_and_preserves_order() {
    let mut reg = Registry::new();
    let (id_a, mut rx_a) = reg.register().unwrap();
    let (id_b, rx_b) = reg.register().unwrap();
    let (id_c, mut rx_c) = reg.register().unwrap();
    drop(rx_b);
    let reaped = reg.sweep();
    assert_eq!(reaped, 1);
    assert_eq!(reg.len(), 2);
    // The dead slot is never observed by a later broadcast, and the
    // survivors keep their relative order.
    let statuses = reg.broadcast("after");
    assert_eq!(statuses.len(), 2);
    assert_eq!(statuses[0].0, id_a);
    assert_eq!(statuses[1].0, id_c);
    assert!(!statuses.iter().any(|(id, _)| *id == id_b));
    assert_eq!(reg.send_to(id_b, "gone"), None);
    // Survivors, in their original relative order, still receive.
    assert_eq!(rx_a.try_recv(), Ok(WireEvent::Connected));
    assert_eq!(rx_a.try_recv(), Ok(WireEvent::Ping));
    assert_eq!(rx_a.try_recv(), Ok(WireEvent::Data("after".to_string())));
    assert_eq!(rx_c.try_recv(), Ok(WireEvent::Connected));
    assert_eq!(rx_c.try_recv(), Ok(WireEvent::Ping));
    assert_eq!(rx_c.try_recv(), Ok(WireEvent::Data("after".to_string())));
    assert_eq!(reg.send_to(id_a, "a"), Some(SendStatus::Sent));
    assert_eq!(reg.send_to(id_c, "c"), Some(SendStatus::Sent));
}

#[test]
fn prune_removes_exactly_the_listed_identities() {
    let mut reg = Registry::new();
    let (id_a, _rx_a) = reg.register().unwrap();
    let (id_b, _rx_b) = reg.register().unwrap();
    let (id_c, _rx_c) = reg.register().unwrap();
    reg.prune(&vec![id_b]);
    assert_eq!(reg.len(), 2);
    assert!(reg.send_to(id_a, "x").is_some());
    assert_eq!(reg.send_to(id_b, "x"), None);
    assert!(reg.send_to(id_c, "x").is_some());
}

#[test]
fn prune_with_no_dead_identities_keeps_everything() {
    let mut reg = Registry::new();
    let (id_a, _rx_a) = reg.register().unwrap();
    let (id_b, _rx_b) = reg.register().unwrap();
    reg.prune(&vec![]);
    assert_eq!(reg.len(), 2);
    assert!(reg.send_to(id_a, "x").is_some());
    assert!(reg.send_to(id_b, "x").is_some());
}

#[test]
fn sweep_of_empty_registry_reaps_nothing() {
    let mut reg = Registry::new();
    assert_eq!(reg.sweep(), 0);
    assert_eq!(reg.len(), 0);
    assert!(reg.broadcast("none").is_empty());
}

#[test]
fn sender_for_feeds_the_same_channel() {
    let mut reg = Registry::new();
    let (id, mut rx) = reg.register().unwrap();
    let tx = reg.sender_for(id).unwrap();
    tx.try_send(WireEvent::Data("via-clone".to_string())).unwrap();
    assert_eq!(rx.try_recv(), Ok(WireEvent::Connected));
    assert_eq!(rx.try_recv(), Ok(WireEvent::Data("via-clone".to_string())));
    assert!(reg.sender_for(123).is_none());
}

#[test]
fn writer_writes_and_closes_with_terminal_marker() {
    let mut reg = Registry::new();
    let (id, mut rx) = reg.register().unwrap();
    let writer = SessionWriter::new(id);
    assert_eq!(writer.write(&reg, "pay"), Ok(3));
    let done = writer.close(&reg);
    assert_eq!(done, Some(SendStatus::Sent));
    assert_eq!(rx.try_recv(), Ok(WireEvent::Connected));
    assert_eq!(rx.try_recv(), Ok(WireEvent::Data("pay".to_string())));
    assert_eq!(rx.try_recv(), Ok(WireEvent::Done));
}

#[test]
fn writer_reports_missing_slot() {
    let reg = Registry::new();
    let writer = SessionWriter::new(7);
    assert_eq!(writer.write(&reg, "pay"), Err(WriteError::NoSuchSlot));
    assert_eq!(writer.close(&reg), None);
}

#[test]
fn writer_reports_closed_channel() {
    let mut reg = Registry::new();
    let (id, rx) = reg.register().unwrap();
    drop(rx);
    let writer = SessionWriter::new(id);
    assert_eq!(writer.write(&reg, "pay"), Err(WriteError::ChannelClosed));
}

#[test]
fn writer_reports_full_buffer() {
    let mut reg = Registry::new();
    let (id, _rx) = reg.register().unwrap();
    let writer = SessionWriter::new(id);
    for _ in 0..9 {
        assert!(writer.write(&reg, "m").is_ok());
    }
    assert_eq!(writer.write(&reg, "m"), Err(WriteError::ChannelFull));
}
