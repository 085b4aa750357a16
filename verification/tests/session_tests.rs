use std::sync::Arc;
use wintun_session::adapter::Adapter;
use wintun_session::driver::{
    DriverModel, ERROR_BUFFER_OVERFLOW, READ_EVENT_TOKEN, SESSION_TOKEN, SHUTDOWN_EVENT_TOKEN,
};
use wintun_session::error::Error;
use wintun_session::handle::Handle;
use wintun_session::packet::Kind;
use wintun_session::session::Session;

fn start_session(ring_capacity: usize) -> (Arc<Session>, DriverModel) {
    let driver = DriverModel::start(ring_capacity);
    let adapter = Arc::new(Adapter::new(Handle(77)));
    let session = Arc::new(Session::new(
        Handle(SESSION_TOKEN),
        Handle(SHUTDOWN_EVENT_TOKEN),
        adapter,
    ));
    (session, driver)
}

#[test]
fn allocate_returns_packet_of_requested_size() {
    let (session, mut driver) = start_session(8);
    let small = session.allocate_send_packet(&mut driver, 1).unwrap();
    assert_eq!(small.bytes_len(), 1);
    assert_eq!(small.kind, Kind::SendPacketPending);
    let large = session.allocate_send_packet(&mut driver, 65535).unwrap();
    assert_eq!(large.bytes_len(), 65535);
    session.send_packet(&mut driver, small);
    session.send_packet(&mut driver, large);
    assert_eq!(driver.delivered_len(), 2);
}

#[test]
fn allocate_and_send_does_not_error_when_ring_has_room() {
    let (session, mut driver) = start_session(4);
    for size in [1u16, 17, 1500, 65535] {
        let packet = session
            .allocate_send_packet(&mut driver, size)
            .expect("allocation with ring room must succeed");
        assert_eq!(packet.bytes_len(), size as usize);
        session.send_packet(&mut driver, packet);
    }
}

#[test]
fn delivery_follows_allocation_order_not_send_order() {
    let (session, mut driver) = start_session(8);
    let a = session.allocate_send_packet(&mut driver, 10).unwrap();
    let b = session.allocate_send_packet(&mut driver, 20).unwrap();
    let c = session.allocate_send_packet(&mut driver, 30).unwrap();
    let (ta, tb, tc) = (a.buffer, b.buffer, c.buffer);

    // submit out of order: B, A, C
    session.send_packet(&mut driver, b);
    // B alone cannot go on the wire: A was allocated first and is unsent
    assert_eq!(driver.delivered_len(), 0);
    session.send_packet(&mut driver, a);
    // A unblocks the queue: A then B reach the wire, in allocation order
    assert_eq!(driver.delivered_len(), 2);
    assert_eq!(driver.delivered_at(0), ta);
    assert_eq!(driver.delivered_at(1), tb);
    session.send_packet(&mut driver, c);
    assert_eq!(driver.delivered_len(), 3);
    assert_eq!(driver.delivered_at(2), tc);
}

#[test]
fn unsent_allocation_blocks_all_later_packets() {
    let (session, mut driver) = start_session(8);
    let _never_sent = session.allocate_send_packet(&mut driver, 5).unwrap();
    let second = session.allocate_send_packet(&mut driver, 6).unwrap();
    session.send_packet(&mut driver, second);
    // the unsent first allocation holds the wire queue up forever
    assert_eq!(driver.delivered_len(), 0);
}

#[test]
fn allocate_fails_when_ring_is_full() {
    let (session, mut driver) = start_session(2);
    let _a = session.allocate_send_packet(&mut driver, 8).unwrap();
    let _b = session.allocate_send_packet(&mut driver, 8).unwrap();
    let third = session.allocate_send_packet(&mut driver, 8);
    assert_eq!(third.unwrap_err(), Error::AllocationFailed(ERROR_BUFFER_OVERFLOW));
}

#[test]
fn allocate_surfaces_injected_driver_failure() {
    let (session, mut driver) = start_session(4);
    driver.inject_allocation_fault(8);
    let r = session.allocate_send_packet(&mut driver, 64);
    assert_eq!(r.unwrap_err(), Error::AllocationFailed(8));
    // the fault was one-shot: the next allocation succeeds again
    assert!(session.allocate_send_packet(&mut driver, 64).is_ok());
}

#[test]
fn try_receive_on_empty_queue_is_no_packet_not_an_error() {
    let (session, mut driver) = start_session(4);
    let r = session.try_receive(&mut driver);
    assert!(matches!(r, Ok(None)));
    // repeatable: polling an empty queue changes nothing for the caller
    let r = session.try_receive(&mut driver);
    assert!(matches!(r, Ok(None)));
}

#[test]
fn try_receive_delivers_inbound_packets_in_fifo_order() {
    let (session, mut driver) = start_session(4);
    let first = driver.inject_inbound(100);
    let second = driver.inject_inbound(200);
    let p1 = session.try_receive(&mut driver).unwrap().unwrap();
    assert_eq!(p1.buffer, first);
    assert_eq!(p1.bytes_len(), 100);
    assert_eq!(p1.kind, Kind::ReceivePacket);
    let p2 = session.try_receive(&mut driver).unwrap().unwrap();
    assert_eq!(p2.buffer, second);
    assert_eq!(p2.bytes_len(), 200);
    assert!(matches!(session.try_receive(&mut driver), Ok(None)));
}

#[test]
fn try_receive_translates_driver_failure() {
    let (session, mut driver) = start_session(4);
    driver.inject_receive_fault(31);
    let r = session.try_receive(&mut driver);
    assert_eq!(r.unwrap_err(), Error::ReceiveFailed(31));
}

#[test]
fn try_receive_treats_no_more_items_code_as_empty() {
    let (session, mut driver) = start_session(4);
    driver.inject_receive_fault(wintun_session::driver::ERROR_NO_MORE_ITEMS);
    let r = session.try_receive(&mut driver);
    assert!(matches!(r, Ok(None)));
}

#[test]
fn receive_blocking_returns_queued_packet_without_waiting() {
    let (session, mut driver) = start_session(4);
    let token = driver.inject_inbound(42);
    let p = session.receive_blocking(&mut driver).unwrap();
    assert_eq!(p.buffer, token);
    assert_eq!(p.bytes_len(), 42);
    assert_eq!(p.kind, Kind::ReceivePacket);
}

#[test]
fn receive_blocking_prefers_queued_packet_over_shutdown() {
    // the poll burst runs before the wait, so a queued packet is still
    // delivered even when the shutdown signal is already set
    let (session, mut driver) = start_session(4);
    let token = driver.inject_inbound(7);
    session.shutdown(&mut driver).unwrap();
    let p = session.receive_blocking(&mut driver).unwrap();
    assert_eq!(p.buffer, token);
    // with the queue drained, shutdown now wins
    let r = session.receive_blocking(&mut driver);
    assert_eq!(r.unwrap_err(), Error::ShuttingDown);
}

#[test]
fn shutdown_releases_blocked_receivers_with_shutting_down() {
    let (session, mut driver) = start_session(4);
    session.shutdown(&mut driver).unwrap();
    let r = session.receive_blocking(&mut driver);
    let e = r.unwrap_err();
    assert_eq!(e, Error::ShuttingDown);
    assert!(e.is_shutting_down());
    assert_eq!(e.os_code(), None);
}

#[test]
fn shutdown_is_terminal_and_idempotent() {
    let (session, mut driver) = start_session(4);
    // duplicate shutdown requests all succeed
    session.shutdown(&mut driver).unwrap();
    session.shutdown(&mut driver).unwrap();
    session.shutdown(&mut driver).unwrap();
    // every receiver that arrives afterwards — standing for any number of
    // blocked threads — returns ShuttingDown immediately, forever
    for _ in 0..4 {
        let r = session.receive_blocking(&mut driver);
        assert_eq!(r.unwrap_err(), Error::ShuttingDown);
    }
    // the non-blocking path keeps reporting an empty queue, as before
    assert!(matches!(session.try_receive(&mut driver), Ok(None)));
}

#[test]
fn shutdown_surfaces_set_event_failure_and_may_be_retried() {
    let (session, mut driver) = start_session(4);
    driver.inject_set_event_fault(6);
    let r = session.shutdown(&mut driver);
    assert_eq!(r.unwrap_err(), Error::OsError(6));
    // the signal was not set: a retry succeeds and becomes terminal
    session.shutdown(&mut driver).unwrap();
    let r = session.receive_blocking(&mut driver);
    assert_eq!(r.unwrap_err(), Error::ShuttingDown);
}

#[test]
fn receive_blocking_surfaces_wait_failure() {
    let (session, mut driver) = start_session(4);
    driver.inject_wait_fault(5);
    let r = session.receive_blocking(&mut driver);
    assert_eq!(r.unwrap_err(), Error::WaitFailed(5));
}

#[test]
fn receive_blocking_surfaces_poll_failure() {
    let (session, mut driver) = start_session(4);
    driver.inject_receive_fault(1117);
    let r = session.receive_blocking(&mut driver);
    assert_eq!(r.unwrap_err(), Error::ReceiveFailed(1117));
}

#[test]
fn read_wait_event_is_stable_and_driver_owned() {
    let (session, mut driver) = start_session(4);
    let h1 = session.get_read_wait_event(&driver);
    let h2 = session.get_read_wait_event(&driver);
    assert_eq!(h1, Handle(READ_EVENT_TOKEN));
    assert_eq!(h1, h2);
    // teardown closes the shutdown event but never the driver's read event
    let mut bare = Session::new(
        Handle(SESSION_TOKEN),
        Handle(SHUTDOWN_EVENT_TOKEN),
        Arc::new(Adapter::new(Handle(77))),
    );
    bare.teardown(&mut driver);
    assert!(driver.shutdown_event_closed);
    assert!(!driver.session_live);
}

#[test]
fn packet_keeps_owning_session_alive() {
    let (session, mut driver) = start_session(4);
    driver.inject_inbound(16);
    let packet = session.try_receive(&mut driver).unwrap().unwrap();
    // destroy every external reference to the session
    drop(session);
    // the packet's strong reference still keeps the session usable
    let held = packet.session();
    assert_eq!(Arc::strong_count(&held), 2); // the packet's and this one
    assert!(!held.session.is_null());
    let adapter = held.get_adapter();
    assert_eq!(adapter.handle, Handle(77));
    // the packet can still be released through the session it kept alive
    packet.release(&mut driver);
    assert_eq!(Arc::strong_count(&held), 1);
}

#[test]
fn released_inbound_buffer_returns_to_the_ring() {
    let (session, mut driver) = start_session(4);
    let token = driver.inject_inbound(9);
    let packet = session.try_receive(&mut driver).unwrap().unwrap();
    packet.release(&mut driver);
    assert_eq!(driver.released.len(), 1);
    assert_eq!(driver.released[0], token);
}

#[test]
fn teardown_poisons_handle_and_ends_session() {
    let mut driver = DriverModel::start(4);
    let adapter = Arc::new(Adapter::new(Handle(77)));
    let mut session = Session::new(
        Handle(SESSION_TOKEN),
        Handle(SHUTDOWN_EVENT_TOKEN),
        adapter,
    );
    session.teardown(&mut driver);
    assert!(session.session.is_null());
    assert!(driver.shutdown_event_closed);
    assert!(!driver.session_live);
}

#[test]
fn teardown_swallows_close_failure() {
    let mut driver = DriverModel::start(4);
    driver.inject_close_fault(9);
    let adapter = Arc::new(Adapter::new(Handle(77)));
    let mut session = Session::new(
        Handle(SESSION_TOKEN),
        Handle(SHUTDOWN_EVENT_TOKEN),
        adapter,
    );
    session.teardown(&mut driver);
    // the close failed, but the session still ended and the handle is poisoned
    assert!(session.session.is_null());
    assert!(!driver.shutdown_event_closed);
    assert!(!driver.session_live);
    assert_eq!(driver.last_error, 9);
}

#[test]
fn get_adapter_returns_the_parent() {
    let (session, _driver) = start_session(4);
    let a1 = session.get_adapter();
    let a2 = session.get_adapter();
    assert_eq!(a1.handle, Handle(77));
    assert!(Arc::ptr_eq(&a1, &a2));
}

#[test]
fn error_taxonomy_exposes_os_codes() {
    assert_eq!(Error::AllocationFailed(8).os_code(), Some(8));
    assert_eq!(Error::SendFailed(4).os_code(), Some(4));
    assert_eq!(Error::ReceiveFailed(31).os_code(), Some(31));
    assert_eq!(Error::WaitFailed(5).os_code(), Some(5));
    assert_eq!(Error::OsError(87).os_code(), Some(87));
    assert_eq!(Error::ShuttingDown.os_code(), None);
    assert!(!Error::OsError(87).is_shutting_down());
}
