use crate::adapter::Adapter;
use crate::driver::{
    with_shutdown, DriverModel, ERROR_NO_MORE_ITEMS, WAIT_FAILED, WAIT_OBJECT_READ,
    WAIT_OBJECT_SHUTDOWN,
};
use crate::error::Error;
use crate::handle::Handle;
use crate::packet::{Kind, Packet};
use std::sync::Arc;
use vstd::pervasive::unreached;
use vstd::prelude::*;

verus! {

/// How many non-blocking polls a blocking receive makes before it pays for an
/// OS wait, so that no wait syscall is issued while packets arrive at a high
/// rate.
pub const POLL_ATTEMPTS: usize = 5;

/// One session on the virtual adapter: owns the session handle and the
/// private shutdown signal, shares the read-ready signal with the driver, and
/// keeps its parent adapter alive.
///
/// Every operation that talks to the driver or the OS takes the boundary
/// state — a [`DriverModel`] — explicitly, and its contract says exactly what
/// crosses that boundary. Many threads may use one session concurrently: no
/// operation here needs mutual exclusion beyond what the driver guarantees
/// for concurrent handle use.
#[derive(Debug)]
pub struct Session {
    /// The driver's token for this session, valid from construction until
    /// teardown poisons it to the null sentinel.
    pub session: Handle,
    /// The session's private OS event. Signaling it is the only way to
    /// release receivers blocked in the dual wait; it is owned here and
    /// closed on teardown.
    pub shutdown_event: Handle,
    /// The parent adapter, kept alive at least as long as this session.
    pub adapter: Arc<Adapter>,
}

/// What one non-blocking poll of the receive queue decides.
pub enum PollDecision {
    /// The queue's front packet, by buffer token and size.
    Delivered(u64, u16),
    /// The queue is empty — the designated "no packet" outcome, not an error.
    Empty,
    /// The driver failed with this OS code.
    Failure(u32),
}

/// What a blocking receive decides, as a function of the driver state it
/// starts from.
pub enum BlockingDecision {
    /// The queue's front packet, by buffer token and size.
    Delivered(u64, u16),
    /// A poll failed with this OS code before any wait was needed.
    ReceiveFailure(u32),
    /// The dual wait itself failed with this OS code.
    WaitFailure(u32),
    /// The shutdown signal released the receiver.
    ShuttingDown,
}

/// The decision of one poll: a pending fault fires first (the empty-queue
/// code counting as "no packet", not as a failure), then the queue speaks.
pub open spec fn poll_decision(d: DriverModel) -> PollDecision {
    match d.receive_fault {
        Some(c) => if c == ERROR_NO_MORE_ITEMS {
            PollDecision::Empty
        } else {
            PollDecision::Failure(c)
        },
        None => if d.inbound@.len() == 0 {
            PollDecision::Empty
        } else {
            PollDecision::Delivered(d.inbound@[0].buffer, d.inbound@[0].size)
        },
    }
}

/// The decision of a burst of polls: a fault other than the empty-queue code
/// fails the burst at its first poll; otherwise the queue's front packet is
/// taken if one is there, even when the first poll consumed a fault.
pub open spec fn burst_decision(d: DriverModel) -> PollDecision {
    match d.receive_fault {
        Some(c) => if c == ERROR_NO_MORE_ITEMS {
            burst_queue_decision(d)
        } else {
            PollDecision::Failure(c)
        },
        None => burst_queue_decision(d),
    }
}

/// What a poll burst finds in the queue once faults are out of the way.
pub open spec fn burst_queue_decision(d: DriverModel) -> PollDecision {
    if d.inbound@.len() == 0 {
        PollDecision::Empty
    } else {
        PollDecision::Delivered(d.inbound@[0].buffer, d.inbound@[0].size)
    }
}

/// The driver state a poll burst leaves behind when it found the queue empty:
/// the last error records the empty-queue signal and any pending receive
/// fault has been consumed. Nothing else changes, so in particular a set
/// shutdown signal stays set.
pub open spec fn after_empty_polls(d: DriverModel) -> DriverModel {
    DriverModel { receive_fault: None, last_error: ERROR_NO_MORE_ITEMS, ..d }
}

/// A blocking receive would come back: something is queued, the shutdown
/// signal is set, or a fault will fire. A single-threaded model cannot park
/// a caller, so blocking receives are specified on these states only.
pub open spec fn blocking_enabled(d: DriverModel) -> bool {
    ||| d.shutdown_signaled
    ||| d.inbound@.len() > 0
    ||| d.wait_fault is Some
    ||| match d.receive_fault {
        Some(c) => c != ERROR_NO_MORE_ITEMS,
        None => false,
    }
}

/// The decision of a blocking receive: a receive fault fails the first poll;
/// otherwise a queued packet is taken without waiting; otherwise the dual
/// wait speaks — a wait fault fails it, and else only the shutdown signal can
/// release the receiver.
pub open spec fn blocking_decision(d: DriverModel) -> BlockingDecision {
    match burst_decision(d) {
        PollDecision::Failure(c) => BlockingDecision::ReceiveFailure(c),
        PollDecision::Delivered(b, s) => BlockingDecision::Delivered(b, s),
        PollDecision::Empty => match d.wait_fault {
            Some(c) => BlockingDecision::WaitFailure(c),
            None => BlockingDecision::ShuttingDown,
        },
    }
}

impl Session {
    /// The session is attached to the given driver state: the driver is
    /// well-formed and the session's handles are the ones it issued. This
    /// also rules out a poisoned session handle.
    pub open spec fn attached(&self, d: DriverModel) -> bool {
        &&& d.wf()
        &&& self.session == d.session_handle
        &&& self.shutdown_event == d.shutdown_event_handle
    }

    /// Wraps the handles of a freshly started session. The session handle
    /// stays valid until teardown; the shutdown event is owned from here on.
    pub fn new(session: Handle, shutdown_event: Handle, adapter: Arc<Adapter>) -> (s: Session)
        requires
            !session.spec_is_null(),
            !shutdown_event.spec_is_null(),
        ensures
            s.session == session,
            s.shutdown_event == shutdown_event,
            s.adapter == adapter,
    {
        Session { session, shutdown_event, adapter }
    }

    /// The parent adapter, as a fresh shared reference.
    pub fn get_adapter(&self) -> (a: Arc<Adapter>)
        ensures
            a == self.adapter,
    {
        self.adapter.clone()
    }

    /// Allocates an outbound packet of exactly `size` bytes.
    ///
    /// The driver forms its outbound queue from the order packets are
    /// allocated, not the order they are later submitted: a packet that is
    /// allocated and never submitted permanently holds back every later
    /// allocation. That ordering is a caller responsibility; this library
    /// preserves and documents it but cannot enforce it.
    ///
    /// Fails with `AllocationFailed` carrying the translated OS code when the
    /// driver has no space or fails; on success the packet is pending, has
    /// exactly the requested length, and holds a strong reference to this
    /// session.
    pub fn allocate_send_packet(self: &Arc<Self>, driver: &mut DriverModel, size: u16) -> (r:
        Result<Packet, Error>)
        requires
            self.attached(*old(driver)),
            old(driver).session_live,
            old(driver).slots@.len() < usize::MAX,
        ensures
            final(driver).wf(),
            self.attached(*final(driver)),
            final(driver).session_live,
            match old(driver).alloc_fault {
                Some(c) => r == Err::<Packet, Error>(Error::AllocationFailed(c)) && (*final(driver)
                    == (DriverModel { alloc_fault: None, last_error: c, ..*old(driver) })),
                None => if old(driver).pending_count() >= old(driver).ring_capacity {
                    r == Err::<Packet, Error>(Error::AllocationFailed(
                        crate::driver::ERROR_BUFFER_OVERFLOW,
                    )) && (*final(driver) == (DriverModel {
                        last_error: crate::driver::ERROR_BUFFER_OVERFLOW,
                        ..*old(driver)
                    }))
                } else {
                    &&& r matches Ok(p) && p.kind == Kind::SendPacketPending && p.size == size
                        && p.buffer == old(driver).slots@.len() + 1 && p.session == *self
                    &&& final(driver).slots@ == old(driver).slots@.push(
                        (crate::driver::SendSlot {
                            buffer: (old(driver).slots@.len() + 1) as u64,
                            size: size,
                            sent: false,
                        }),
                    )
                    &&& (*final(driver) == (DriverModel {
                        slots: final(driver).slots,
                        ..*old(driver)
                    }))
                },
            },
    {
        match driver.allocate(size) {
            None => {
                let c = driver.get_last_error();
                Err(Error::AllocationFailed(c))
            },
            Some(buffer) => Ok(
                Packet { buffer, size, kind: Kind::SendPacketPending, session: self.clone() },
            ),
        }
    }

    /// Submits a packet previously allocated on this session. The packet must
    /// still be pending: submitting anything else is a programming error, so
    /// it is a caller contract here, not a recoverable failure. The packet is
    /// consumed; it leaves in the sent state, whose release is a no-op.
    ///
    /// The driver then puts on the wire every leading buffer of the
    /// allocation order that has been submitted: delivery order is allocation
    /// order, whatever order submissions happen in.
    #[allow(unused_assignments)]
    pub fn send_packet(&self, driver: &mut DriverModel, packet: Packet)
        requires
            old(driver).wf(),
            old(driver).session_live,
            self.session == old(driver).session_handle,
            packet.is_send_pending(),
            old(driver).spec_has_unsent_slot(packet.buffer),
        ensures
            final(driver).wf(),
            final(driver).session_live,
            final(driver).slots@.len() == old(driver).slots@.len(),
            forall|i: int|
                0 <= i < old(driver).slots@.len() ==> #[trigger] final(driver).slots@[i] == (if i
                    == packet.buffer - 1 {
                    (crate::driver::SendSlot { sent: true, ..old(driver).slots@[i] })
                } else {
                    old(driver).slots@[i]
                }),
            final(driver).delivered_count >= old(driver).delivered_count,
            (*final(driver) == (DriverModel {
                slots: final(driver).slots,
                delivered_count: final(driver).delivered_count,
                ..*old(driver)
            })),
    {
        let mut packet = packet;
        driver.send(packet.buffer);
        packet.kind = Kind::SendPacketSent;
    }

    /// Asks the driver for the next queued inbound packet without blocking
    /// and without ever suspending the thread.
    ///
    /// An empty queue is "no packet available", not an error; any other
    /// driver failure is surfaced as `ReceiveFailed` with the translated OS
    /// code. A delivered packet is the queue's front, in received state, with
    /// a strong reference to this session.
    pub fn try_receive(self: &Arc<Self>, driver: &mut DriverModel) -> (r: Result<
        Option<Packet>,
        Error,
    >)
        requires
            self.attached(*old(driver)),
            old(driver).session_live,
        ensures
            final(driver).wf(),
            self.attached(*final(driver)),
            final(driver).session_live,
            match poll_decision(*old(driver)) {
                PollDecision::Empty => r matches Ok(q) && q is None && (*final(driver) == (
                DriverModel {
                    receive_fault: None,
                    last_error: ERROR_NO_MORE_ITEMS,
                    ..*old(driver)
                })),
                PollDecision::Failure(c) => r == Err::<Option<Packet>, Error>(Error::ReceiveFailed(
                    c,
                )) && (*final(driver) == (DriverModel {
                    receive_fault: None,
                    last_error: c,
                    ..*old(driver)
                })),
                PollDecision::Delivered(b, s) => {
                    &&& r matches Ok(q) && q matches Some(p) && p.buffer == b && p.size == s
                        && p.kind == Kind::ReceivePacket && p.session == *self
                    &&& final(driver).inbound@ == old(driver).inbound@.remove(0)
                    &&& (*final(driver) == (DriverModel {
                        inbound: final(driver).inbound,
                        ..*old(driver)
                    }))
                },
            },
    {
        match driver.receive() {
            None => {
                let c = driver.get_last_error();
                if c == ERROR_NO_MORE_ITEMS {
                    // the driver's designated empty-queue signal, not a failure
                    Ok(None)
                } else {
                    Err(Error::ReceiveFailed(c))
                }
            },
            Some((buffer, size)) => Ok(
                Some(Packet { buffer, size, kind: Kind::ReceivePacket, session: self.clone() }),
            ),
        }
    }

    /// The driver-owned event that is signaled when data becomes available to
    /// read. The driver keeps ownership — the session never closes it — and
    /// the handle is stable for the session's whole life, so callers may
    /// cache it.
    pub fn get_read_wait_event(&self, driver: &DriverModel) -> (h: Handle)
        requires
            self.attached(*driver),
        ensures
            h == driver.read_event_handle,
            !h.spec_is_null(),
    {
        driver.read_wait_event()
    }

    /// Polls the receive queue a fixed number of times with no wait in
    /// between, so a blocking receive pays for no wait syscall while packets
    /// arrive quickly.
    fn poll_burst(self: &Arc<Self>, driver: &mut DriverModel) -> (r: Result<Option<Packet>, Error>)
        requires
            self.attached(*old(driver)),
            old(driver).session_live,
        ensures
            final(driver).wf(),
            self.attached(*final(driver)),
            final(driver).session_live,
            match burst_decision(*old(driver)) {
                PollDecision::Empty => r matches Ok(q) && q is None && (*final(driver)
                    == after_empty_polls(*old(driver))),
                PollDecision::Failure(c) => r == Err::<Option<Packet>, Error>(Error::ReceiveFailed(
                    c,
                )) && (*final(driver) == (DriverModel {
                    receive_fault: None,
                    last_error: c,
                    ..*old(driver)
                })),
                PollDecision::Delivered(b, s) => {
                    &&& r matches Ok(q) && q matches Some(p) && p.buffer == b && p.size == s
                        && p.kind == Kind::ReceivePacket && p.session == *self
                    &&& final(driver).inbound@ == old(driver).inbound@.remove(0)
                    &&& (*final(driver) == (DriverModel {
                        inbound: final(driver).inbound,
                        receive_fault: None,
                        last_error: final(driver).last_error,
                        ..*old(driver)
                    }))
                    &&& (old(driver).receive_fault is None ==> final(driver).last_error == old(
                        driver,
                    ).last_error)
                    &&& (old(driver).receive_fault is Some ==> final(driver).last_error
                        == ERROR_NO_MORE_ITEMS)
                },
            },
    {
        let mut i: usize = 0;
        while i < POLL_ATTEMPTS
            invariant
                self.attached(*driver),
                driver.session_live,
                i <= POLL_ATTEMPTS,
                i == 0 ==> *driver == *old(driver),
                i > 0 ==> *driver == after_empty_polls(*old(driver)),
                i > 0 ==> (old(driver).receive_fault is None || old(driver).receive_fault == Some(
                    ERROR_NO_MORE_ITEMS,
                )),
                i > 0 && old(driver).receive_fault is None ==> old(driver).inbound@.len() == 0,
                i > 1 ==> old(driver).inbound@.len() == 0,
            decreases POLL_ATTEMPTS - i,
        {
            match self.try_receive(driver) {
                Err(e) => {
                    return Err(e);
                },
                Ok(Some(packet)) => {
                    return Ok(Some(packet));
                },
                Ok(None) => {
                    i = i + 1;
                },
            }
        }
        Ok(None)
    }

    /// Returns the next inbound packet, suspending the calling thread while
    /// none is available, but waking immediately and permanently once the
    /// session is shut down.
    ///
    /// It first polls without waiting; if the queue stays empty it blocks on
    /// the read-ready and the shutdown signal at once. The read-ready signal
    /// only prompts a re-check — it can fire without a packet actually being
    /// queued — while the shutdown signal ends the call with `ShuttingDown`,
    /// and wins if both are signaled. A wait that fails at the OS level is
    /// surfaced as `WaitFailed`. Any other wait outcome is impossible, since
    /// only two handles are submitted.
    pub fn receive_blocking(self: &Arc<Self>, driver: &mut DriverModel) -> (r: Result<
        Packet,
        Error,
    >)
        requires
            self.attached(*old(driver)),
            old(driver).session_live,
            !old(driver).shutdown_event_closed,
            blocking_enabled(*old(driver)),
        ensures
            final(driver).wf(),
            self.attached(*final(driver)),
            final(driver).session_live,
            match blocking_decision(*old(driver)) {
                BlockingDecision::Delivered(b, s) => {
                    &&& r matches Ok(p) && p.buffer == b && p.size == s && p.kind
                        == Kind::ReceivePacket && p.session == *self
                    &&& final(driver).inbound@ == old(driver).inbound@.remove(0)
                    &&& (*final(driver) == (DriverModel {
                        inbound: final(driver).inbound,
                        receive_fault: None,
                        last_error: final(driver).last_error,
                        ..*old(driver)
                    }))
                },
                BlockingDecision::ReceiveFailure(c) => r == Err::<Packet, Error>(
                    Error::ReceiveFailed(c),
                ) && (*final(driver) == (DriverModel {
                    receive_fault: None,
                    last_error: c,
                    ..*old(driver)
                })),
                BlockingDecision::WaitFailure(c) => r == Err::<Packet, Error>(Error::WaitFailed(c))
                    && (*final(driver) == (DriverModel {
                    receive_fault: None,
                    wait_fault: None,
                    last_error: c,
                    ..*old(driver)
                })),
                BlockingDecision::ShuttingDown => r == Err::<Packet, Error>(Error::ShuttingDown)
                    && (*final(driver) == after_empty_polls(*old(driver))),
            },
    {
        loop
            invariant
                self.attached(*driver),
                driver.session_live,
                !driver.shutdown_event_closed,
                blocking_enabled(*driver),
                *driver == *old(driver),
            decreases 0int,
        {
            match self.poll_burst(driver) {
                Err(e) => {
                    return Err(e);
                },
                Ok(Some(packet)) => {
                    return Ok(packet);
                },
                Ok(None) => {},
            }
            // the queue looked empty: block on both signals so shutdown can
            // release this thread
            let read = self.get_read_wait_event(driver);
            let result = driver.wait_read_or_shutdown(read, self.shutdown_event);
            if result == WAIT_FAILED {
                let c = driver.get_last_error();
                return Err(Error::WaitFailed(c));
            } else if result == WAIT_OBJECT_SHUTDOWN {
                return Err(Error::ShuttingDown);
            } else if result == WAIT_OBJECT_READ {
                // the signal carries no count guarantee: a packet may or may
                // not actually be queued, so re-check from the top; with the
                // queue known empty here the model cannot take this path
                proof {
                    assert(false);
                }
            } else {
                // only two handles were submitted: no other value can come back
                return unreached();
            }
        }
    }

    /// Signals the private shutdown event, releasing every thread blocked in
    /// a receive and making all later blocking receives return `ShuttingDown`
    /// immediately. It closes nothing, touches no session handle, and
    /// invalidates no outstanding packet. Safe to call any number of times,
    /// concurrently or not: setting an already-set signal succeeds, and the
    /// transition is one-way. An OS-level failure to set the signal is
    /// surfaced, and the caller may retry.
    pub fn shutdown(&self, driver: &mut DriverModel) -> (r: Result<(), Error>)
        requires
            self.attached(*old(driver)),
            !old(driver).shutdown_event_closed,
        ensures
            final(driver).wf(),
            self.attached(*final(driver)),
            match old(driver).set_event_fault {
                Some(c) => r == Err::<(), Error>(Error::OsError(c)) && (*final(driver) == (
                DriverModel { set_event_fault: None, last_error: c, ..*old(driver) })),
                None => r == Ok::<(), Error>(()) && (*final(driver) == with_shutdown(
                    *old(driver),
                )),
            },
    {
        let ok = driver.set_event(self.shutdown_event);
        if !ok {
            let c = driver.get_last_error();
            return Err(Error::OsError(c));
        }
        Ok(())
    }

    /// Final release of the session: closes the shutdown event (swallowing a
    /// close failure — destruction must not fail loudly), tells the driver to
    /// end the session, and poisons the session handle to the null sentinel
    /// so any accidental later use is detectable. The read-ready event is not
    /// closed: the driver owns it. Only reachable once no packet still holds
    /// a reference to this session.
    pub fn teardown(&mut self, driver: &mut DriverModel)
        requires
            old(self).attached(*old(driver)),
            old(driver).session_live,
            !old(driver).shutdown_event_closed,
        ensures
            final(self).session.spec_is_null(),
            final(self).shutdown_event == old(self).shutdown_event,
            final(self).adapter == old(self).adapter,
            !final(driver).session_live,
            match old(driver).close_fault {
                Some(c) => (*final(driver) == (DriverModel {
                    close_fault: None,
                    last_error: c,
                    session_live: false,
                    ..*old(driver)
                })),
                None => (*final(driver) == (DriverModel {
                    shutdown_event_closed: true,
                    session_live: false,
                    ..*old(driver)
                })),
            },
    {
        // a failed close is swallowed: teardown never fails loudly
        let _closed = driver.close_event(self.shutdown_event);
        driver.end_session();
        self.session = Handle::null();
    }
}

/// A non-blocking receive on an empty queue decides "no packet": it is never
/// an error and, being a single poll, it never blocks.
pub proof fn lemma_empty_queue_is_no_packet(d: DriverModel)
    requires
        d.receive_fault is None,
        d.inbound@.len() == 0,
    ensures
        poll_decision(d) == PollDecision::Empty,
{
}

/// Shutdown releases every blocked receiver: once the shutdown signal is set,
/// a blocking receive on an empty, fault-free queue is enabled — no thread
/// stays parked — and decides `ShuttingDown`, however many receivers wait.
pub proof fn lemma_shutdown_releases_blocked_receivers(d: DriverModel)
    requires
        d.receive_fault is None,
        d.wait_fault is None,
        d.inbound@.len() == 0,
    ensures
        blocking_enabled(with_shutdown(d)),
        blocking_decision(with_shutdown(d)) == BlockingDecision::ShuttingDown,
{
}

/// Shutdown is a terminal state: a blocking receive that was released with
/// `ShuttingDown` leaves the driver in a state that decides `ShuttingDown`
/// again, so every subsequent call returns it immediately — the transition is
/// not reversible.
pub proof fn lemma_shutdown_is_permanent(d: DriverModel)
    requires
        d.shutdown_signaled,
        d.receive_fault is None,
        d.wait_fault is None,
        d.inbound@.len() == 0,
    ensures
        blocking_decision(d) == BlockingDecision::ShuttingDown,
        after_empty_polls(d).shutdown_signaled,
        blocking_enabled(after_empty_polls(d)),
        blocking_decision(after_empty_polls(d)) == BlockingDecision::ShuttingDown,
{
}

/// Duplicate shutdown requests are idempotent: setting the shutdown signal a
/// second time produces exactly the state the first set produced.
pub proof fn lemma_shutdown_idempotent(d: DriverModel)
    ensures
        with_shutdown(with_shutdown(d)) == with_shutdown(d),
{
    assert(with_shutdown(with_shutdown(d)) =~= with_shutdown(d));
}

} // verus!
