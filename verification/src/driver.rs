use crate::handle::Handle;
use vstd::prelude::*;

verus! {

/// The driver's designated "receive queue is empty" signal; translated to an
/// absence result, never to an error.
pub const ERROR_NO_MORE_ITEMS: u32 = 259;

/// The OS code reported when the outbound ring has no room for another
/// allocation.
pub const ERROR_BUFFER_OVERFLOW: u32 = 111;

/// Dual-wait result: the read-ready signal (index 0) fired.
pub const WAIT_OBJECT_READ: u32 = 0;

/// Dual-wait result: the shutdown signal (index 1) fired.
pub const WAIT_OBJECT_SHUTDOWN: u32 = 1;

/// Dual-wait result: the wait itself failed at the OS level.
pub const WAIT_FAILED: u32 = 4294967295;

/// The handle token the model issues for the session.
pub const SESSION_TOKEN: u64 = 1;

/// The handle token the model issues for the driver-owned read-ready event.
pub const READ_EVENT_TOKEN: u64 = 2;

/// The handle token the model issues for the session's private shutdown event.
pub const SHUTDOWN_EVENT_TOKEN: u64 = 3;

/// One outbound buffer in the driver's send ring, in allocation order.
#[derive(Clone, Copy, PartialEq, Eq, Structural, Debug)]
pub struct SendSlot {
    /// The driver's token for the buffer.
    pub buffer: u64,
    /// The byte length the buffer was allocated with.
    pub size: u16,
    /// Whether the buffer has been submitted back to the driver.
    pub sent: bool,
}

/// One inbound packet queued in the driver's receive ring.
#[derive(Clone, Copy, PartialEq, Eq, Structural, Debug)]
pub struct InboundSlot {
    /// The driver's token for the buffer.
    pub buffer: u64,
    /// The byte length of the packet; the driver never delivers more than
    /// 65535 bytes, which the field's type guarantees.
    pub size: u16,
}

/// An in-memory model of the driver and OS boundary a session runs against:
/// the ring-style send and receive interface, the two wait signals, and the
/// per-thread last-error slot.
///
/// The model records every call order that matters (allocations, deliveries,
/// buffer releases), so tests can drive a session end to end and check what
/// reached the driver. Each `*_fault` field, when set, makes the next call of
/// the matching operation fail with that OS code, standing for the failures a
/// real driver or OS can produce at that point.
#[verifier::ext_equal]
pub struct DriverModel {
    /// The opaque session token the driver issued.
    pub session_handle: Handle,
    /// The driver-owned event signaled when data becomes available to read.
    /// The driver keeps ownership: a session never closes it.
    pub read_event_handle: Handle,
    /// The session's private shutdown event, owned by the session.
    pub shutdown_event_handle: Handle,
    /// How many undelivered outbound allocations the ring can hold.
    pub ring_capacity: usize,
    /// Every outbound buffer ever allocated, in allocation order. The driver
    /// forms its outbound queue from this order, not from submission order.
    pub slots: Vec<SendSlot>,
    /// How many leading slots have reached the wire: the delivered buffers
    /// are exactly the first `delivered_count` slots, in allocation order.
    pub delivered_count: usize,
    /// The inbound receive queue, delivered strictly first-in first-out.
    pub inbound: Vec<InboundSlot>,
    /// The token the next injected inbound packet will carry.
    pub next_inbound_buffer: u64,
    /// Inbound buffers handed back to the receive ring, in release order.
    pub released: Vec<u64>,
    /// Whether the shutdown event is signaled. One-way: nothing resets it.
    pub shutdown_signaled: bool,
    /// Whether the shutdown event handle has been closed.
    pub shutdown_event_closed: bool,
    /// Whether the driver still runs this session.
    pub session_live: bool,
    /// The OS last-error slot, written by failing calls.
    pub last_error: u32,
    /// Makes the next allocation fail with this OS code.
    pub alloc_fault: Option<u32>,
    /// Makes the next receive fail with this OS code.
    pub receive_fault: Option<u32>,
    /// Makes the next dual wait fail with this OS code.
    pub wait_fault: Option<u32>,
    /// Makes the next event signaling fail with this OS code.
    pub set_event_fault: Option<u32>,
    /// Makes the next handle close fail with this OS code.
    pub close_fault: Option<u32>,
}

/// The driver state with the shutdown signal set and nothing else changed:
/// the whole effect of a successful shutdown request.
pub open spec fn with_shutdown(d: DriverModel) -> DriverModel {
    DriverModel { shutdown_signaled: true, ..d }
}

impl DriverModel {
    /// Well-formedness: delivery is a prefix of the allocation order, only
    /// submitted buffers are delivered, the prefix is maximal, buffer tokens
    /// number the slots in allocation order, and the three issued handles are
    /// non-null and distinct.
    pub open spec fn wf(&self) -> bool {
        &&& self.delivered_count <= self.slots@.len()
        &&& (forall|i: int| 0 <= i < self.delivered_count ==> (#[trigger] self.slots@[i]).sent)
        &&& (self.delivered_count < self.slots@.len() ==> !self.slots@[self.delivered_count as int].sent)
        &&& (forall|i: int| 0 <= i < self.slots@.len() ==> (#[trigger] self.slots@[i]).buffer == i + 1)
        &&& !self.session_handle.spec_is_null()
        &&& !self.read_event_handle.spec_is_null()
        &&& !self.shutdown_event_handle.spec_is_null()
        &&& self.session_handle != self.read_event_handle
        &&& self.session_handle != self.shutdown_event_handle
        &&& self.read_event_handle != self.shutdown_event_handle
    }

    /// Every outbound buffer ever allocated, by token, in allocation order.
    pub open spec fn allocation_order(&self) -> Seq<u64> {
        self.slots@.map_values(|s: SendSlot| s.buffer)
    }

    /// The buffers that have reached the wire, in delivery order.
    pub open spec fn delivered_order(&self) -> Seq<u64> {
        self.allocation_order().take(self.delivered_count as int)
    }

    /// How many outbound allocations have not reached the wire yet; the ring
    /// is full when this reaches its capacity.
    pub open spec fn pending_count(&self) -> int {
        self.slots@.len() - self.delivered_count
    }

    /// The given buffer token names an allocated outbound buffer that has not
    /// been submitted yet.
    pub open spec fn spec_has_unsent_slot(&self, buffer: u64) -> bool {
        &&& 1 <= buffer <= self.slots@.len()
        &&& !self.slots@[buffer - 1].sent
    }

    /// Starts a session: a fresh driver state with an empty send ring, an
    /// empty receive queue, and the three handles issued.
    pub fn start(ring_capacity: usize) -> (d: DriverModel)
        ensures
            d.wf(),
            d.ring_capacity == ring_capacity,
            d.session_live,
            !d.shutdown_signaled,
            !d.shutdown_event_closed,
            d.slots@.len() == 0,
            d.delivered_count == 0,
            d.inbound@.len() == 0,
            d.released@.len() == 0,
            d.next_inbound_buffer == 1,
            d.last_error == 0,
            d.alloc_fault is None,
            d.receive_fault is None,
            d.wait_fault is None,
            d.set_event_fault is None,
            d.close_fault is None,
            d.session_handle == (Handle(SESSION_TOKEN)),
            d.read_event_handle == (Handle(READ_EVENT_TOKEN)),
            d.shutdown_event_handle == (Handle(SHUTDOWN_EVENT_TOKEN)),
    {
        DriverModel {
            session_handle: Handle(SESSION_TOKEN),
            read_event_handle: Handle(READ_EVENT_TOKEN),
            shutdown_event_handle: Handle(SHUTDOWN_EVENT_TOKEN),
            ring_capacity,
            slots: Vec::new(),
            delivered_count: 0,
            inbound: Vec::new(),
            next_inbound_buffer: 1,
            released: Vec::new(),
            shutdown_signaled: false,
            shutdown_event_closed: false,
            session_live: true,
            last_error: 0,
            alloc_fault: None,
            receive_fault: None,
            wait_fault: None,
            set_event_fault: None,
            close_fault: None,
        }
    }

    /// The OS last-error slot, as the OS reports it after a failed call.
    pub fn get_last_error(&self) -> (r: u32)
        ensures
            r == self.last_error,
    {
        self.last_error
    }

    /// Requests a writable outbound buffer of exactly `size` bytes. Returns
    /// the buffer token, or nothing with the last error set when the ring has
    /// no room (or an injected fault fires). Allocation order determines the
    /// order in which the driver will put buffers on the wire.
    pub fn allocate(&mut self, size: u16) -> (r: Option<u64>)
        requires
            old(self).wf(),
            old(self).session_live,
            old(self).slots@.len() < usize::MAX,
        ensures
            final(self).wf(),
            match old(self).alloc_fault {
                Some(c) => r is None && (*final(self) == (DriverModel {
                    alloc_fault: None,
                    last_error: c,
                    ..*old(self)
                })),
                None => if old(self).pending_count() >= old(self).ring_capacity {
                    r is None && (*final(self) == (DriverModel {
                        last_error: ERROR_BUFFER_OVERFLOW,
                        ..*old(self)
                    }))
                } else {
                    &&& r == Some((old(self).slots@.len() + 1) as u64)
                    &&& final(self).slots@ == old(self).slots@.push((SendSlot {
                        buffer: (old(self).slots@.len() + 1) as u64,
                        size: size,
                        sent: false,
                    }))
                    &&& (*final(self) == (DriverModel { slots: final(self).slots, ..*old(self) }))
                },
            },
    {
        if let Some(c) = self.alloc_fault {
            self.alloc_fault = None;
            self.last_error = c;
            return None;
        }
        if self.slots.len() - self.delivered_count >= self.ring_capacity {
            self.last_error = ERROR_BUFFER_OVERFLOW;
            return None;
        }
        let buffer: u64 = (self.slots.len() as u64) + 1;
        self.slots.push(SendSlot { buffer, size, sent: false });
        Some(buffer)
    }

    /// Submits an allocated buffer. The driver marks it sent, then puts on
    /// the wire every leading buffer of the allocation order that has been
    /// submitted: delivery happens in allocation order, never in submission
    /// order, and an unsubmitted buffer holds all later allocations back.
    pub fn send(&mut self, buffer: u64)
        requires
            old(self).wf(),
            old(self).session_live,
            old(self).spec_has_unsent_slot(buffer),
        ensures
            final(self).wf(),
            final(self).slots@.len() == old(self).slots@.len(),
            forall|i: int| 0 <= i < old(self).slots@.len() ==> #[trigger] final(self).slots@[i]
                == (if i == buffer - 1 { (SendSlot { sent: true, ..old(self).slots@[i] }) } else {
                    old(self).slots@[i]
                }),
            final(self).delivered_count >= old(self).delivered_count,
            (*final(self) == (DriverModel {
                slots: final(self).slots,
                delivered_count: final(self).delivered_count,
                ..*old(self)
            })),
    {
        let n: usize = self.slots.len();
        proof {
            // the token is in range, so the narrowing below loses nothing
            assert(1 <= buffer <= n);
        }
        let idx: usize = (buffer as usize) - 1;
        let slot = self.slots[idx];
        self.slots[idx] = SendSlot { buffer: slot.buffer, size: slot.size, sent: true };
        while self.delivered_count < self.slots.len() && self.slots[self.delivered_count].sent
            invariant
                old(self).wf(),
                old(self).spec_has_unsent_slot(buffer),
                old(self).delivered_count <= self.delivered_count <= self.slots@.len(),
                self.slots@.len() == old(self).slots@.len(),
                forall|i: int| 0 <= i < old(self).slots@.len() ==> #[trigger] self.slots@[i]
                    == (if i == buffer - 1 { (SendSlot { sent: true, ..old(self).slots@[i] }) } else {
                        old(self).slots@[i]
                    }),
                forall|i: int| 0 <= i < self.delivered_count ==> (#[trigger] self.slots@[i]).sent,
                (*self == (DriverModel {
                    slots: self.slots,
                    delivered_count: self.delivered_count,
                    ..*old(self)
                })),
            decreases self.slots@.len() - self.delivered_count,
        {
            self.delivered_count = self.delivered_count + 1;
        }
    }

    /// Dequeues the next inbound packet without blocking. Returns its buffer
    /// token and size, or nothing with the last error set to the designated
    /// empty-queue signal (or to an injected fault's code).
    pub fn receive(&mut self) -> (r: Option<(u64, u16)>)
        requires
            old(self).wf(),
            old(self).session_live,
        ensures
            final(self).wf(),
            match old(self).receive_fault {
                Some(c) => r is None && (*final(self) == (DriverModel {
                    receive_fault: None,
                    last_error: c,
                    ..*old(self)
                })),
                None => if old(self).inbound@.len() == 0 {
                    r is None && (*final(self) == (DriverModel {
                        last_error: ERROR_NO_MORE_ITEMS,
                        ..*old(self)
                    }))
                } else {
                    &&& r == Some((old(self).inbound@[0].buffer, old(self).inbound@[0].size))
                    &&& final(self).inbound@ == old(self).inbound@.remove(0)
                    &&& (*final(self) == (DriverModel { inbound: final(self).inbound, ..*old(self) }))
                },
            },
    {
        if let Some(c) = self.receive_fault {
            self.receive_fault = None;
            self.last_error = c;
            return None;
        }
        if self.inbound.len() == 0 {
            self.last_error = ERROR_NO_MORE_ITEMS;
            return None;
        }
        let slot = self.inbound.remove(0);
        Some((slot.buffer, slot.size))
    }

    /// Hands an inbound buffer back to the receive ring.
    pub fn release_receive(&mut self, buffer: u64)
        requires
            old(self).wf(),
            old(self).session_live,
        ensures
            final(self).wf(),
            final(self).released@ == old(self).released@.push(buffer),
            (*final(self) == (DriverModel { released: final(self).released, ..*old(self) })),
    {
        self.released.push(buffer);
    }

    /// The driver-owned event that is signaled when data becomes available.
    /// Stable for the whole session, so callers may cache it.
    pub fn read_wait_event(&self) -> (h: Handle)
        ensures
            h == self.read_event_handle,
    {
        self.read_event_handle
    }

    /// Signals an event object. Setting an already-set event succeeds and
    /// changes nothing, so shutdown requests are idempotent.
    pub fn set_event(&mut self, h: Handle) -> (ok: bool)
        requires
            old(self).wf(),
            h == old(self).shutdown_event_handle,
            !old(self).shutdown_event_closed,
        ensures
            final(self).wf(),
            match old(self).set_event_fault {
                Some(c) => !ok && (*final(self) == (DriverModel {
                    set_event_fault: None,
                    last_error: c,
                    ..*old(self)
                })),
                None => ok && (*final(self) == with_shutdown(*old(self))),
            },
    {
        if let Some(c) = self.set_event_fault {
            self.set_event_fault = None;
            self.last_error = c;
            return false;
        }
        self.shutdown_signaled = true;
        true
    }

    /// Blocks on the read-ready event and the shutdown event at once, with no
    /// timeout, and reports which fired. The shutdown signal wins when both
    /// are signaled. A wait that would never return (no signal pending and no
    /// fault) cannot be expressed in a single-threaded model, so callers rule
    /// it out.
    pub fn wait_read_or_shutdown(&mut self, read: Handle, shutdown: Handle) -> (r: u32)
        requires
            old(self).wf(),
            read == old(self).read_event_handle,
            shutdown == old(self).shutdown_event_handle,
            !old(self).shutdown_event_closed,
            old(self).wait_fault is Some || old(self).shutdown_signaled || old(self).inbound@.len()
                > 0,
        ensures
            final(self).wf(),
            match old(self).wait_fault {
                Some(c) => r == WAIT_FAILED && (*final(self) == (DriverModel {
                    wait_fault: None,
                    last_error: c,
                    ..*old(self)
                })),
                None => (*final(self) == *old(self)) && (if old(self).shutdown_signaled {
                    r == WAIT_OBJECT_SHUTDOWN
                } else {
                    r == WAIT_OBJECT_READ && old(self).inbound@.len() > 0
                }),
            },
    {
        if let Some(c) = self.wait_fault {
            self.wait_fault = None;
            self.last_error = c;
            return WAIT_FAILED;
        }
        if self.shutdown_signaled {
            return WAIT_OBJECT_SHUTDOWN;
        }
        WAIT_OBJECT_READ
    }

    /// Closes the session's private shutdown event handle.
    pub fn close_event(&mut self, h: Handle) -> (ok: bool)
        requires
            old(self).wf(),
            h == old(self).shutdown_event_handle,
            !old(self).shutdown_event_closed,
        ensures
            final(self).wf(),
            match old(self).close_fault {
                Some(c) => !ok && (*final(self) == (DriverModel {
                    close_fault: None,
                    last_error: c,
                    ..*old(self)
                })),
                None => ok && (*final(self) == (DriverModel {
                    shutdown_event_closed: true,
                    ..*old(self)
                })),
            },
    {
        if let Some(c) = self.close_fault {
            self.close_fault = None;
            self.last_error = c;
            return false;
        }
        self.shutdown_event_closed = true;
        true
    }

    /// Tells the driver to end the session.
    pub fn end_session(&mut self)
        requires
            old(self).wf(),
            old(self).session_live,
        ensures
            final(self).wf(),
            (*final(self) == (DriverModel { session_live: false, ..*old(self) })),
    {
        self.session_live = false;
    }

    /// Queues an inbound packet of the given size, standing for the wire
    /// delivering one; returns the buffer token it will carry.
    pub fn inject_inbound(&mut self, size: u16) -> (buffer: u64)
        requires
            old(self).wf(),
            old(self).next_inbound_buffer < u64::MAX,
        ensures
            final(self).wf(),
            buffer == old(self).next_inbound_buffer,
            final(self).inbound@ == old(self).inbound@.push((InboundSlot { buffer, size })),
            final(self).next_inbound_buffer == old(self).next_inbound_buffer + 1,
            (*final(self) == (DriverModel {
                inbound: final(self).inbound,
                next_inbound_buffer: final(self).next_inbound_buffer,
                ..*old(self)
            })),
    {
        let buffer = self.next_inbound_buffer;
        self.inbound.push(InboundSlot { buffer, size });
        self.next_inbound_buffer = self.next_inbound_buffer + 1;
        buffer
    }

    /// Makes the next allocation fail with the given OS code.
    pub fn inject_allocation_fault(&mut self, code: u32)
        requires
            old(self).wf(),
        ensures
            final(self).wf(),
            (*final(self) == (DriverModel { alloc_fault: Some(code), ..*old(self) })),
    {
        self.alloc_fault = Some(code);
    }

    /// Makes the next receive fail with the given OS code.
    pub fn inject_receive_fault(&mut self, code: u32)
        requires
            old(self).wf(),
        ensures
            final(self).wf(),
            (*final(self) == (DriverModel { receive_fault: Some(code), ..*old(self) })),
    {
        self.receive_fault = Some(code);
    }

    /// Makes the next dual wait fail with the given OS code.
    pub fn inject_wait_fault(&mut self, code: u32)
        requires
            old(self).wf(),
        ensures
            final(self).wf(),
            (*final(self) == (DriverModel { wait_fault: Some(code), ..*old(self) })),
    {
        self.wait_fault = Some(code);
    }

    /// Makes the next event signaling fail with the given OS code.
    pub fn inject_set_event_fault(&mut self, code: u32)
        requires
            old(self).wf(),
        ensures
            final(self).wf(),
            (*final(self) == (DriverModel { set_event_fault: Some(code), ..*old(self) })),
    {
        self.set_event_fault = Some(code);
    }

    /// Makes the next handle close fail with the given OS code.
    pub fn inject_close_fault(&mut self, code: u32)
        requires
            old(self).wf(),
        ensures
            final(self).wf(),
            (*final(self) == (DriverModel { close_fault: Some(code), ..*old(self) })),
    {
        self.close_fault = Some(code);
    }

    /// The number of buffers that have reached the wire so far.
    pub fn delivered_len(&self) -> (n: usize)
        ensures
            n == self.delivered_count,
    {
        self.delivered_count
    }

    /// The token of the `i`-th buffer that reached the wire: delivery order
    /// read back, for checking what the driver actually put on the wire.
    pub fn delivered_at(&self, i: usize) -> (b: u64)
        requires
            self.wf(),
            i < self.delivered_count,
        ensures
            b == self.delivered_order()[i as int],
    {
        self.slots[i].buffer
    }
}

/// Delivery follows allocation: whatever order buffers are submitted in, the
/// buffers on the wire are exactly the leading `delivered_count` buffers of
/// the allocation order — a prefix of it, never a reordering or a selection.
pub proof fn lemma_delivery_follows_allocation(d: DriverModel)
    requires
        d.wf(),
    ensures
        d.delivered_order() == d.allocation_order().take(d.delivered_count as int),
        d.delivered_order().is_prefix_of(d.allocation_order()),
        forall|i: int| 0 <= i < d.delivered_count ==> (#[trigger] d.slots@[i]).sent,
{
    assert(d.delivered_order().is_prefix_of(d.allocation_order())) by {
        assert(d.delivered_order() =~= d.allocation_order().take(d.delivered_count as int));
    }
}

/// Once every allocated buffer has been submitted, every buffer has reached
/// the wire — in allocation order. Together with the prefix law above: buffers
/// allocated in some order and submitted in any other order are still
/// delivered in allocation order, completely.
pub proof fn lemma_all_submitted_means_all_delivered(d: DriverModel)
    requires
        d.wf(),
        forall|i: int| 0 <= i < d.slots@.len() ==> (#[trigger] d.slots@[i]).sent,
    ensures
        d.delivered_count == d.slots@.len(),
        d.delivered_order() == d.allocation_order(),
{
    assert(d.delivered_order() =~= d.allocation_order());
}

/// A freshly allocated buffer is always submittable: right after a successful
/// allocation hands out the buffer token, the submission contract's demand —
/// an allocated, not yet submitted slot under that token — holds, so an
/// allocation followed immediately by a submission never fails.
pub proof fn lemma_fresh_allocation_is_submittable(
    pre: DriverModel,
    post: DriverModel,
    buffer: u64,
    size: u16,
)
    requires
        pre.wf(),
        buffer == pre.slots@.len() + 1,
        post.slots@ == pre.slots@.push(
            (SendSlot { buffer: (pre.slots@.len() + 1) as u64, size: size, sent: false }),
        ),
    ensures
        post.spec_has_unsent_slot(buffer),
{
}

} // verus!
