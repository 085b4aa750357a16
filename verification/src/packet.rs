use crate::driver::DriverModel;
use crate::session::Session;
use std::sync::Arc;
use vstd::prelude::*;

verus! {

/// Where a packet stands in its lifecycle. Outbound packets move
/// `SendPacketPending` to `SendPacketSent` when submitted; inbound packets
/// are born `ReceivePacket`. No other transition exists.
#[derive(Clone, Copy, PartialEq, Eq, Structural, Debug)]
pub enum Kind {
    /// Outbound, allocated but not yet submitted. Submitting it is the only
    /// valid next step; releasing a packet in this state is invalid usage,
    /// because it would hold up every later allocation forever.
    SendPacketPending,
    /// Outbound and already consumed by the driver on submission. The only
    /// remaining valid operation is release, which is a no-op.
    SendPacketSent,
    /// Inbound, dequeued from the driver's receive ring. Release returns the
    /// buffer to the ring.
    ReceivePacket,
}

/// One network packet: a bounded view of at most 65535 bytes into a buffer
/// the driver owns, tagged with its lifecycle state and holding a strong
/// reference to the session it belongs to.
#[derive(Debug)]
pub struct Packet {
    /// The driver's token for the buffer this packet occupies.
    pub buffer: u64,
    /// The packet's byte length; the driver neither allocates nor delivers
    /// more than 65535 bytes, which the field's type guarantees.
    pub size: u16,
    /// Where the packet stands in its lifecycle.
    pub kind: Kind,
    /// The owning session. The strong reference keeps the session — and
    /// transitively its handles and its adapter — alive while this packet
    /// exists, even across a concurrent shutdown.
    pub session: Arc<Session>,
}

impl Packet {
    /// Outbound and not yet submitted.
    pub open spec fn is_send_pending(&self) -> bool {
        self.kind == Kind::SendPacketPending
    }

    /// Inbound, dequeued from the receive ring.
    pub open spec fn is_received(&self) -> bool {
        self.kind == Kind::ReceivePacket
    }

    /// The packet's byte length.
    pub fn bytes_len(&self) -> (n: usize)
        ensures
            n == self.size,
    {
        self.size as usize
    }

    /// The owning session, as a fresh strong reference.
    pub fn session(&self) -> (s: Arc<Session>)
        ensures
            s == self.session,
    {
        self.session.clone()
    }

    /// Releases the packet's buffer. An inbound packet's buffer goes back to
    /// the driver's receive ring; a submitted outbound packet was already
    /// consumed on submission, so its release is a no-op for the driver.
    /// Releasing a pending outbound packet is invalid usage — a caller
    /// contract, as the driver gives this library no way to take such an
    /// allocation back.
    pub fn release(self, driver: &mut DriverModel)
        requires
            old(driver).wf(),
            old(driver).session_live,
            !self.is_send_pending(),
        ensures
            final(driver).wf(),
            self.is_received() ==> final(driver).released@ == old(driver).released@.push(
                self.buffer,
            ) && (*final(driver) == (DriverModel {
                released: final(driver).released,
                ..*old(driver)
            })),
            self.kind == Kind::SendPacketSent ==> *final(driver) == *old(driver),
    {
        match self.kind {
            Kind::ReceivePacket => driver.release_receive(self.buffer),
            _ => {},
        }
    }
}

} // verus!
