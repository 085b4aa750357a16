//! A safe, ownership-disciplined session abstraction over a packet-oriented
//! virtual network adapter exposed by a kernel-mode driver.
//!
//! The driver exchanges raw packets with user code through an opaque session
//! handle, a ring-style send/receive interface, and OS-level synchronization
//! objects. This library lets callers allocate and submit outbound packets,
//! retrieve inbound packets (non-blocking or blocking-with-cancellation), and
//! tear a session down safely while concurrent receivers are blocked.
//!
//! The driver and the OS synchronization primitives are outside
//! collaborators; they are represented here by [`driver::DriverModel`], an
//! in-memory model of the boundary contract that the session logic is
//! verified against and that tests drive directly. A host that talks to the
//! real driver performs those calls itself and reuses the session rules,
//! validation, and decision logic stated here.

pub mod adapter;
pub mod driver;
pub mod error;
pub mod handle;
pub mod packet;
pub mod session;
