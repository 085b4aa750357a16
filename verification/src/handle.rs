use vstd::prelude::*;

verus! {

/// A raw OS handle value: an adapter-assigned, pointer-sized token.
///
/// The OS guarantees thread-safe concurrent use of handle values for the
/// operations this library performs on them (wait, signal, close, driver
/// I/O calls), so a handle may be shared read-only across threads.
#[derive(Clone, Copy, PartialEq, Eq, Structural, Debug)]
pub struct Handle(pub u64);

impl Handle {
    /// The null sentinel: a poisoned handle that must never be used again.
    pub open spec fn spec_is_null(&self) -> bool {
        self.0 == 0
    }

    /// Whether this handle is the null sentinel.
    pub fn is_null(&self) -> (r: bool)
        ensures
            r == self.spec_is_null(),
    {
        self.0 == 0
    }

    /// The null sentinel value itself.
    pub fn null() -> (h: Handle)
        ensures
            h.spec_is_null(),
    {
        Handle(0)
    }
}

} // verus!
