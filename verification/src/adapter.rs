use crate::handle::Handle;
use vstd::prelude::*;

verus! {

/// The parent resource that created a session.
///
/// A session holds a shared reference to its adapter so the adapter stays
/// alive at least as long as any session exists; the adapter's own lifecycle
/// (creation, configuration, driver service management) is outside this
/// library and is not managed here.
#[derive(Debug)]
pub struct Adapter {
    /// The adapter's own OS handle token.
    pub handle: Handle,
}

impl Adapter {
    /// Well-formedness: the adapter's handle has not been poisoned.
    pub open spec fn wf(&self) -> bool {
        !self.handle.spec_is_null()
    }

    /// Wraps an adapter handle obtained from the driver service.
    pub fn new(handle: Handle) -> (a: Adapter)
        ensures
            a.handle == handle,
    {
        Adapter { handle }
    }
}

} // verus!
