use vstd::prelude::*;

verus! {

/// A single-slot store that holds at most one process handle.
///
/// Exclusive access is given by `&mut self`; a host that shares the registry
/// across callbacks wraps it in a lock of its own.
pub struct ProcessRegistry<H> {
    slot: Option<H>,
}

impl<H> View for ProcessRegistry<H> {
    type V = Option<H>;

    closed spec fn view(&self) -> Option<H> {
        self.slot
    }
}

/// Number of handles held by a slot: zero or one.
pub open spec fn handle_count<H>(slot: Option<H>) -> nat {
    match slot {
        Some(_) => 1,
        None => 0,
    }
}

impl<H> ProcessRegistry<H> {
    /// An empty registry.
    pub fn new() -> (r: Self)
        ensures
            r@ == None::<H>,
    {
        ProcessRegistry { slot: None }
    }

    /// Installs `handle`, handing back the handle it replaces, if any.
    /// The replaced handle is not terminated.
    pub fn set(&mut self, handle: H) -> (prev: Option<H>)
        ensures
            final(self)@ == Some(handle),
            prev == old(self)@,
    {
        let prev = self.slot.take();
        self.slot = Some(handle);
        prev
    }

    /// Removes and returns the held handle, leaving the slot empty.
    pub fn take(&mut self) -> (r: Option<H>)
        ensures
            r == old(self)@,
            final(self)@ == None::<H>,
    {
        self.slot.take()
    }

    /// Whether no handle is held.
    pub fn is_empty(&self) -> (r: bool)
        ensures
            r == (self@ is None),
    {
        self.slot.is_none()
    }

    /// How many handles are held: zero or one.
    pub fn len(&self) -> (r: usize)
        ensures
            r as nat == handle_count(self@),
    {
        if self.slot.is_some() {
            1
        } else {
            0
        }
    }
}

} // verus!
