use vstd::prelude::*;

verus! {

/// A hand-off of capacity one between a device poller and the render stage:
/// a new frame replaces one not yet taken, so the consumer always gets the
/// freshest frame and never falls more than one frame behind.
pub struct LatestSlot<T> {
    item: Option<T>,
}

impl<T> View for LatestSlot<T> {
    type V = Option<T>;

    closed spec fn view(&self) -> Option<T> {
        self.item
    }
}

impl<T> LatestSlot<T> {
    pub fn new() -> (r: LatestSlot<T>)
        ensures
            r@ is None,
    {
        LatestSlot { item: None }
    }

    /// Puts a frame in the slot and gives back the older one it replaced.
    pub fn put(&mut self, item: T) -> (r: Option<T>)
        ensures
            final(self)@ == Some(item),
            r == old(self)@,
    {
        let older = self.item.take();
        self.item = Some(item);
        older
    }

    /// Takes the frame in the slot, if any, leaving it empty.
    pub fn take(&mut self) -> (r: Option<T>)
        ensures
            r == old(self)@,
            final(self)@ is None,
    {
        self.item.take()
    }

    pub fn is_empty(&self) -> (r: bool)
        ensures
            r == (self@ is None),
    {
        self.item.is_none()
    }
}

} // verus!
