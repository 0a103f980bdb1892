//! The scope that holds the foreign objects of one notification.

use vstd::prelude::*;
use crate::error::JniError;
use crate::foreign::{ForeignObject, ForeignObjectView, Invocation, InvocationView};

verus! {

/// The objects and calls one notification has asked of the host so far,
/// under a ceiling on the number of objects.
#[derive(Debug)]
pub struct LocalFrame {
    capacity: usize,
    objects: Vec<ForeignObject>,
    calls: Vec<Invocation>,
}

impl LocalFrame {
    /// The most objects the scope may hold.
    pub closed spec fn capacity(&self) -> nat {
        self.capacity as nat
    }

    /// The objects allocated so far, oldest first.
    pub closed spec fn objects(&self) -> Seq<ForeignObjectView> {
        self.objects@.map_values(|o: ForeignObject| o@)
    }

    /// The callback invocations issued so far, oldest first.
    pub closed spec fn calls(&self) -> Seq<InvocationView> {
        self.calls@.map_values(|c: Invocation| c@)
    }

    /// The scope never holds more objects than its capacity.
    pub open spec fn wf(&self) -> bool {
        self.objects().len() <= self.capacity()
    }

    /// How many more objects the scope can take.
    pub open spec fn room(&self) -> int {
        self.capacity() - self.objects().len()
    }

    /// Opens an empty scope for at most `capacity` objects.
    pub fn new(capacity: usize) -> (frame: LocalFrame)
        ensures
            frame.wf(),
            frame.capacity() == capacity,
            frame.objects() == Seq::<ForeignObjectView>::empty(),
            frame.calls() == Seq::<InvocationView>::empty(),
    {
        let frame = LocalFrame { capacity, objects: Vec::new(), calls: Vec::new() };
        assert(frame.objects() =~= Seq::<ForeignObjectView>::empty());
        assert(frame.calls() =~= Seq::<InvocationView>::empty());
        frame
    }

    /// The number of objects allocated so far.
    pub fn len(&self) -> (n: usize)
        ensures
            n == self.objects().len(),
    {
        self.objects.len()
    }

    /// The number of objects the scope can still take.
    pub fn remaining(&self) -> (n: usize)
        requires
            self.wf(),
        ensures
            n == self.room(),
    {
        self.capacity - self.objects.len()
    }

    /// The number of callback invocations issued so far.
    pub fn call_count(&self) -> (n: usize)
        ensures
            n == self.calls().len(),
    {
        self.calls.len()
    }

    /// The object at `position`.
    pub fn object_at(&self, position: usize) -> (object: &ForeignObject)
        requires
            position < self.objects().len(),
        ensures
            object@ == self.objects()[position as int],
    {
        &self.objects[position]
    }

    /// The callback invocation at `position`.
    pub fn call_at(&self, position: usize) -> (invocation: &Invocation)
        requires
            position < self.calls().len(),
        ensures
            invocation@ == self.calls()[position as int],
    {
        &self.calls[position]
    }

    /// Allocates `object` in the scope and returns its position, or fails
    /// without allocating when the scope is full.
    pub fn allocate(&mut self, object: ForeignObject) -> (r: Result<usize, JniError>)
        requires
            old(self).wf(),
        ensures
            final(self).wf(),
            final(self).capacity() == old(self).capacity(),
            final(self).calls() == old(self).calls(),
            old(self).room() > 0 ==> r is Ok && r->Ok_0 == old(self).objects().len()
                && final(self).objects() == old(self).objects().push(object@),
            old(self).room() <= 0 ==> r == Err::<usize, JniError>(JniError::CapacityExceeded)
                && final(self).objects() == old(self).objects(),
    {
        if self.objects.len() >= self.capacity {
            return Err(JniError::CapacityExceeded);
        }
        let position = self.objects.len();
        self.objects.push(object);
        assert(self.objects() =~= old(self).objects().push(object@));
        Ok(position)
    }

    /// Issues one callback invocation.
    pub fn call(&mut self, invocation: Invocation)
        ensures
            final(self).capacity() == old(self).capacity(),
            final(self).objects() == old(self).objects(),
            final(self).calls() == old(self).calls().push(invocation@),
    {
        self.calls.push(invocation);
        assert(self.calls() =~= old(self).calls().push(invocation@));
    }

    /// Closes the scope and hands out what it held: nothing stays behind.
    pub fn release(self) -> (parts: (Vec<ForeignObject>, Vec<Invocation>))
        ensures
            parts.0@.map_values(|o: ForeignObject| o@) == self.objects(),
            parts.1@.map_values(|c: Invocation| c@) == self.calls(),
    {
        (self.objects, self.calls)
    }
}

} // verus!
