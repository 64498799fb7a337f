//! Exclusive access to a shared peripheral under the priority-ceiling
//! protocol. The handle of a shared resource can be reached only through
//! `Scheduler::with_lock`, and only for the length of one closure.

use vstd::prelude::*;
use crate::scheduler::model::lock_fault;
use crate::scheduler::protocol::lemma_lock_unlock_restores;
use crate::scheduler::{LockError, Scheduler};
use crate::task::ResourceId;

verus! {

/// A peripheral handle that several tasks use, with its row in the
/// scheduler's resource table.
pub struct SharedResource<T> {
    id: ResourceId,
    handle: T,
}

/// What a shared resource is.
pub struct SharedResourceView<T> {
    pub id: ResourceId,
    pub handle: T,
}

impl<T> View for SharedResource<T> {
    type V = SharedResourceView<T>;

    closed spec fn view(&self) -> SharedResourceView<T> {
        SharedResourceView { id: self.id, handle: self.handle }
    }
}

impl<T> SharedResource<T> {
    /// Wraps `handle` as the resource registered under `id`.
    pub fn new(id: ResourceId, handle: T) -> (r: Self)
        ensures
            r@ == (SharedResourceView { id, handle }),
    {
        SharedResource { id, handle }
    }

    /// The resource's row in the resource table.
    pub fn id(&self) -> (id: ResourceId)
        ensures
            id == self@.id,
    {
        self.id
    }
}

impl<T> SharedResource<Option<T>> {
    /// Whether the peripheral behind the resource was brought up. A
    /// peripheral that failed to come up leaves its resource empty, and the
    /// tasks that use it do nothing.
    pub fn is_present(&self) -> (present: bool)
        ensures
            present == (self@.handle is Some),
    {
        self.handle.is_some()
    }
}

impl Scheduler {
    /// Runs `f` on the handle of `resource` with the running level raised to
    /// the resource's ceiling, and restores the level afterwards: when the
    /// call returns, the scheduler is as it was before. While `f` runs no
    /// task that is registered for the resource can be dispatched, so `f`
    /// has the handle to itself. The exclusive borrow of `resource` keeps
    /// `f` from taking the same resource again. Where the running task may
    /// not take the resource, `f` is not run and the resource is untouched.
    pub fn with_lock<T, R, F: FnOnce(&mut T) -> R>(
        &mut self,
        resource: &mut SharedResource<T>,
        f: F,
    ) -> (r: Result<R, LockError>)
        requires
            old(self).wf(),
            lock_fault(old(self)@, old(resource)@.id) is None ==> forall|h: &mut T|
                *h == old(resource)@.handle ==> f.requires((h,)),
        ensures
            final(self).wf(),
            final(self)@ == old(self)@,
            final(resource)@.id == old(resource)@.id,
            match r {
                Ok(out) => {
                    &&& lock_fault(old(self)@, old(resource)@.id) is None
                    &&& exists|h: &mut T|
                        *h == old(resource)@.handle && *final(h) == final(resource)@.handle
                            && f.ensures((h,), out)
                },
                Err(e) => {
                    &&& lock_fault(old(self)@, old(resource)@.id) == Some(e)
                    &&& final(resource)@ == old(resource)@
                },
            },
    {
        let id = resource.id;
        match self.lock(id) {
            Err(e) => Err(e),
            Ok(_) => {
                let out = f(&mut resource.handle);
                proof {
                    lemma_lock_unlock_restores(old(self)@, id);
                }
                let released = self.unlock(id);
                assert(released is Ok);
                Ok(out)
            },
        }
    }
}

} // verus!
