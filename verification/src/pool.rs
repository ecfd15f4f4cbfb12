//! Accounting of the driver's frame-buffer pool: every successful poll
//! leases one buffer out of the pool, and every lease carries exactly one
//! obligation to return that buffer.

use vstd::prelude::*;

verus! {

/// The return obligation of one successfully acquired frame buffer. A
/// lease is created only by [`FramePool::acquire`] and consumed only by
/// [`FramePool::release`]; it is neither copyable nor constructible by a
/// caller, so no buffer can be returned twice on its account. In the
/// deployed wrapper the handle's unconditional teardown path surrenders
/// the lease on every exit — normal, early, or unwinding.
pub struct Lease {
    _own: (),
}

/// Counting model of the driver's buffer pool as this crate drives it: how
/// many buffers the driver has handed out and how many have been returned.
/// The driver's reclaim call is treated as infallible, so a return is a
/// plain count.
pub struct FramePool {
    acquired: u64,
    released: u64,
}

impl FramePool {
    /// Total successful acquisitions so far.
    pub closed spec fn spec_acquired(self) -> u64 {
        self.acquired
    }

    /// Total returns issued to the driver so far.
    pub closed spec fn spec_released(self) -> u64 {
        self.released
    }

    /// The pool's accounting invariant: buffers returned never outnumber
    /// buffers handed out.
    pub closed spec fn wf(self) -> bool {
        self.released <= self.acquired
    }

    /// The pool as it stands when the peripheral becomes ready: nothing
    /// handed out, nothing returned.
    pub fn new() -> (pool: FramePool)
        ensures
            pool.spec_acquired() == 0,
            pool.spec_released() == 0,
            pool.wf(),
    {
        FramePool { acquired: 0, released: 0 }
    }

    /// Records one successful poll: the driver handed a buffer out, and the
    /// returned lease is the sole obligation to give it back.
    pub fn acquire(&mut self) -> (lease: Lease)
        requires
            old(self).wf(),
            old(self).spec_acquired() < u64::MAX,
        ensures
            final(self).spec_acquired() == old(self).spec_acquired() + 1,
            final(self).spec_released() == old(self).spec_released(),
            final(self).wf(),
    {
        self.acquired = self.acquired + 1;
        Lease { _own: () }
    }

    /// Records one return call to the driver, consuming the buffer's lease:
    /// after this the obligation is discharged and cannot be replayed.
    pub fn release(&mut self, lease: Lease)
        requires
            old(self).wf(),
            old(self).spec_released() < old(self).spec_acquired(),
        ensures
            final(self).spec_released() == old(self).spec_released() + 1,
            final(self).spec_acquired() == old(self).spec_acquired(),
            final(self).wf(),
    {
        let Lease { _own } = lease;
        self.released = self.released + 1;
    }

    /// Total successful acquisitions so far.
    pub fn acquired_count(&self) -> (n: u64)
        ensures
            n == self.spec_acquired(),
    {
        self.acquired
    }

    /// Total returns issued to the driver so far.
    pub fn released_count(&self) -> (n: u64)
        ensures
            n == self.spec_released(),
    {
        self.released
    }
}

/// Law: single release. Over any sequence of acquire and release
/// operations the pool admits — each acquisition handing out one lease and
/// each release consuming one — the number of "return buffer" calls issued
/// to the driver never exceeds the number of successful acquisitions.
pub proof fn lemma_release_never_exceeds_acquire(pool: FramePool)
    requires
        pool.wf(),
    ensures
        pool.spec_released() <= pool.spec_acquired(),
{
}

} // verus!
