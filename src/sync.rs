//! A lighter lockable pointer: the readers are plain `Arc`s that are not
//! counted, and locking only stops further upgrades.
use vstd::prelude::*;
use std::sync::Arc;
use std::sync::atomic::AtomicBool;
use std::sync::atomic::Ordering;
use crate::arc::PayloadLink;
use crate::arc::link_to;
use crate::arc::link_upgrade;
use crate::arc::arc_try_unwrap;
use crate::latch::may_admit;

verus! {

/// An `Arc` that hands out lockable weak references and can be consumed.
pub struct LockArc<T> {
    inner: Arc<T>,
    lock: Arc<AtomicBool>,
}

impl<T> View for LockArc<T> {
    type V = T;

    /// The value pointed to.
    closed spec fn view(&self) -> T {
        *self.inner
    }
}

impl<T> LockArc<T> {
    /// A new unlocked pointer to `val`.
    pub fn new(val: T) -> (r: Self)
        ensures
            r@ == val,
    {
        LockArc { inner: Arc::new(val), lock: Arc::new(AtomicBool::new(false)) }
    }

    /// A weak reference that upgrades until this pointer is locked.
    pub fn downgrade(other: &LockArc<T>) -> (r: LockWeak<T>)
        ensures
            r@ == other@,
    {
        LockWeak { inner: link_to(&other.inner), lock: other.lock.clone() }
    }

    /// Locks every weak reference of this pointer and returns the `Arc`.
    pub fn lock_arc(self) -> (r: Arc<T>)
        ensures
            *r == self@,
    {
        self.lock.store(true, Ordering::SeqCst);
        self.inner
    }

    /// Locks, then takes the value out: `Ok` with the value when no upgraded
    /// `Arc` is still held, else `Err` with the locked `Arc`.
    pub fn consumme(self) -> (r: Result<T, Arc<T>>)
        ensures
            match r {
                Ok(v) => v == self@,
                Err(a) => *a == self@,
            },
    {
        arc_try_unwrap(self.lock_arc())
    }

    /// The value, for reading.
    pub fn get(&self) -> (r: &T)
        ensures
            *r == self@,
    {
        &*self.inner
    }
}

impl<T> std::ops::Deref for LockArc<T> {
    type Target = T;

    fn deref(&self) -> (r: &T)
        ensures
            *r == self@,
    {
        self.get()
    }
}

/// A weak reference that fails to upgrade once its `LockArc` is locked.
#[verifier::reject_recursive_types(T)]
pub struct LockWeak<T> {
    inner: PayloadLink<T>,
    lock: Arc<AtomicBool>,
}

impl<T> View for LockWeak<T> {
    type V = T;

    /// The value this reference points to.
    closed spec fn view(&self) -> T {
        self.inner.target()
    }
}

impl<T> LockWeak<T> {
    /// The `Arc`, counted as one more strong reference, or `None` once the
    /// pointer is locked or the value is gone.
    pub fn upgrade(&self) -> (r: Option<Arc<T>>)
        ensures
            r matches Some(a) ==> *a == self@,
    {
        let locked = self.lock.load(Ordering::SeqCst);
        if may_admit(locked) {
            link_upgrade(&self.inner)
        } else {
            None
        }
    }
}

} // verus!
