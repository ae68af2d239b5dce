//! The owner, weak and reader handles over one shared payload.
//!
//! The payload lives in an `Arc` that only the owner and live readers hold
//! strongly; weak handles reach it through a `std::sync::Weak`, so a weak
//! handle that outlives the payload simply fails to upgrade. The lock flag and
//! the live-reader counter sit beside it in a shared `Latch`. Every decision is
//! taken by a verified function of `latch` on the values the atomics returned.
//!
//! Storage policy: the payload is freed exactly once, when its last strong
//! holder goes away. `try_unwrap` takes it out only after it has seen no live
//! reader; an owner that is simply dropped leaves the payload to the readers
//! still holding it, which never outlive it.
use vstd::prelude::*;
use std::sync::Arc;
use std::sync::Weak;
use std::sync::atomic::AtomicBool;
use std::sync::atomic::AtomicUsize;
use std::sync::atomic::Ordering;
use crate::latch::Verdict;
use crate::latch::decide_reclaim;
use crate::latch::may_admit;
use crate::latch::may_hand_out;
use crate::latch::reclaim_verdict;
use crate::latch::admits_reader;

verus! {

/// A `std::sync::Weak`, held opaquely: the verifier cannot declare `Weak`
/// itself (its allocator parameter does not match).
#[verifier::external_body]
#[verifier::reject_recursive_types(T)]
pub(crate) struct WeakPtr<T> {
    ptr: Weak<T>,
}

/// A non-owning link to a payload, with the payload it points to as its
/// ghost target. Only `link_to` and `link_clone` make one.
#[verifier::reject_recursive_types(T)]
pub(crate) struct PayloadLink<T> {
    ptr: WeakPtr<T>,
    target: Ghost<T>,
}

impl<T> PayloadLink<T> {
    /// The payload this link points to.
    pub(crate) closed spec fn target(&self) -> T {
        self.target@
    }
}

/// Relies on `Arc::downgrade`: a weak pointer to the same allocation.
#[verifier::external_body]
pub(crate) fn link_to<T>(a: &Arc<T>) -> (r: PayloadLink<T>)
    ensures
        r.target() == **a,
{
    PayloadLink { ptr: WeakPtr { ptr: Arc::downgrade(a) }, target: Ghost(**a) }
}

/// Relies on `Weak::clone`: another weak pointer to the same allocation.
#[verifier::external_body]
pub(crate) fn link_clone<T>(l: &PayloadLink<T>) -> (r: PayloadLink<T>)
    ensures
        r.target() == l.target(),
{
    PayloadLink { ptr: WeakPtr { ptr: l.ptr.ptr.clone() }, target: Ghost(l.target@) }
}

/// Relies on `Weak::upgrade`: a strong pointer to the same allocation if the
/// payload still exists, else `None`.
#[verifier::external_body]
pub(crate) fn link_upgrade<T>(l: &PayloadLink<T>) -> (r: Option<Arc<T>>)
    ensures
        r matches Some(a) ==> *a == l.target(),
{
    l.ptr.ptr.upgrade()
}

/// Relies on `Arc::try_unwrap`: the inner value when this was the only strong
/// pointer, else the same `Arc` back.
#[verifier::external_body]
pub(crate) fn arc_try_unwrap<T>(a: Arc<T>) -> (r: Result<T, Arc<T>>)
    ensures
        match r {
            Ok(t) => t == *a,
            Err(e) => e == a,
        },
{
    Arc::try_unwrap(a)
}

/// The shared lock flag and live-reader counter.
#[derive(Debug)]
struct Latch {
    lock_flag: AtomicBool,
    live_readers: AtomicUsize,
}

impl Latch {
    fn open() -> Latch {
        Latch { lock_flag: AtomicBool::new(false), live_readers: AtomicUsize::new(0) }
    }

    /// Counts one more reader.
    fn enter(&self) {
        self.live_readers.fetch_add(1, Ordering::SeqCst);
    }
}

/// One unit of the live-reader count: released when it is dropped.
struct Ticket {
    latch: Arc<Latch>,
}

impl Drop for Ticket {
    /// Relies on `AtomicUsize::fetch_sub`: gives the reader's unit back.
    #[verifier::external_body]
    fn drop(&mut self)
        opens_invariants none
        no_unwind
    {
        self.latch.live_readers.fetch_sub(1, Ordering::SeqCst);
    }
}

/// Why a non-blocking reclamation failed; each variant hands the owner back.
#[derive(Debug)]
pub enum TryUnwrapError<T> {
    /// The latch is open and readers are live: lock it, then retry.
    WouldLock(ParentArc<T>),
    /// The latch is locked but readers are still live: wait, then retry.
    WouldBlock(ParentArc<T>),
}

/// The result of `ParentArc::try_unwrap`.
pub type TryUnwrapResult<T> = Result<T, TryUnwrapError<T>>;

/// The unique owner of a shared payload. It cannot be cloned; it hands out
/// weak handles and takes the payload back once no reader is live.
#[derive(Debug)]
pub struct ParentArc<T> {
    payload: Arc<T>,
    latch: Arc<Latch>,
}

impl<T> View for ParentArc<T> {
    type V = T;

    /// The payload owned.
    closed spec fn view(&self) -> T {
        *self.payload
    }
}

impl<T> ParentArc<T> {
    /// An owner of `data`, with its latch open and no reader.
    pub fn new(data: T) -> (r: Self)
        ensures
            r@ == data,
    {
        ParentArc { payload: Arc::new(data), latch: Arc::new(Latch::open()) }
    }

    /// Closes the latch: no weak handle can become a reader until `unlock`.
    /// Readers that are already live stay valid. Idempotent.
    pub fn lock(&self) {
        self.latch.lock_flag.store(true, Ordering::SeqCst);
    }

    /// Opens the latch again.
    pub fn unlock(&self) {
        self.latch.lock_flag.store(false, Ordering::SeqCst);
    }

    /// A snapshot of the lock flag; advisory only.
    pub fn is_locked(&self) -> bool {
        self.latch.lock_flag.load(Ordering::Relaxed)
    }

    /// A new weak handle, whatever the state of the latch.
    pub fn downgrade(other: &Self) -> (r: LockWeak<T>)
        ensures
            r@ == other@,
    {
        LockWeak { link: link_to(&other.payload), latch: other.latch.clone() }
    }

    /// A new weak handle, or `None` when the latch was seen locked.
    pub fn try_downgrade(other: &Self) -> (r: Option<LockWeak<T>>)
        ensures
            r matches Some(w) ==> w@ == other@,
    {
        let locked = other.is_locked();
        Self::hand_out(other, locked)
    }

    /// Hands out a weak handle exactly when `locked` is false.
    pub fn hand_out(other: &Self, locked: bool) -> (r: Option<LockWeak<T>>)
        ensures
            r is None <==> locked,
            r matches Some(w) ==> w@ == other@,
    {
        if may_hand_out(locked) {
            Some(Self::downgrade(other))
        } else {
            None
        }
    }

    /// Takes the payload back without blocking. It fails with `WouldLock`
    /// while the latch is open and readers are live, with `WouldBlock` while it
    /// is locked and readers are live; each error hands the owner back.
    pub fn try_unwrap(other: Self) -> (r: TryUnwrapResult<T>)
        ensures
            match r {
                Ok(v) => v == other@,
                Err(TryUnwrapError::WouldLock(o)) => o@ == other@,
                Err(TryUnwrapError::WouldBlock(o)) => o@ == other@,
            },
    {
        let locked = other.latch.lock_flag.load(Ordering::SeqCst);
        let readers = other.latch.live_readers.load(Ordering::SeqCst);
        Self::settle(other, locked, readers)
    }

    /// The reclamation decided by a snapshot: the verdict of `locked` and
    /// `readers`. Where it proceeds but a strong pointer is still held (a
    /// reader is between registering and releasing), the attempt is refused as
    /// it would be for one live reader.
    pub fn settle(other: Self, locked: bool, readers: usize) -> (r: TryUnwrapResult<T>)
        ensures
            reclaim_verdict(locked, readers as nat) == Verdict::WouldLock ==> r
                matches Err(TryUnwrapError::WouldLock(_)),
            reclaim_verdict(locked, readers as nat) == Verdict::WouldBlock ==> r
                matches Err(TryUnwrapError::WouldBlock(_)),
            r is Ok ==> reclaim_verdict(locked, readers as nat) == Verdict::Proceed,
            r matches Err(TryUnwrapError::WouldLock(_)) ==> !locked,
            r matches Err(TryUnwrapError::WouldBlock(_)) ==> locked,
            match r {
                Ok(v) => v == other@,
                Err(TryUnwrapError::WouldLock(o)) => o@ == other@,
                Err(TryUnwrapError::WouldBlock(o)) => o@ == other@,
            },
    {
        match decide_reclaim(locked, readers) {
            Verdict::WouldLock => Err(TryUnwrapError::WouldLock(other)),
            Verdict::WouldBlock => Err(TryUnwrapError::WouldBlock(other)),
            Verdict::Proceed => {
                let latch = other.latch;
                match arc_try_unwrap(other.payload) {
                    Ok(v) => Ok(v),
                    Err(payload) => {
                        let back = ParentArc { payload, latch };
                        match decide_reclaim(locked, 1) {
                            Verdict::WouldLock => Err(TryUnwrapError::WouldLock(back)),
                            _ => Err(TryUnwrapError::WouldBlock(back)),
                        }
                    },
                }
            },
        }
    }

    /// The payload, for reading.
    pub fn get(&self) -> (r: &T)
        ensures
            *r == self@,
    {
        &*self.payload
    }
}

/// A cloneable, non-owning handle on an owner's payload. It never keeps the
/// payload alive; it can try to become a reader.
#[verifier::reject_recursive_types(T)]
pub struct LockWeak<T> {
    link: PayloadLink<T>,
    latch: Arc<Latch>,
}

impl<T> View for LockWeak<T> {
    type V = T;

    /// The payload this handle refers to.
    closed spec fn view(&self) -> T {
        self.link.target()
    }
}

impl<T> Clone for LockWeak<T> {
    fn clone(&self) -> (r: Self)
        ensures
            r@ == self@,
    {
        LockWeak { link: link_clone(&self.link), latch: self.latch.clone() }
    }
}

impl<T> LockWeak<T> {
    /// A reader of the payload, or `None` when the latch is locked or the
    /// payload is gone. A reader reads the payload this handle refers to.
    pub fn upgrade(&self) -> (r: Option<ChildArc<T>>)
        ensures
            r matches Some(c) ==> c@ == self@,
    {
        let locked = self.latch.lock_flag.load(Ordering::SeqCst);
        if !may_admit(locked) {
            return None;
        }
        self.latch.enter();
        let ticket = Ticket { latch: self.latch.clone() };
        // Seen again after registering: an owner that locked and then saw no
        // reader can never be raced by this reader.
        let still = self.latch.lock_flag.load(Ordering::SeqCst);
        self.enter_with(still, ticket)
    }

    /// Turns a registered ticket into a reader exactly when `locked` is false
    /// and the payload still exists; otherwise the ticket is given back.
    fn enter_with(&self, locked: bool, ticket: Ticket) -> (r: Option<ChildArc<T>>)
        ensures
            r is Some ==> admits_reader(locked),
            r matches Some(c) ==> c@ == self@,
    {
        if !may_admit(locked) {
            return None;
        }
        match link_upgrade(&self.link) {
            Some(payload) => Some(ChildArc::from(payload, ticket)),
            None => None,
        }
    }
}

/// A live reader: while it exists, the payload stays valid and it counts as
/// one live reader. It cannot be cloned.
pub struct ChildArc<T> {
    payload: Arc<T>,
    ticket: Ticket,
}

impl<T> View for ChildArc<T> {
    type V = T;

    /// The payload read.
    closed spec fn view(&self) -> T {
        *self.payload
    }
}

impl<T> ChildArc<T> {
    fn from(payload: Arc<T>, ticket: Ticket) -> (r: Self)
        ensures
            r@ == *payload,
    {
        ChildArc { payload, ticket }
    }

    /// The payload, for reading.
    pub fn get(&self) -> (r: &T)
        ensures
            *r == self@,
    {
        &*self.payload
    }
}

impl<T> std::ops::Deref for ParentArc<T> {
    type Target = T;

    fn deref(&self) -> (r: &T)
        ensures
            *r == self@,
    {
        self.get()
    }
}

impl<T> std::ops::Deref for ChildArc<T> {
    type Target = T;

    fn deref(&self) -> (r: &T)
        ensures
            *r == self@,
    {
        self.get()
    }
}

impl<T> AsRef<T> for ParentArc<T> {
    fn as_ref(&self) -> (r: &T)
        ensures
            *r == self@,
    {
        self.get()
    }
}

impl<T> AsRef<T> for ChildArc<T> {
    fn as_ref(&self) -> (r: &T)
        ensures
            *r == self@,
    {
        self.get()
    }
}

} // verus!
