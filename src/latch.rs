//! The rules of the access latch, stated on plain snapshots of its two
//! counters: whether it is locked, and how many readers are live.
//!
//! The shared-memory handles in `arc` read their atomics and hand the values
//! they observed to the decision functions here, so every decision they take
//! is one of the verified verdicts below.
//!
//! The same rules are also given as an abstract state machine (`LatchModel`,
//! `step`, `run`), and the lemmas at the end of the file prove how that model
//! behaves across whole sequences of operations. The model is not refined by
//! the handles: their atomics carry no values that a proof can follow, so the
//! lemmas describe the rules the handles follow, not the handles themselves.
use vstd::prelude::*;

verus! {

/// What a non-blocking reclamation does for a given snapshot of the latch.
#[derive(PartialEq, Eq, Structural, Clone, Copy, Debug)]
pub enum Verdict {
    /// No reader is live: the payload can be taken.
    Proceed,
    /// The latch is open and readers are live: lock it first, then retry.
    WouldLock,
    /// The latch is locked but readers are still live: wait for them.
    WouldBlock,
}

/// The verdict of a reclamation attempt, checked in this order: an open latch
/// with live readers, then any live reader, else success.
pub open spec fn reclaim_verdict(locked: bool, readers: nat) -> Verdict {
    if !locked && readers > 0 {
        Verdict::WouldLock
    } else if readers != 0 {
        Verdict::WouldBlock
    } else {
        Verdict::Proceed
    }
}

/// A new reader may only be admitted while the latch is open.
pub open spec fn admits_reader(locked: bool) -> bool {
    !locked
}

/// Decides a reclamation attempt from a snapshot of the latch.
pub fn decide_reclaim(locked: bool, readers: usize) -> (r: Verdict)
    ensures
        r == reclaim_verdict(locked, readers as nat),
{
    if !locked && readers > 0 {
        Verdict::WouldLock
    } else if readers != 0 {
        Verdict::WouldBlock
    } else {
        Verdict::Proceed
    }
}

/// Whether a weak handle may turn into a reader, given the lock flag it saw.
pub fn may_admit(locked: bool) -> (r: bool)
    ensures
        r == admits_reader(locked),
{
    !locked
}

/// Whether a new weak handle may be handed out, given the lock flag seen.
pub fn may_hand_out(locked: bool) -> (r: bool)
    ensures
        r == !locked,
{
    !locked
}

/// One operation on the latch.
#[derive(PartialEq, Eq, Structural, Clone, Copy, Debug)]
pub enum LatchEvent {
    /// The owner closes the latch.
    Lock,
    /// The owner opens the latch.
    Unlock,
    /// A weak handle tries to become a reader.
    Upgrade,
    /// A live reader is released.
    Release,
}

/// The abstract state of a latch: its lock flag and its live reader count.
pub struct LatchModel {
    pub locked: bool,
    pub readers: nat,
}

/// The state in which a fresh owner starts.
pub open spec fn initial() -> LatchModel {
    LatchModel { locked: false, readers: 0 }
}

/// The effect of one operation.
pub open spec fn step(s: LatchModel, e: LatchEvent) -> LatchModel {
    match e {
        LatchEvent::Lock => LatchModel { locked: true, readers: s.readers },
        LatchEvent::Unlock => LatchModel { locked: false, readers: s.readers },
        LatchEvent::Upgrade => if admits_reader(s.locked) {
            LatchModel { locked: s.locked, readers: s.readers + 1 }
        } else {
            s
        },
        LatchEvent::Release => if s.readers > 0 {
            LatchModel { locked: s.locked, readers: (s.readers - 1) as nat }
        } else {
            s
        },
    }
}

/// The state reached after a sequence of operations.
pub open spec fn run(s: LatchModel, evs: Seq<LatchEvent>) -> LatchModel
    decreases evs.len(),
{
    if evs.len() == 0 {
        s
    } else {
        step(run(s, evs.drop_last()), evs.last())
    }
}

/// How many times `e` occurs in `evs`.
pub open spec fn occurrences(evs: Seq<LatchEvent>, e: LatchEvent) -> nat
    decreases evs.len(),
{
    if evs.len() == 0 {
        0
    } else {
        occurrences(evs.drop_last(), e) + if evs.last() == e {
            1nat
        } else {
            0nat
        }
    }
}

/// The number of readers that are live after `evs`, starting from `start`
/// of them, when every upgrade succeeds: those obtained minus those released.
pub open spec fn live_handles(start: nat, evs: Seq<LatchEvent>) -> int {
    start + occurrences(evs, LatchEvent::Upgrade) - occurrences(evs, LatchEvent::Release)
}

/// Every release in `evs` releases a reader that is live at that point.
pub open spec fn releases_live_readers(start: nat, evs: Seq<LatchEvent>) -> bool {
    forall|i: int| 0 <= i <= evs.len() ==> live_handles(start, #[trigger] evs.take(i)) >= 0
}

/// While the latch stays open, its reader count is exactly the number of live
/// readers after any sequence of upgrades and releases, and so never negative.
pub proof fn lemma_count_tracks_live_readers(s: LatchModel, evs: Seq<LatchEvent>)
    requires
        !s.locked,
        forall|i: int| 0 <= i < evs.len() ==> evs[i] != LatchEvent::Lock,
        releases_live_readers(s.readers, evs),
    ensures
        run(s, evs).readers == live_handles(s.readers, evs),
        !run(s, evs).locked,
    decreases evs.len(),
{
    if evs.len() > 0 {
        let pre = evs.drop_last();
        assert(pre =~= evs.take(evs.len() - 1));
        assert forall|i: int| 0 <= i <= pre.len() implies live_handles(
            s.readers,
            #[trigger] pre.take(i),
        ) >= 0 by {
            assert(pre.take(i) =~= evs.take(i));
        }
        lemma_count_tracks_live_readers(s, pre);
        assert(evs.take(evs.len() as int) =~= evs);
    }
}

/// Once the latch is locked, no upgrade succeeds until an unlock: along any
/// sequence of operations without an unlock, the latch stays closed and the
/// reader count never grows.
pub proof fn lemma_locked_latch_admits_nobody(s: LatchModel, evs: Seq<LatchEvent>)
    requires
        s.locked,
        forall|i: int| 0 <= i < evs.len() ==> evs[i] != LatchEvent::Unlock,
    ensures
        run(s, evs).locked,
        run(s, evs).readers <= s.readers,
        forall|i: int|
            0 <= i < evs.len() ==> !admits_reader(#[trigger] run(s, evs.take(i)).locked),
    decreases evs.len(),
{
    if evs.len() > 0 {
        let pre = evs.drop_last();
        lemma_locked_latch_admits_nobody(s, pre);
        assert forall|i: int| 0 <= i < evs.len() implies !admits_reader(
            #[trigger] run(s, evs.take(i)).locked,
        ) by {
            if i < pre.len() {
                assert(evs.take(i) =~= pre.take(i));
            } else {
                assert(evs.take(i) =~= pre);
            }
        }
    }
}

/// A locked latch holds a reclamation back until every reader that was live
/// when it locked has been released: along any sequence without an unlock,
/// the count only falls by the releases, so with fewer releases than readers
/// the attempt is still refused with `WouldBlock`.
pub proof fn lemma_reclaim_waits_for_every_reader(s: LatchModel, evs: Seq<LatchEvent>)
    requires
        s.locked,
        forall|i: int| 0 <= i < evs.len() ==> evs[i] != LatchEvent::Unlock,
        occurrences(evs, LatchEvent::Release) < s.readers,
    ensures
        run(s, evs).readers == s.readers - occurrences(evs, LatchEvent::Release),
        reclaim_verdict(run(s, evs).locked, run(s, evs).readers) == Verdict::WouldBlock,
    decreases evs.len(),
{
    lemma_locked_latch_admits_nobody(s, evs);
    if evs.len() > 0 {
        let pre = evs.drop_last();
        lemma_reclaim_waits_for_every_reader(s, pre);
        lemma_locked_latch_admits_nobody(s, pre);
    }
}

/// A reclamation attempt only ever proceeds when no reader is live.
pub proof fn lemma_reclaim_needs_no_reader(locked: bool, readers: nat)
    ensures
        reclaim_verdict(locked, readers) == Verdict::Proceed <==> readers == 0,
{
}

/// With no live reader, a reclamation attempt proceeds whether or not the
/// latch is locked.
pub proof fn lemma_reclaim_ignores_lock_when_idle()
    ensures
        reclaim_verdict(true, 0) == Verdict::Proceed,
        reclaim_verdict(false, 0) == Verdict::Proceed,
{
}

/// With at least one live reader, a reclamation attempt is refused: with
/// `WouldLock` while the latch is open and `WouldBlock` while it is locked.
pub proof fn lemma_reclaim_refused_with_reader(locked: bool, readers: nat)
    requires
        readers >= 1,
    ensures
        reclaim_verdict(locked, readers) == (if locked {
            Verdict::WouldBlock
        } else {
            Verdict::WouldLock
        }),
{
}

} // verus!
