use parc::latch::decide_reclaim;
use parc::latch::may_admit;
use parc::latch::may_hand_out;
use parc::latch::Verdict;
use parc::ChildArc;
use parc::LockWeak;
use parc::ParentArc;
use parc::TryUnwrapError;
use std::sync::Mutex;

/// Locks the latch and retries until the payload comes back.
fn reclaim<T>(parent: ParentArc<T>) -> T {
    parent.lock();
    let mut parent = parent;
    loop {
        match ParentArc::try_unwrap(parent) {
            Ok(v) => return v,
            Err(TryUnwrapError::WouldLock(p)) => {
                p.lock();
                parent = p;
            }
            Err(TryUnwrapError::WouldBlock(p)) => parent = p,
        }
        std::hint::spin_loop();
    }
}

#[test]
fn new() {
    let _ = ParentArc::new(2);
}

#[test]
fn new_owner_is_unlocked_and_reads_its_value() {
    let parent = ParentArc::new(7u32);
    assert!(!parent.is_locked());
    assert_eq!(*parent, 7);
    assert_eq!(*parent.get(), 7);
}

#[test]
fn lock_is_idempotent_and_unlock_reopens() {
    let parent = ParentArc::new(0u8);
    parent.lock();
    parent.lock();
    assert!(parent.is_locked());
    parent.unlock();
    assert!(!parent.is_locked());
    parent.unlock();
    assert!(!parent.is_locked());
}

#[test]
fn upgrade_then_reclaim_returns_the_value() {
    let parent = ParentArc::new(0);
    let weak: LockWeak<i32> = ParentArc::downgrade(&parent);
    let reader: ChildArc<i32> = weak.upgrade().unwrap();
    assert_eq!(*reader, 0);
    drop(reader);
    assert_eq!(reclaim(parent), 0);
}

#[test]
fn locked_latch_refuses_then_unlock_admits() {
    let parent = ParentArc::new(42);
    let weak = ParentArc::downgrade(&parent);
    parent.lock();
    assert!(weak.upgrade().is_none());
    parent.unlock();
    let reader = weak.upgrade().unwrap();
    assert_eq!(*reader, 42);
}

#[test]
fn try_unwrap_walks_would_lock_would_block_ok() {
    let parent = ParentArc::new(Mutex::new(true));
    let weak = ParentArc::downgrade(&parent);
    let child = weak.upgrade().unwrap();

    let parent = match ParentArc::try_unwrap(parent) {
        Err(TryUnwrapError::WouldLock(p)) => p,
        _ => panic!("expected WouldLock"),
    };
    parent.lock();
    let parent = match ParentArc::try_unwrap(parent) {
        Err(TryUnwrapError::WouldBlock(p)) => p,
        _ => panic!("expected WouldBlock"),
    };
    drop(child);
    let value = ParentArc::try_unwrap(parent).unwrap();
    assert!(*value.lock().unwrap());
}

#[test]
fn try_unwrap_without_readers_succeeds_unlocked() {
    let parent = ParentArc::new(String::from("kept"));
    let _weak = ParentArc::downgrade(&parent);
    assert_eq!(ParentArc::try_unwrap(parent).unwrap(), "kept");
}

#[test]
fn try_unwrap_without_readers_succeeds_locked() {
    let parent = ParentArc::new(vec![1u8, 2, 3]);
    parent.lock();
    assert_eq!(ParentArc::try_unwrap(parent).unwrap(), vec![1u8, 2, 3]);
}

#[test]
fn try_unwrap_matches_reclaim_from_same_state() {
    let a = ParentArc::new(99u64);
    let b = ParentArc::new(99u64);
    assert_eq!(ParentArc::try_unwrap(a).unwrap(), reclaim(b));
}

#[test]
fn try_downgrade_follows_lock_state() {
    let parent = ParentArc::new(1);
    assert!(ParentArc::try_downgrade(&parent).is_some());
    parent.lock();
    assert!(ParentArc::try_downgrade(&parent).is_none());
    parent.unlock();
    let weak = ParentArc::try_downgrade(&parent).unwrap();
    assert_eq!(*weak.upgrade().unwrap(), 1);
}

#[test]
fn hand_out_follows_given_flag() {
    let parent = ParentArc::new(5);
    assert!(ParentArc::hand_out(&parent, true).is_none());
    assert!(ParentArc::hand_out(&parent, false).is_some());
}

#[test]
fn settle_follows_given_snapshot() {
    let parent = ParentArc::new(3);
    let parent = match ParentArc::settle(parent, false, 2) {
        Err(TryUnwrapError::WouldLock(p)) => p,
        _ => panic!("expected WouldLock"),
    };
    let parent = match ParentArc::settle(parent, true, 1) {
        Err(TryUnwrapError::WouldBlock(p)) => p,
        _ => panic!("expected WouldBlock"),
    };
    assert_eq!(ParentArc::settle(parent, true, 0).unwrap(), 3);
}

#[test]
fn settle_refuses_while_a_reader_holds_the_payload() {
    let parent = ParentArc::new(8);
    let weak = ParentArc::downgrade(&parent);
    let child = weak.upgrade().unwrap();
    let parent = match ParentArc::settle(parent, false, 0) {
        Err(TryUnwrapError::WouldLock(p)) => p,
        _ => panic!("expected WouldLock"),
    };
    let parent = match ParentArc::settle(parent, true, 0) {
        Err(TryUnwrapError::WouldBlock(p)) => p,
        _ => panic!("expected WouldBlock"),
    };
    drop(child);
    assert_eq!(ParentArc::settle(parent, true, 0).unwrap(), 8);
}

#[test]
fn weak_outliving_the_payload_fails_to_upgrade() {
    let parent = ParentArc::new(4);
    let weak = ParentArc::downgrade(&parent);
    let copy = weak.clone();
    assert_eq!(ParentArc::try_unwrap(parent).unwrap(), 4);
    assert!(weak.upgrade().is_none());
    assert!(copy.upgrade().is_none());
}

#[test]
fn readers_are_counted_until_released() {
    let parent = ParentArc::new(10);
    let weak = ParentArc::downgrade(&parent);
    let r1 = weak.upgrade().unwrap();
    let r2 = weak.clone().upgrade().unwrap();
    parent.lock();
    let parent = match ParentArc::try_unwrap(parent) {
        Err(TryUnwrapError::WouldBlock(p)) => p,
        _ => panic!("expected WouldBlock"),
    };
    drop(r1);
    let parent = match ParentArc::try_unwrap(parent) {
        Err(TryUnwrapError::WouldBlock(p)) => p,
        _ => panic!("expected WouldBlock"),
    };
    assert_eq!(*r2, 10);
    drop(r2);
    assert_eq!(ParentArc::try_unwrap(parent).unwrap(), 10);
}

#[test]
fn decide_reclaim_verdicts() {
    assert_eq!(decide_reclaim(false, 0), Verdict::Proceed);
    assert_eq!(decide_reclaim(true, 0), Verdict::Proceed);
    assert_eq!(decide_reclaim(false, 1), Verdict::WouldLock);
    assert_eq!(decide_reclaim(true, 1), Verdict::WouldBlock);
    assert_eq!(decide_reclaim(true, usize::MAX), Verdict::WouldBlock);
}

#[test]
fn admission_and_hand_out_rules() {
    assert!(may_admit(false));
    assert!(!may_admit(true));
    assert!(may_hand_out(false));
    assert!(!may_hand_out(true));
}

#[test]
fn upgrades_refused_until_unlock() {
    let parent = ParentArc::new(1u16);
    let weaks: Vec<LockWeak<u16>> = (0..5).map(|_| ParentArc::downgrade(&parent)).collect();
    parent.lock();
    for w in &weaks {
        assert!(w.upgrade().is_none());
        assert!(w.clone().upgrade().is_none());
    }
    parent.unlock();
    for w in &weaks {
        assert_eq!(*w.upgrade().unwrap(), 1);
    }
}

#[test]
fn interleaved_handles_mutate_then_reclaim() {
    let parent = ParentArc::new(Mutex::new(0usize));
    let weaks: Vec<LockWeak<Mutex<usize>>> =
        (0..10).map(|_| ParentArc::downgrade(&parent)).collect();
    for _ in 0..100 {
        let readers: Vec<ChildArc<Mutex<usize>>> =
            weaks.iter().map(|w| w.upgrade().unwrap()).collect();
        for r in &readers {
            *r.lock().unwrap() += 1;
        }
    }
    let value = reclaim(parent);
    assert_eq!(*value.lock().unwrap(), 1000);
}

#[test]
fn readers_keep_reading_after_lock() {
    let parent = ParentArc::new(String::from("still here"));
    let weak = ParentArc::downgrade(&parent);
    let reader = weak.upgrade().unwrap();
    parent.lock();
    assert!(weak.upgrade().is_none());
    assert_eq!(reader.as_str(), "still here");
    assert_eq!(reader.get(), "still here");
}
