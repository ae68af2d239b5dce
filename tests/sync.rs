use parc::sync::LockArc;
use parc::sync::LockWeak;

#[test]
fn lock_arc_weak_upgrades_until_locked() {
    let arc = LockArc::new(3);
    assert_eq!(*arc, 3);
    let weak: LockWeak<i32> = LockArc::downgrade(&arc);
    assert_eq!(*weak.upgrade().unwrap(), 3);
    let inner = arc.lock_arc();
    assert_eq!(*inner, 3);
    assert!(weak.upgrade().is_none());
}

#[test]
fn consumme_returns_value() {
    let arc = LockArc::new(String::from("v"));
    let weak = LockArc::downgrade(&arc);
    assert_eq!(arc.consumme().ok().unwrap(), "v");
    assert!(weak.upgrade().is_none());
}

#[test]
fn consumme_refuses_while_an_upgrade_is_held() {
    let arc = LockArc::new(9);
    let weak = LockArc::downgrade(&arc);
    let held = weak.upgrade().unwrap();
    let back = arc.consumme().err().unwrap();
    assert_eq!(*back, 9);
    drop(held);
    assert!(weak.upgrade().is_none());
}
