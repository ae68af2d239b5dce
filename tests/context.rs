use parc::context::ContextError;
use parc::context::ContextErrorKind;
use parc::context::ContractContext;
use parc::context::DefaultContext;
use parc::context::EqContext;
use parc::context::GeContext;
use parc::context::GtContext;
use parc::context::LeContext;
use parc::context::LtContext;
use parc::context::NqContext;

#[test]
fn bool_context_is_its_own_validity() {
    assert!(true.poll_valid());
    assert!(!false.poll_valid());
}

#[test]
fn numbers_and_unit_are_always_valid() {
    assert!(().poll_valid());
    assert!(0u8.poll_valid());
    assert!(7u64.poll_valid());
    assert!((-3i32).poll_valid());
    assert!(0usize.poll_valid());
    assert!(i128::MIN.poll_valid());
}

#[test]
fn default_context_is_valid() {
    assert!(DefaultContext::new().poll_valid());
    let d: DefaultContext = Default::default();
    assert!(d.poll_valid());
}

#[test]
fn equality_contexts() {
    assert!(EqContext(2, 2).poll_valid());
    assert!(!EqContext(5, 2).poll_valid());
    assert!(NqContext(5, 2).poll_valid());
    assert!(!NqContext(2, 2).poll_valid());
}

#[test]
fn ordering_contexts() {
    assert!(LtContext(1, 2).poll_valid());
    assert!(!LtContext(2, 2).poll_valid());
    assert!(LeContext(2, 2).poll_valid());
    assert!(!LeContext(3, 2).poll_valid());
    assert!(GtContext(3, 2).poll_valid());
    assert!(!GtContext(2, 2).poll_valid());
    assert!(GeContext(2, 2).poll_valid());
    assert!(!GeContext(1, 2).poll_valid());
}

#[test]
fn context_error_keeps_its_kind() {
    let e = ContextError::from(ContextErrorKind::ExpiredContext);
    assert_eq!(e.kind(), ContextErrorKind::ExpiredContext);
}
