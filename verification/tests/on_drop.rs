use embassy::util::on_drop::OnDrop;

#[test]
fn armed_guard_fires_once_on_scope_exit() {
    let mut guard = OnDrop::new(7u32);
    assert!(guard.is_armed());
    assert_eq!(guard.leave(), Some(7));
    assert!(!guard.is_armed());
    assert_eq!(guard.leave(), None);
}

#[test]
fn defused_guard_never_fires() {
    let mut guard = OnDrop::new("stop");
    guard.defuse();
    assert!(!guard.is_armed());
    assert_eq!(guard.leave(), None);
}

#[test]
fn defuse_is_idempotent() {
    let mut guard = OnDrop::new(1u8);
    guard.defuse();
    guard.defuse();
    assert!(!guard.is_armed());
    assert_eq!(guard.leave(), None);
}

#[test]
fn defuse_after_teardown_does_nothing() {
    let mut guard = OnDrop::new(1u8);
    assert_eq!(guard.leave(), Some(1));
    guard.defuse();
    assert_eq!(guard.leave(), None);
}

#[test]
fn guard_made_defused_holds_nothing() {
    let mut guard: OnDrop<u8> = OnDrop::defused();
    assert!(!guard.is_armed());
    assert_eq!(guard.leave(), None);
}
