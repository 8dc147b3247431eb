use lachesis::check_preemption;
use lachesis::Error;

#[test]
fn lifecycle_and_configuration_errors_are_final() {
    assert!(!Error::AlreadyInitialized.is_recoverable());
    assert!(!Error::NotInitialized.is_recoverable());
    assert!(!Error::InvalidStackSize { size: 1024, min: 65536 }.is_recoverable());
    assert!(!Error::Configuration(String::from("bad")).is_recoverable());
}

#[test]
fn resource_and_concurrency_errors_are_recoverable() {
    assert!(Error::ThreadNotFound(7).is_recoverable());
    assert!(Error::Deadlock.is_recoverable());
    assert!(Error::LockFailed.is_recoverable());
    assert!(Error::SpawnFailed.is_recoverable());
    assert!(Error::SystemResource(String::from("out of pages")).is_recoverable());
}

#[test]
fn checkpoint_rotates_only_when_enabled_and_requested() {
    // a pending request with the timer enabled triggers a rotation
    assert!(check_preemption(true, true));
    // a thread whose checkpoints see no pending request is never rotated out
    assert!(!check_preemption(true, false));
    // with the timer disabled no checkpoint rotates, requested or not
    assert!(!check_preemption(false, true));
    assert!(!check_preemption(false, false));
}
