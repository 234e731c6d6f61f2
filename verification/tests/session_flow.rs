use update_supervisor::session::{Session, StartupError};
use update_supervisor::version::update_wanted;

#[test]
fn sidecar_granted_once_per_session() {
    let mut s = Session::new();
    assert!(s.try_claim_sidecar());
    assert!(!s.try_claim_sidecar());
    assert!(!s.try_claim_sidecar());
}

#[test]
fn update_task_granted_once_and_only_after_sidecar() {
    let mut s = Session::new();
    assert!(!s.try_claim_update_task());
    assert!(s.try_claim_sidecar());
    assert!(s.try_claim_update_task());
    assert!(!s.try_claim_update_task());
}

#[test]
fn failed_spawn_aborts_fast_with_diagnostic() {
    let mut s = Session::new();
    assert!(s.try_claim_sidecar());
    let e = s.abort_startup();
    assert_eq!(e, StartupError::SidecarSpawn);
    assert_eq!(e.message().as_str(), "failed to spawn sidecar");
    assert!(s.aborted);
    assert!(!s.update_scheduled);
    assert!(!s.try_claim_update_task());
    assert!(!s.try_claim_sidecar());
}

#[test]
fn version_policy_is_any_difference() {
    let current = "2.0.0".to_owned();
    assert!(update_wanted(&current, &"2.1.0".to_owned()));
    assert!(update_wanted(&current, &"1.9.0".to_owned()));
    assert!(update_wanted(&current, &"".to_owned()));
    assert!(!update_wanted(&current, &"2.0.0".to_owned()));
    assert!(!update_wanted(&"".to_owned(), &"".to_owned()));
}
