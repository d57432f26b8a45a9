//! When Neovim may be started.
use anvi::policy::{EXITING, Guarded, QUERYING, SpawnCancelled, SpawnPolicy};

#[test]
fn cancelled_session_query_resumes_but_cannot_clear_application_exit() {
    let mut policy = SpawnPolicy::new(|| false);
    policy.query_end_session();
    assert!(policy.check().is_err());
    assert!(!policy.is_exiting());
    policy.cancel_end_session();
    assert!(policy.check().is_ok());
    policy.exit();
    policy.query_end_session();
    policy.cancel_end_session();
    assert!(policy.is_exiting());
    assert!(policy.check().is_err());
}

#[test]
fn startup_rechecks_policy_after_the_operation_completes() {
    let mut policy = SpawnPolicy::new(|| false);
    policy.query_end_session();
    assert_eq!(policy.run(Some(42), false), Guarded::Cancelled(SpawnCancelled));
    policy.cancel_end_session();
    assert_eq!(policy.run(Some(42), false), Guarded::Finished(42));
}

#[test]
fn unfinished_startup_waits_until_it_is_cancelled() {
    let mut policy = SpawnPolicy::new(|| false);
    assert_eq!(policy.run(None::<u8>, false), Guarded::Pending);
    assert_eq!(policy.run(None::<u8>, true), Guarded::Cancelled(SpawnCancelled));
    policy.exit();
    assert_eq!(policy.run(None::<u8>, false), Guarded::Cancelled(SpawnCancelled));
}

#[test]
fn a_system_that_shuts_down_inhibits_without_a_query() {
    let policy = SpawnPolicy::new(|| true);
    assert_eq!(policy.check(), Err(SpawnCancelled));
    assert!(!policy.is_exiting());
    assert_eq!(policy.verdict(false), Ok(()));
    assert_eq!(policy.verdict(true), Err(SpawnCancelled));
}

#[test]
fn an_exit_is_permanent() {
    let mut policy = SpawnPolicy::new(|| false);
    policy.exit();
    for _ in 0..3 {
        policy.cancel_end_session();
        policy.query_end_session();
    }
    policy.cancel_end_session();
    assert!(policy.is_exiting());
}

#[test]
fn a_policy_survives_its_word() {
    let mut policy = SpawnPolicy::new(|| false);
    assert_eq!(policy.state(), 0);
    policy.query_end_session();
    assert_eq!(policy.state(), QUERYING);
    policy.exit();
    assert_eq!(policy.state(), QUERYING | EXITING);
    policy.cancel_end_session();
    assert_eq!(policy.state(), EXITING);
    let restored = SpawnPolicy::restore(policy.state(), || false);
    assert!(restored.is_exiting());
    assert_eq!(restored.state(), EXITING);
    assert_eq!(SpawnPolicy::restore(0xfc, || false).check(), Ok(()));
    assert_eq!(SpawnPolicy::restore(0xfd, || false).state(), QUERYING);
}

#[test]
fn a_cancellation_says_so() {
    assert_eq!(SpawnCancelled.message(), "nvim spawning is inhibited by shutdown");
}
