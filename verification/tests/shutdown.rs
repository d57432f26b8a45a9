//! What the editor window hears of the end of the session.
use anvi::policy::SpawnPolicy;
use anvi::shutdown::{
    Answer, Hook, WM_ENDSESSION, WM_NCDESTROY, WM_QUERYENDSESSION, session_end_proc,
};

#[test]
fn synchronous_session_messages_pause_resume_and_permanently_exit() {
    let mut policy = SpawnPolicy::new(|| false);
    assert_eq!(session_end_proc(&mut policy, WM_QUERYENDSESSION, 0), Answer::Changed(1));
    assert!(policy.check().is_err());
    assert!(!policy.is_exiting());
    session_end_proc(&mut policy, WM_ENDSESSION, 0);
    assert!(policy.check().is_ok());
    assert_eq!(session_end_proc(&mut policy, WM_QUERYENDSESSION, 0), Answer::Changed(1));
    session_end_proc(&mut policy, WM_ENDSESSION, 1);
    assert!(policy.is_exiting());
    session_end_proc(&mut policy, WM_ENDSESSION, 0);
    assert!(
        policy.check().is_err(),
        "late cancellation cannot undo exit"
    );
}

#[test]
fn removing_the_hook_stops_notifications_before_the_window_is_dropped() {
    let mut policy = SpawnPolicy::new(|| false);
    let mut hook = Hook::install(true).unwrap();
    assert!(hook.on_dropped(true));
    assert_eq!(hook.on_message(&mut policy, WM_QUERYENDSESSION, 0), Answer::Forward);
    assert!(policy.check().is_ok());

    // The window may go first. The guard that is dropped afterwards neither lets the data go a
    // second time nor keeps it.
    let mut hook = Hook::install(true).unwrap();
    assert_eq!(hook.on_message(&mut policy, WM_NCDESTROY, 0), Answer::Release);
    assert!(hook.on_destroyed());
    assert!(!hook.on_dropped(true));
    assert!(policy.check().is_ok());
}

#[test]
fn a_hook_that_cannot_be_removed_is_let_go_with_the_window() {
    assert_eq!(Hook::install(false), None);
    let mut hook = Hook::install(true).unwrap();
    assert!(!hook.on_dropped(false));
    assert!(hook.is_installed());
    assert!(hook.on_destroyed());
    assert!(!hook.is_installed());
    assert!(!hook.on_destroyed());
}

#[test]
fn a_hook_on_the_window_hears_its_messages() {
    let mut policy = SpawnPolicy::new(|| false);
    let hook = Hook::install(true).unwrap();
    assert_eq!(hook.on_message(&mut policy, WM_QUERYENDSESSION, 0), Answer::Changed(1));
    assert!(policy.check().is_err());
    assert_eq!(hook.on_message(&mut policy, WM_ENDSESSION, 1), Answer::Changed(0));
    assert!(policy.is_exiting());
    assert_eq!(hook.on_message(&mut policy, 0x0f, 1), Answer::Forward);
}

#[test]
fn messages_have_their_system_numbers() {
    assert_eq!(WM_QUERYENDSESSION, 17);
    assert_eq!(WM_ENDSESSION, 22);
    assert_eq!(WM_NCDESTROY, 130);
}

#[test]
fn other_messages_are_passed_on() {
    let mut policy = SpawnPolicy::new(|| false);
    assert_eq!(session_end_proc(&mut policy, 0x0f, 1), Answer::Forward);
    assert_eq!(policy.state(), 0);
    assert_eq!(session_end_proc(&mut policy, WM_ENDSESSION, 0x8000_0000), Answer::Changed(0));
    assert!(policy.is_exiting());
}
