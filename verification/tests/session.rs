//! One edit, from the captured lines to the outcome.
use anvi::session::{Applied, Phase, Session};

fn owned(lines: &[&str]) -> Vec<String> {
    lines.iter().map(|line| line.to_string()).collect()
}

fn editing(lines: &[&str]) -> Session {
    let mut session = Session::default();
    assert!(session.begin_capture());
    session.begin_edit(owned(lines));
    session
}

#[test]
fn a_fresh_session_is_idle() {
    let mut session = Session::default();
    assert_eq!(session.phase(), Phase::Idle);
    assert!(session.begin_capture(), "a fresh session must start Idle");
    assert_eq!(session.phase(), Phase::Capturing);
    assert!(!session.begin_capture());
}

#[test]
fn a_save_is_written_back_at_the_end() {
    let mut session = editing(&["original"]);
    assert_eq!(session.phase(), Phase::Editing);
    session.on_write(owned(&["EDITED original"]));
    assert_eq!(session.phase(), Phase::Editing);
    assert_eq!(session.on_end(), Applied::WriteBack(owned(&["EDITED original"])));
    assert_eq!(session.phase(), Phase::Idle);
}

#[test]
fn the_last_save_is_what_counts() {
    let mut session = editing(&["原文"]);
    session.on_write(owned(&["first"]));
    session.on_write(owned(&["saved"]));
    assert_eq!(session.on_end(), Applied::WriteBack(owned(&["saved"])));
    let mut session = editing(&["原文"]);
    session.on_write(owned(&["first"]));
    session.on_write(owned(&["原文"]));
    assert_eq!(session.on_end(), Applied::Unchanged);
}

#[test]
fn unchanged_lines_are_left_alone() {
    let mut session = editing(&["untouched"]);
    session.on_write(owned(&["untouched"]));
    assert_eq!(session.on_end(), Applied::Unchanged);
}

#[test]
fn without_a_save_everything_is_discarded() {
    let mut session = editing(&["原文"]);
    assert_eq!(session.on_end(), Applied::Discarded);
    assert_eq!(session.phase(), Phase::Idle);
}

#[test]
fn an_earlier_session_leaves_no_save_behind() {
    let mut session = editing(&["one"]);
    session.on_write(owned(&["saved"]));
    session.reset();
    assert_eq!(session.phase(), Phase::Idle);
    assert!(session.begin_capture());
    session.begin_edit(owned(&["two"]));
    assert_eq!(session.on_end(), Applied::Discarded);
}

#[test]
fn nothing_is_saved_outside_of_a_session() {
    let mut session = Session::default();
    session.on_write(owned(&["stray"]));
    assert_eq!(session.on_end(), Applied::Discarded);
    assert_eq!(session.phase(), Phase::Idle);
    session.abort_capture();
    assert_eq!(session.phase(), Phase::Idle);
    assert!(session.begin_capture());
    session.abort_capture();
    assert_eq!(session.phase(), Phase::Idle);
}
