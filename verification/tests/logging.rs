//! The log.
use anvi::logging::{
    LogFilter, Moved, creation_failure, default_log, directory_failure, invalid_filter, log_dir,
    log_file, log_filter, may_begin_log, previous_log_file, rotation_failure, subscriber_failure,
};

#[test]
fn a_filter_that_cannot_be_read_is_no_default() {
    assert_eq!(log_filter(true, true), LogFilter::FromEnvironment);
    assert_eq!(log_filter(false, true), LogFilter::Invalid);
    assert_eq!(log_filter(false, false), LogFilter::Default);
    assert_eq!(default_log(), "info");
}

#[test]
fn the_last_log_is_never_overwritten() {
    assert!(may_begin_log(Moved::Done));
    assert!(may_begin_log(Moved::NotFound));
    assert!(!may_begin_log(Moved::Failed));
}

#[test]
fn failures_name_the_files() {
    assert_eq!(
        rotation_failure("log/anvi.log", "log/anvi.log.1"),
        "failed to rotate the log file from log/anvi.log to log/anvi.log.1"
    );
    assert_eq!(creation_failure("x"), "failed to open the log file: x");
}

#[test]
fn the_log_has_its_names() {
    assert_eq!(log_dir(), r"anvi-data\log");
    assert_eq!(log_file(), "anvi.log");
    assert_eq!(previous_log_file(), "anvi.log.1");
}

#[test]
fn failures_say_why() {
    assert_eq!(invalid_filter("bad directive"), "invalid RUST_LOG: bad directive");
    assert_eq!(directory_failure("log"), "failed to create the log directory: log");
    assert_eq!(
        subscriber_failure("already set"),
        "failed to install the tracing subscriber: already set"
    );
}
