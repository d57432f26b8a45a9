//! Where the log goes and how much of it there is.
//!
//! The log of the last run is kept when a new one begins: it says how the application ended. Only
//! one is kept.
use vstd::prelude::*;

verus! {

/// How much is to be logged.
#[derive(Clone, Copy, Debug, PartialEq, Eq, Structural)]
pub enum LogFilter {
    /// As much as the environment says.
    FromEnvironment,
    /// As much as [`default_log`] says.
    Default,
    /// The environment says something that cannot be read. That is a mistake, and is reported; it
    /// is not quietly taken for the default.
    Invalid,
}

/// How much is to be logged.
pub open spec fn filter_of(readable: bool, set: bool) -> LogFilter {
    match (readable, set) {
        (true, _) => LogFilter::FromEnvironment,
        (false, true) => LogFilter::Invalid,
        (false, false) => LogFilter::Default,
    }
}

/// Whether the place of the last log is free.
pub open spec fn place_is_free(moved: Moved) -> bool {
    moved == Moved::Done || moved == Moved::NotFound
}

/// How much is to be logged, given whether the environment's filter could be read and whether it
/// has one.
pub fn log_filter(readable: bool, set: bool) -> (filter: LogFilter)
    ensures
        filter == (if readable {
            LogFilter::FromEnvironment
        } else if set {
            LogFilter::Invalid
        } else {
            LogFilter::Default
        }),
        filter == filter_of(readable, set),
{
    if readable {
        LogFilter::FromEnvironment
    } else if set {
        LogFilter::Invalid
    } else {
        LogFilter::Default
    }
}

/// How much is logged where nothing says how much.
pub fn default_log() -> (filter: String)
    ensures
        filter@ == "info"@,
{
    "info".to_owned()
}

/// What is said of a filter in the environment that cannot be read.
pub fn invalid_filter(why: &str) -> (text: String)
    ensures
        text@ == "invalid RUST_LOG: "@ + why@,
{
    let mut text = "invalid RUST_LOG: ".to_owned();
    text.append(why);
    text
}

/// The directory of the logs, below the one that the system has for local data. What is kept there
/// may be deleted.
pub fn log_dir() -> (name: String)
    ensures
        name@ == "anvi-data\\log"@,
{
    "anvi-data\\log".to_owned()
}

/// The name of the log.
pub fn log_file() -> (name: String)
    ensures
        name@ == "anvi.log"@,
{
    "anvi.log".to_owned()
}

/// The name under which the last log is kept.
pub fn previous_log_file() -> (name: String)
    ensures
        name@ == "anvi.log.1"@,
{
    "anvi.log.1".to_owned()
}

/// How the attempt to move the last log aside ended.
#[derive(Clone, Copy, Debug, PartialEq, Eq, Structural)]
pub enum Moved {
    Done,
    /// There is no last log. The one before it, if there is one, stays.
    NotFound,
    Failed,
}

/// Whether a new log may be begun in the place of the last. It may not where the last log is still
/// there: it would be lost.
pub fn may_begin_log(moved: Moved) -> (may: bool)
    ensures
        may == (moved != Moved::Failed),
        may == place_is_free(moved),
{
    match moved {
        Moved::Done | Moved::NotFound => true,
        Moved::Failed => false,
    }
}

/// What is said of a directory for the logs that could not be made.
pub fn directory_failure(dir: &str) -> (text: String)
    ensures
        text@ == "failed to create the log directory: "@ + dir@,
{
    let mut text = "failed to create the log directory: ".to_owned();
    text.append(dir);
    text
}

/// What is said of a log that could not be moved aside. It names both places.
pub fn rotation_failure(current: &str, previous: &str) -> (text: String)
    ensures
        text@ == "failed to rotate the log file from "@ + current@ + " to "@ + previous@,
{
    let mut text = "failed to rotate the log file from ".to_owned();
    text.append(current);
    text.append(" to ");
    text.append(previous);
    text
}

/// What is said of a log that could not be begun.
pub fn creation_failure(current: &str) -> (text: String)
    ensures
        text@ == "failed to open the log file: "@ + current@,
{
    let mut text = "failed to open the log file: ".to_owned();
    text.append(current);
    text
}

/// What is said of a log that nothing could be written to.
pub fn subscriber_failure(why: &str) -> (text: String)
    ensures
        text@ == "failed to install the tracing subscriber: "@ + why@,
{
    let mut text = "failed to install the tracing subscriber: ".to_owned();
    text.append(why);
    text
}

// ---------------------------------------------------------------------------
// Laws
// ---------------------------------------------------------------------------

/// A filter that can be read is used, one that cannot is a mistake, and only where there is none the
/// default holds.
pub proof fn law_a_mistaken_filter_is_no_default(set: bool)
    ensures
        filter_of(true, set) == LogFilter::FromEnvironment,
        filter_of(false, true) == LogFilter::Invalid,
        filter_of(false, false) == LogFilter::Default,
{
}

/// A new log is begun exactly if the last one was moved aside or was not there: a log that is still
/// in its place is never overwritten.
pub proof fn law_no_log_is_overwritten(moved: Moved)
    ensures
        place_is_free(Moved::Done),
        place_is_free(Moved::NotFound),
        !place_is_free(Moved::Failed),
{
}

} // verus!
