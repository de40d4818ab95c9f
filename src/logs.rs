//! The desktop shell's log files and the lines written to them.
use vstd::prelude::*;

use crate::text::{decimal_digits, push_decimal};

verus! {

/// The sidecar's log file, in the application's log directory.
pub const LOCAL_API_LOG_FILE: &'static str = "local-api.log";

/// The desktop shell's own log file, in the same directory.
pub const DESKTOP_LOG_FILE: &'static str = "desktop.log";

/// A log line: the time in seconds since the Unix epoch and the level, each
/// in brackets, then the message.
pub open spec fn log_entry(timestamp: nat, level: Seq<char>, message: Seq<char>) -> Seq<char> {
    "["@ + decimal_digits(timestamp) + "]["@ + level + "] "@ + message
}

/// The desktop log's line for `message` at `level`, written at `timestamp`
/// (seconds since the Unix epoch), without the line break.
pub fn log_line(timestamp: u64, level: &str, message: &str) -> (r: String)
    ensures
        r@ == log_entry(timestamp as nat, level@, message@),
{
    let mut r = String::from_str("[");
    push_decimal(&mut r, timestamp);
    r.append("][");
    r.append(level);
    r.append("] ");
    r.append(message);
    r
}

} // verus!
