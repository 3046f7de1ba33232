//! Audit records: one timestamped line per action.

use vstd::prelude::*;
use crate::ops::SafeBackup;
use crate::text::join3;

verus! {

/// The line appended to the audit log for `action` at time `stamp`.
pub open spec fn log_line_text(stamp: Seq<char>, action: Seq<char>) -> Seq<char> {
    "["@ + stamp + "] "@ + action + "\n"@
}

/// Relies on `chrono::Utc::now` and `DateTime::format`: the current UTC time
/// written as `YYYY-MM-DD HH:MM:SS UTC`. It depends on the clock, so nothing
/// is promised of it.
#[verifier::external_body]
fn utc_now_stamp() -> String {
    chrono::Utc::now().format("%Y-%m-%d %H:%M:%S UTC").to_string()
}

/// The audit line for `action` at time `stamp`, newline included.
pub fn log_line(stamp: &str, action: &str) -> (r: String)
    ensures
        r@ == log_line_text(stamp@, action@),
{
    let head = join3("[", stamp, "] ");
    join3(head.as_str(), action, "\n")
}

impl SafeBackup {
    /// The audit line for `action`, stamped with the current UTC time.
    pub fn log_entry(&self, action: &str) -> (r: String)
        ensures
            exists|stamp: Seq<char>| r@ == log_line_text(stamp, action@),
    {
        let stamp = utc_now_stamp();
        let r = log_line(stamp.as_str(), action);
        assert(r@ == log_line_text(stamp@, action@));
        r
    }
}

} // verus!
