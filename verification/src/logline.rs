//! The lines of the append-only event log.
use vstd::prelude::*;

use crate::text::{pad_end, push_padded_end, push_str};
use crate::timestamp::{format_timestamp, timestamp_text, DateTimeFields};

verus! {

/// A log line: `[YYYY-MM-DD HH:MM:SS] KIND       message` and a line break,
/// the kind left-aligned in ten places.
pub open spec fn log_line_text(stamp: DateTimeFields, kind: Seq<char>, msg: Seq<char>) -> Seq<
    char,
> {
    "["@ + timestamp_text(stamp) + "] "@ + pad_end(kind, 10, ' ') + " "@ + msg + "\n"@
}

/// Renders one line of the event log for an event of `kind` at `stamp`.
pub fn format_log_line(stamp: &DateTimeFields, kind: &str, msg: &str) -> (r: String)
    ensures
        r@ == log_line_text(*stamp, kind@, msg@),
{
    let mut s = String::new();
    push_str(&mut s, "[");
    let ts = format_timestamp(stamp);
    push_str(&mut s, ts.as_str());
    push_str(&mut s, "] ");
    push_padded_end(&mut s, kind, 10, ' ');
    push_str(&mut s, " ");
    push_str(&mut s, msg);
    push_str(&mut s, "\n");
    s
}

} // verus!
