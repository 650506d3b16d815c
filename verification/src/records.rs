//! Scan records, the duplicate decision made before a scan is stored, and the
//! check that finds a table schema from before duplicates could be stored.
use vstd::prelude::*;

use crate::entry::chars_of;
use crate::text::{i64_text, int_text, pad_start, push_padded_start, push_str};

verus! {

/// One stored scan: the ticket number and when it was scanned, in the stored
/// form `YYYY-MM-DD HH:MM:SS`.
#[derive(Clone, Debug)]
pub struct ScanRecord {
    pub ticket_number: i64,
    pub scanned_at: String,
}

/// What became of an attempt to store a scan.
#[derive(Clone, Copy, Debug, PartialEq, Eq, Structural)]
pub enum InsertOutcome {
    /// First time this ticket has been seen.
    New,
    /// Ticket exists already; it was NOT inserted again.
    Duplicate,
    /// Ticket exists already, but was inserted again because the duplicate
    /// override was active.
    DuplicateForced,
}

/// The outcome for a ticket that is already stored `existing` times, with the
/// duplicate override on (`force`) or off.
pub open spec fn insert_outcome(existing: int, force: bool) -> InsertOutcome {
    if existing > 0 && !force {
        InsertOutcome::Duplicate
    } else if existing > 0 {
        InsertOutcome::DuplicateForced
    } else {
        InsertOutcome::New
    }
}

/// Decides what to do with a scanned ticket that the store already holds
/// `existing` times: refuse it as a duplicate unless the override is on.
pub fn classify_insert(existing: i64, force: bool) -> (r: InsertOutcome)
    ensures
        r == insert_outcome(existing as int, force),
        (r == InsertOutcome::Duplicate) <==> (existing > 0 && !force),
        (r == InsertOutcome::New) <==> existing <= 0,
{
    if existing > 0 && !force {
        InsertOutcome::Duplicate
    } else if existing > 0 {
        InsertOutcome::DuplicateForced
    } else {
        InsertOutcome::New
    }
}

impl InsertOutcome {
    /// Whether this outcome means that a row is written.
    pub open spec fn writes_row(self) -> bool {
        self != InsertOutcome::Duplicate
    }

    /// Whether a row is written for this outcome: for a new ticket and for a
    /// forced duplicate, not for a refused duplicate.
    pub fn stores_row(&self) -> (r: bool)
        ensures
            r == self.writes_row(),
    {
        match self {
            InsertOutcome::Duplicate => false,
            _ => true,
        }
    }
}

/// What `str::to_uppercase` returns for a text.
pub uninterp spec fn std_to_uppercase(s: Seq<char>) -> Seq<char>;

/// The ASCII upper-case form of a character; other characters unchanged.
pub open spec fn ascii_upper(c: char) -> char {
    if 'a' <= c <= 'z' {
        ((c as u32) - 32) as char
    } else {
        c
    }
}

/// Every character is ASCII.
pub open spec fn is_ascii_text(s: Seq<char>) -> bool {
    forall|i: int| 0 <= i < s.len() ==> (#[trigger] s[i] as u32) < 128
}

/// Calls `str::to_uppercase`. Claimed: the result is a function of the text
/// alone, and on an ASCII text it maps `a`..`z` to `A`..`Z` and keeps every
/// other character.
#[verifier::external_body]
fn to_uppercase(s: &str) -> (r: String)
    ensures
        r@ == std_to_uppercase(s@),
        is_ascii_text(s@) ==> r@ == s@.map_values(|c: char| ascii_upper(c)),
{
    s.to_uppercase()
}

/// `needle` occurs in `hay` as a contiguous run.
pub open spec fn contains_text(hay: Seq<char>, needle: Seq<char>) -> bool {
    exists|i: int|
        0 <= i && i + needle.len() <= hay.len() && #[trigger] hay.subrange(i, i + needle.len())
            == needle
}

/// Whether `needle` occurs in `hay` (`str::contains` with a string pattern).
pub fn contains_str(hay: &str, needle: &str) -> (r: bool)
    ensures
        r == contains_text(hay@, needle@),
{
    let h = chars_of(hay);
    let nd = chars_of(needle);
    let hn = h.len();
    let nn = nd.len();
    if nn > hn {
        return false;
    }
    let mut i: usize = 0;
    while i <= hn - nn
        invariant
            h@ == hay@,
            nd@ == needle@,
            hn == h@.len(),
            nn == nd@.len(),
            nn <= hn,
            i <= hn - nn + 1,
            forall|p: int| 0 <= p < i ==> #[trigger] hay@.subrange(p, p + nn) != needle@,
        decreases hn - nn + 1 - i,
    {
        let mut k: usize = 0;
        let mut same = true;
        while k < nn
            invariant
                h@ == hay@,
                nd@ == needle@,
                hn == h@.len(),
                nn == nd@.len(),
                i + nn <= hn,
                k <= nn,
                same == (forall|q: int| 0 <= q < k ==> h@[i + q] == nd@[q]),
            decreases nn - k,
        {
            if h[i + k] != nd[k] {
                same = false;
            }
            k = k + 1;
        }
        if same {
            assert(hay@.subrange(i as int, i + nn) =~= needle@);
            return true;
        }
        assert(hay@.subrange(i as int, i + nn) != needle@) by {
            let w = choose|q: int| 0 <= q < nn && h@[i + q] != nd@[q];
            assert(hay@.subrange(i as int, i + nn)[w] != needle@[w]);
        }
        i = i + 1;
    }
    false
}

/// Whether the schema text of the scan table (as SQLite's `sqlite_master`
/// holds it) still declares a column `UNIQUE`, in any letter case: such a table
/// comes from before duplicates could be stored and has to be rebuilt.
/// No schema text (the table could not be read) needs nothing.
pub fn schema_needs_migration(sql: Option<&str>) -> (r: bool)
    ensures
        r == match sql {
            Some(s) => contains_text(std_to_uppercase(s@), "UNIQUE"@),
            None => false,
        },
        match sql {
            Some(s) => is_ascii_text(s@) ==> r == contains_text(
                s@.map_values(|c: char| ascii_upper(c)),
                "UNIQUE"@,
            ),
            None => true,
        },
{
    match sql {
        Some(s) => {
            let upper = to_uppercase(s);
            contains_str(upper.as_str(), "UNIQUE")
        },
        None => false,
    }
}

/// The marker in front of a row of the recent-scans list: an arrow for the
/// newest scan, blanks for the others.
pub open spec fn row_prefix(index: int) -> Seq<char> {
    if index == 0 {
        "\u{25B6} "@
    } else {
        "   "@
    }
}

/// The label of a row of the recent-scans list: the marker, `#`, and the
/// ticket number right-aligned in six places.
pub open spec fn row_label_text(index: int, ticket_number: int) -> Seq<char> {
    row_prefix(index) + "#"@ + pad_start(int_text(ticket_number), 6, ' ')
}

/// Labels row `index` (0 is the newest) of the recent-scans list.
pub fn recent_row_label(index: usize, record: &ScanRecord) -> (r: String)
    ensures
        r@ == row_label_text(index as int, record.ticket_number as int),
{
    let mut s = String::new();
    if index == 0 {
        push_str(&mut s, "\u{25B6} ");
    } else {
        push_str(&mut s, "   ");
    }
    push_str(&mut s, "#");
    let digits = i64_text(record.ticket_number);
    push_padded_start(&mut s, &digits, 6, ' ');
    s
}

} // verus!
