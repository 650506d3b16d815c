//! The scanner's state and every decision it makes: what an entry becomes when
//! it is submitted, how long a banner stays, when the duplicate override runs
//! out, when the statistics are read again, and the texts the screen shows.
//!
//! Time is a monotonic clock in milliseconds that the caller reads; storing a
//! scan and reading the statistics are done by the caller, who hands the
//! results back.
use vstd::prelude::*;

use crate::entry::{
    ascii_digits, digit_strings_read_as_their_value, digits_value, keep_ascii_digits, parse_i64,
    parse_i64_spec, picked_digits_are_digits, trim, trim_text,
};
use crate::records::{InsertOutcome, ScanRecord};
use crate::text::{i64_text, int_text, push_str, push_two_digits, two_digits};

verus! {

/// How long an ordinary banner stays up, in milliseconds.
pub const STATUS_TTL_MS: u64 = 4000;

/// How long the duplicate banner stays up, in milliseconds.
pub const DUPLICATE_TTL_MS: u64 = 8000;

/// How long the duplicate override stays open once it is switched on (5 minutes).
pub const OVERRIDE_WINDOW_MS: u64 = 300_000;

/// How often the statistics are read again while nothing is scanned.
pub const STATS_REFRESH_MS: u64 = 30_000;

/// How many of the latest scans the screen lists.
pub const RECENT_LIMIT: i64 = 10;

/// The window, in minutes, over which the plates-per-hour rate is counted.
pub const RATE_WINDOW_MINUTES: i64 = 10;

/// Ticket numbers start here; lower numbers are refused.
pub const MIN_TICKET: i64 = 1000;

/// The banner's state.
#[derive(Clone, Debug)]
pub enum Status {
    Idle,
    Success(i64),
    Duplicate(i64),
    Error(String),
}

/// What the banner looks like; the screen picks its colours by it.
#[derive(Clone, Copy, Debug, PartialEq, Eq, Structural)]
pub enum BannerKind {
    Ready,
    Accepted,
    Duplicate,
    Warning,
}

/// The banner: its look and its text.
#[derive(Clone, Debug)]
pub struct Banner {
    pub kind: BannerKind,
    pub text: String,
}

/// What a submission asks of the caller.
#[derive(Clone, Debug)]
pub enum SubmitRequest {
    /// The entry held nothing but white space: nothing happens.
    Empty,
    /// The entry holds no number; the banner says so.
    NotANumber { raw: String },
    /// The number is below the first ticket number; the banner says so.
    BelowMinimum { ticket: i64, raw: String },
    /// Store a scan of `ticket` (duplicates accepted when `force`), then hand
    /// the outcome to `finish_submit`.
    Store { ticket: i64, force: bool, raw: String },
}

/// What a clock tick asks of the caller.
#[derive(Clone, Copy, Debug, PartialEq, Eq, Structural)]
pub struct TickOutcome {
    /// The duplicate override has just run out.
    pub override_expired: bool,
    /// The statistics are due to be read again.
    pub refresh_due: bool,
}

/// The time from `since` to `now`, zero if `now` is earlier.
pub open spec fn elapsed(since: u64, now: u64) -> nat {
    if now >= since {
        (now - since) as nat
    } else {
        0
    }
}

/// How long a banner in this state stays up.
pub open spec fn status_ttl(st: Status) -> nat {
    match st {
        Status::Duplicate(_) => DUPLICATE_TTL_MS as nat,
        _ => STATUS_TTL_MS as nat,
    }
}

/// Whether the override, open until `until`, is still open at `now`.
pub open spec fn override_open(until: Option<u64>, now: u64) -> bool {
    match until {
        Some(t) => now < t,
        None => false,
    }
}

/// The banner text for a rejected entry that holds no number.
pub open spec fn not_a_number_text(raw: Seq<char>) -> Seq<char> {
    "Not a valid number: "@ + raw
}

/// The banner text for a number below the first ticket number.
pub open spec fn below_minimum_text(ticket: int) -> Seq<char> {
    "Ticket #"@ + int_text(ticket) + " rejected: tickets start at 1000"@
}

/// The banner text for a failure of the scan store.
pub open spec fn store_error_text(err: Seq<char>) -> Seq<char> {
    "DB error: "@ + err
}

/// The text of the override button, given the time the override still runs.
pub open spec fn override_label_text(remaining: Option<u64>) -> Seq<char> {
    match remaining {
        Some(d) => "ALLOWING DUPLICATES  "@ + two_digits(((d / 1000) / 60) as nat) + ":"@
            + two_digits(((d / 1000) % 60) as nat),
        None => "ALLOW DUPLICATES (5 min)"@,
    }
}

/// The text of the banner in a state.
pub open spec fn banner_text(st: Status) -> Seq<char> {
    match st {
        Status::Idle => "Ready \u{2014} scan a ticket or enter a number below"@,
        Status::Success(n) => "\u{2705}  ACCEPTED \u{2014} Ticket #"@ + int_text(n as int),
        Status::Duplicate(n) => "\u{26A0}\u{FE0F}  DUPLICATE! Ticket #"@ + int_text(n as int)
            + " has already been scanned!"@,
        Status::Error(msg) => "\u{26A0}\u{FE0F}  "@ + msg@,
    }
}

/// The look of the banner in a state.
pub open spec fn banner_kind(st: Status) -> BannerKind {
    match st {
        Status::Idle => BannerKind::Ready,
        Status::Success(_) => BannerKind::Accepted,
        Status::Duplicate(_) => BannerKind::Duplicate,
        Status::Error(_) => BannerKind::Warning,
    }
}

/// The number read from an entry: the ASCII digits of the trimmed entry,
/// read as an `i64`.
pub open spec fn entered_number(entry: Seq<char>) -> Option<int> {
    parse_i64_spec(ascii_digits(trim(entry)))
}

/// The scanner's state: the entry field, the statistics on screen, the banner,
/// and the duplicate override. Times are milliseconds on the caller's clock.
#[derive(Debug)]
pub struct ScannerState {
    /// What has been typed or scanned so far.
    pub input: String,
    /// The latest scans, newest first.
    pub recent: Vec<ScanRecord>,
    /// How many scans are stored.
    pub total: i64,
    /// How many scans fall in the last `RATE_WINDOW_MINUTES` minutes.
    pub recent_count: i64,
    /// The banner.
    pub status: Status,
    /// When the banner was raised.
    pub status_at: Option<u64>,
    /// When the statistics were last read.
    pub last_stats_refresh: u64,
    /// While set and not yet reached, duplicate scans are accepted.
    pub allow_dup_until: Option<u64>,
}

impl ScannerState {
    /// All but the entry field are as in `other`.
    pub open spec fn same_but_input(self, other: Self) -> bool {
        &&& self.recent == other.recent
        &&& self.total == other.total
        &&& self.recent_count == other.recent_count
        &&& self.status == other.status
        &&& self.status_at == other.status_at
        &&& self.last_stats_refresh == other.last_stats_refresh
        &&& self.allow_dup_until == other.allow_dup_until
    }

    /// The statistics and the refresh time are as in `other`.
    pub open spec fn same_stats(self, other: Self) -> bool {
        &&& self.recent == other.recent
        &&& self.total == other.total
        &&& self.recent_count == other.recent_count
        &&& self.last_stats_refresh == other.last_stats_refresh
    }

    /// Whether the duplicate override is open at `now`.
    pub open spec fn override_active(self, now: u64) -> bool {
        override_open(self.allow_dup_until, now)
    }

    /// The time the duplicate override still runs at `now`.
    pub open spec fn override_remaining(self, now: u64) -> Option<u64> {
        match self.allow_dup_until {
            Some(t) => if now < t {
                Some((t - now) as u64)
            } else {
                None
            },
            None => None,
        }
    }

    /// Whether the banner has been up longer than it stays, at `now`.
    pub open spec fn banner_expires(self, now: u64) -> bool {
        &&& self.status_at is Some
        &&& elapsed(self.status_at->0, now) > status_ttl(self.status)
    }

    /// Whether the duplicate override runs out at `now`.
    pub open spec fn override_expires(self, now: u64) -> bool {
        &&& self.allow_dup_until is Some
        &&& now >= self.allow_dup_until->0
    }

    /// Whether the statistics are due to be read again at `now`.
    pub open spec fn refresh_due(self, now: u64) -> bool {
        elapsed(self.last_stats_refresh, now) > STATS_REFRESH_MS
    }

    /// `next` is this state after a clock tick at `now`: an expired banner is
    /// taken down, an expired override is closed, nothing else changes.
    pub open spec fn ticked(self, next: Self, now: u64) -> bool {
        &&& next.input == self.input
        &&& next.same_stats(self)
        &&& if self.banner_expires(now) {
            next.status is Idle && next.status_at is None
        } else {
            next.status == self.status && next.status_at == self.status_at
        }
        &&& if self.override_expires(now) {
            next.allow_dup_until is None
        } else {
            next.allow_dup_until == self.allow_dup_until
        }
    }

    /// `next` is this state after the override is switched on at `now`.
    pub open spec fn override_enabled(self, next: Self, now: u64) -> bool {
        &&& next.input == self.input
        &&& next.same_stats(self)
        &&& next.status == self.status
        &&& next.status_at == self.status_at
        &&& next.allow_dup_until == Some((now + OVERRIDE_WINDOW_MS) as u64)
    }

    /// `next` is this state after the entry is submitted at `now`, asking `req`
    /// of the caller. The entry field is emptied in every case.
    pub open spec fn submitted(self, next: Self, now: u64, req: SubmitRequest) -> bool {
        self.submitted_entry(self.input@, next, now, req)
    }

    /// `next` is this state, with `entry` in the entry field, after the entry
    /// is submitted at `now`, asking `req` of the caller.
    pub open spec fn submitted_entry(
        self,
        entry: Seq<char>,
        next: Self,
        now: u64,
        req: SubmitRequest,
    ) -> bool {
        let raw = trim(entry);
        &&& next.input@.len() == 0
        &&& next.same_stats(self)
        &&& next.allow_dup_until == self.allow_dup_until
        &&& if raw.len() == 0 {
            &&& req is Empty
            &&& next.status == self.status
            &&& next.status_at == self.status_at
        } else {
            match entered_number(entry) {
                None => {
                    &&& req matches SubmitRequest::NotANumber { raw: r } && r@ == raw
                    &&& next.status matches Status::Error(m) && m@ == not_a_number_text(raw)
                    &&& next.status_at == Some(now)
                },
                Some(n) => if n < MIN_TICKET {
                    &&& req matches SubmitRequest::BelowMinimum { ticket, raw: r } && ticket == n
                        && r@ == raw
                    &&& next.status matches Status::Error(m) && m@ == below_minimum_text(n)
                    &&& next.status_at == Some(now)
                } else {
                    &&& req matches SubmitRequest::Store { ticket, force, raw: r } && ticket == n
                        && force == self.override_active(now) && r@ == raw
                    &&& next.status == self.status
                    &&& next.status_at == self.status_at
                },
            }
        }
    }

    /// `next` is this state once the store has answered `result` for a scan of
    /// `ticket` at `now`; `refresh` says whether the statistics must be read again.
    pub open spec fn finished(
        self,
        next: Self,
        ticket: i64,
        result: Result<InsertOutcome, String>,
        now: u64,
        refresh: bool,
    ) -> bool {
        &&& next.input == self.input
        &&& next.same_stats(self)
        &&& next.allow_dup_until == self.allow_dup_until
        &&& next.status_at == Some(now)
        &&& match result {
            Ok(InsertOutcome::Duplicate) => next.status == Status::Duplicate(ticket) && !refresh,
            Ok(_) => next.status == Status::Success(ticket) && refresh,
            Err(e) => next.status matches Status::Error(m) && m@ == store_error_text(e@)
                && !refresh,
        }
    }

    /// `next` holds the statistics read at `now`; a count that could not be
    /// read keeps its old value, a list that could not be read is empty, and a
    /// rate count that could not be read is zero.
    pub open spec fn refreshed(
        self,
        next: Self,
        total: Option<i64>,
        recent: Option<Vec<ScanRecord>>,
        recent_count: Option<i64>,
        now: u64,
    ) -> bool {
        &&& next.input == self.input
        &&& next.status == self.status
        &&& next.status_at == self.status_at
        &&& next.allow_dup_until == self.allow_dup_until
        &&& next.total == match total {
            Some(t) => t,
            None => self.total,
        }
        &&& next.recent@ == match recent {
            Some(v) => v@,
            None => Seq::<ScanRecord>::empty(),
        }
        &&& next.recent_count == match recent_count {
            Some(c) => c,
            None => 0,
        }
        &&& next.last_stats_refresh == now
    }

    /// The state at start-up, from the statistics read at `now`; a count that
    /// could not be read is zero and a list that could not be read is empty.
    pub fn new(
        total: Option<i64>,
        recent: Option<Vec<ScanRecord>>,
        recent_count: Option<i64>,
        now: u64,
    ) -> (s: Self)
        ensures
            s.input@.len() == 0,
            s.total == match total {
                Some(t) => t,
                None => 0,
            },
            s.recent@ == match recent {
                Some(v) => v@,
                None => Seq::<ScanRecord>::empty(),
            },
            s.recent_count == match recent_count {
                Some(c) => c,
                None => 0,
            },
            s.status is Idle,
            s.status_at is None,
            s.last_stats_refresh == now,
            s.allow_dup_until is None,
    {
        let total = match total {
            Some(t) => t,
            None => 0,
        };
        let recent = match recent {
            Some(v) => v,
            None => Vec::new(),
        };
        let recent_count = match recent_count {
            Some(c) => c,
            None => 0,
        };
        ScannerState {
            input: String::new(),
            recent,
            total,
            recent_count,
            status: Status::Idle,
            status_at: None,
            last_stats_refresh: now,
            allow_dup_until: None,
        }
    }

    /// Takes in the statistics read at `now`.
    pub fn refresh_stats(
        &mut self,
        total: Option<i64>,
        recent: Option<Vec<ScanRecord>>,
        recent_count: Option<i64>,
        now: u64,
    )
        ensures
            old(self).refreshed(*final(self), total, recent, recent_count, now),
    {
        if let Some(t) = total {
            self.total = t;
        }
        self.recent = match recent {
            Some(v) => v,
            None => Vec::new(),
        };
        self.recent_count = match recent_count {
            Some(c) => c,
            None => 0,
        };
        self.last_stats_refresh = now;
    }

    /// Whether duplicate scans are accepted at `now`.
    pub fn dup_override_active(&self, now: u64) -> (r: bool)
        ensures
            r == self.override_active(now),
    {
        match self.allow_dup_until {
            Some(t) => now < t,
            None => false,
        }
    }

    /// How long duplicate scans are still accepted, at `now`.
    pub fn dup_override_remaining(&self, now: u64) -> (r: Option<u64>)
        ensures
            r == self.override_remaining(now),
    {
        match self.allow_dup_until {
            Some(t) => if now < t {
                Some(t - now)
            } else {
                None
            },
            None => None,
        }
    }

    /// Opens the duplicate override for five minutes from `now`.
    pub fn enable_dup_override(&mut self, now: u64)
        requires
            now <= u64::MAX - OVERRIDE_WINDOW_MS,
        ensures
            old(self).override_enabled(*final(self), now),
    {
        self.allow_dup_until = Some(now + OVERRIDE_WINDOW_MS);
    }

    /// Takes down a banner that has been up long enough and closes an override
    /// that has run out; says whether the override ran out and whether the
    /// statistics are due.
    pub fn tick(&mut self, now: u64) -> (r: TickOutcome)
        ensures
            old(self).ticked(*final(self), now),
            r.override_expired == old(self).override_expires(now),
            r.refresh_due == old(self).refresh_due(now),
    {
        if let Some(t) = self.status_at {
            let ttl: u64 = match self.status {
                Status::Duplicate(_) => DUPLICATE_TTL_MS,
                _ => STATUS_TTL_MS,
            };
            let waited: u64 = if now >= t {
                now - t
            } else {
                0
            };
            if waited > ttl {
                self.status = Status::Idle;
                self.status_at = None;
            }
        }
        let mut override_expired = false;
        if let Some(t) = self.allow_dup_until {
            if now >= t {
                self.allow_dup_until = None;
                override_expired = true;
            }
        }
        let since_refresh: u64 = if now >= self.last_stats_refresh {
            now - self.last_stats_refresh
        } else {
            0
        };
        TickOutcome { override_expired, refresh_due: since_refresh > STATS_REFRESH_MS }
    }

    /// Adds typed or scanned text to the end of the entry.
    pub fn type_text(&mut self, text: &str)
        ensures
            final(self).input@ == old(self).input@ + text@,
            final(self).same_but_input(*old(self)),
    {
        push_str(&mut self.input, text);
    }

    /// Removes the last character of the entry, if any.
    pub fn delete_last(&mut self)
        ensures
            final(self).input@ == if old(self).input@.len() == 0 {
                old(self).input@
            } else {
                old(self).input@.drop_last()
            },
            final(self).same_but_input(*old(self)),
    {
        let n = self.input.as_str().unicode_len();
        if n > 0 {
            let kept = self.input.as_str().substring_char(0, n - 1);
            let mut s = String::new();
            push_str(&mut s, kept);
            assert(s@ =~= old(self).input@.drop_last());
            self.input = s;
        }
    }

    /// Empties the entry.
    pub fn clear_input(&mut self)
        ensures
            final(self).input@.len() == 0,
            final(self).same_but_input(*old(self)),
    {
        self.input = String::new();
    }

    /// Submits the entry at `now`: empties the field, reads the ticket number
    /// from the digits of the trimmed entry, refuses what is no number or lies
    /// below the first ticket number, and otherwise asks the caller to store a
    /// scan, forcing a duplicate while the override is open.
    pub fn begin_submit(&mut self, now: u64) -> (req: SubmitRequest)
        ensures
            old(self).submitted(*final(self), now, req),
    {
        let raw = trim_text(self.input.as_str());
        self.input = String::new();
        if raw.as_str().unicode_len() == 0 {
            return SubmitRequest::Empty;
        }
        let digits = keep_ascii_digits(raw.as_str());
        let force = self.dup_override_active(now);
        match parse_i64(digits.as_str()) {
            Some(n) => {
                if n < MIN_TICKET {
                    let mut msg = String::new();
                    push_str(&mut msg, "Ticket #");
                    let t = i64_text(n);
                    push_str(&mut msg, t.as_str());
                    push_str(&mut msg, " rejected: tickets start at 1000");
                    assert(msg@ =~= below_minimum_text(n as int));
                    self.status = Status::Error(msg);
                    self.status_at = Some(now);
                    SubmitRequest::BelowMinimum { ticket: n, raw }
                } else {
                    SubmitRequest::Store { ticket: n, force, raw }
                }
            },
            None => {
                let mut msg = String::new();
                push_str(&mut msg, "Not a valid number: ");
                push_str(&mut msg, raw.as_str());
                self.status = Status::Error(msg);
                self.status_at = Some(now);
                SubmitRequest::NotANumber { raw }
            },
        }
    }

    /// Takes the store's answer for a scan of `ticket` at `now`: an accepted
    /// scan (new, or a forced duplicate) raises the accepted banner and asks
    /// for fresh statistics; a refused duplicate raises the duplicate banner; a
    /// store failure raises a warning with the store's message.
    pub fn finish_submit(
        &mut self,
        ticket: i64,
        result: Result<InsertOutcome, String>,
        now: u64,
    ) -> (refresh: bool)
        ensures
            old(self).finished(*final(self), ticket, result, now, refresh),
    {
        let refresh = match result {
            Ok(InsertOutcome::Duplicate) => {
                self.status = Status::Duplicate(ticket);
                false
            },
            Ok(_) => {
                self.status = Status::Success(ticket);
                true
            },
            Err(e) => {
                let mut msg = String::new();
                push_str(&mut msg, "DB error: ");
                push_str(&mut msg, e.as_str());
                self.status = Status::Error(msg);
                false
            },
        };
        self.status_at = Some(now);
        refresh
    }

    /// Handles the keys of one frame: the typed text is added, a Backspace
    /// then resets the entry, and an Enter then submits it. Without Enter
    /// nothing is asked of the caller.
    pub fn handle_keys(&mut self, typed: &str, backspace: bool, enter: bool, now: u64) -> (req:
        SubmitRequest)
        ensures
            ({
                let entry = if backspace {
                    Seq::<char>::empty()
                } else {
                    old(self).input@ + typed@
                };
                if enter {
                    old(self).submitted_entry(entry, *final(self), now, req)
                } else {
                    &&& req is Empty
                    &&& final(self).input@ == entry
                    &&& final(self).same_but_input(*old(self))
                }
            }),
    {
        self.type_text(typed);
        if backspace {
            self.clear_input();
        }
        if enter {
            let ghost mid = *self;
            proof {
                if backspace {
                    assert(mid.input@ =~= Seq::<char>::empty());
                }
            }
            self.begin_submit(now)
        } else {
            proof {
                if backspace {
                    assert(self.input@ =~= Seq::<char>::empty());
                }
            }
            SubmitRequest::Empty
        }
    }

    /// The banner to show.
    pub fn banner(&self) -> (b: Banner)
        ensures
            b.kind == banner_kind(self.status),
            b.text@ == banner_text(self.status),
    {
        let mut text = String::new();
        let kind = match &self.status {
            Status::Idle => {
                push_str(&mut text, "Ready \u{2014} scan a ticket or enter a number below");
                BannerKind::Ready
            },
            Status::Success(n) => {
                push_str(&mut text, "\u{2705}  ACCEPTED \u{2014} Ticket #");
                let t = i64_text(*n);
                push_str(&mut text, t.as_str());
                BannerKind::Accepted
            },
            Status::Duplicate(n) => {
                push_str(&mut text, "\u{26A0}\u{FE0F}  DUPLICATE! Ticket #");
                let t = i64_text(*n);
                push_str(&mut text, t.as_str());
                push_str(&mut text, " has already been scanned!");
                BannerKind::Duplicate
            },
            Status::Error(msg) => {
                push_str(&mut text, "\u{26A0}\u{FE0F}  ");
                push_str(&mut text, msg.as_str());
                BannerKind::Warning
            },
        };
        Banner { kind, text }
    }

    /// What the entry display shows: the entry, or `_ _ _ _` while it is empty.
    pub fn input_display(&self) -> (r: String)
        ensures
            r@ == if self.input@.len() == 0 {
                "_ _ _ _"@
            } else {
                self.input@
            },
    {
        let mut r = String::new();
        if self.input.as_str().unicode_len() == 0 {
            push_str(&mut r, "_ _ _ _");
        } else {
            push_str(&mut r, self.input.as_str());
        }
        r
    }

    /// The text of the override button at `now`: the minutes and seconds the
    /// override still runs, or the offer to open it.
    pub fn override_label(&self, now: u64) -> (r: String)
        ensures
            r@ == override_label_text(self.override_remaining(now)),
    {
        let mut r = String::new();
        match self.dup_override_remaining(now) {
            Some(d) => {
                let secs = d / 1000;
                push_str(&mut r, "ALLOWING DUPLICATES  ");
                push_two_digits(&mut r, secs / 60);
                push_str(&mut r, ":");
                push_two_digits(&mut r, secs % 60);
            },
            None => {
                push_str(&mut r, "ALLOW DUPLICATES (5 min)");
            },
        }
        r
    }
}

} // verus!

verus! {

/// Once opened at `t`, the duplicate override is open exactly until five
/// minutes later, and the first tick from then on closes it.
pub proof fn duplicate_override_lasts_five_minutes(
    s0: ScannerState,
    s1: ScannerState,
    s2: ScannerState,
    t: u64,
    now: u64,
)
    requires
        t <= u64::MAX - OVERRIDE_WINDOW_MS,
        s0.override_enabled(s1, t),
        s1.ticked(s2, now),
    ensures
        s1.override_active(now) <==> now < t + OVERRIDE_WINDOW_MS,
        s2.override_active(now) <==> now < t + OVERRIDE_WINDOW_MS,
        (s2.allow_dup_until is None) <==> now >= t + OVERRIDE_WINDOW_MS,
        t <= now < t + OVERRIDE_WINDOW_MS ==> s1.override_remaining(now) == Some(
            (t + OVERRIDE_WINDOW_MS - now) as u64,
        ),
{
}

/// The banner for a refused duplicate stays up for eight seconds and is taken
/// down by the first tick after that.
pub proof fn duplicate_banner_holds_eight_seconds(
    s0: ScannerState,
    s1: ScannerState,
    s2: ScannerState,
    ticket: i64,
    t: u64,
    now: u64,
    refresh: bool,
)
    requires
        s0.finished(s1, ticket, Ok(InsertOutcome::Duplicate), t, refresh),
        s1.ticked(s2, now),
        now >= t,
    ensures
        now - t <= DUPLICATE_TTL_MS ==> s2.status == Status::Duplicate(ticket),
        now - t > DUPLICATE_TTL_MS ==> s2.status is Idle && s2.status_at is None,
{
}

/// The banner for an accepted scan stays up for four seconds and is taken
/// down by the first tick after that.
pub proof fn accepted_banner_holds_four_seconds(
    s0: ScannerState,
    s1: ScannerState,
    s2: ScannerState,
    ticket: i64,
    outcome: InsertOutcome,
    t: u64,
    now: u64,
    refresh: bool,
)
    requires
        outcome != InsertOutcome::Duplicate,
        s0.finished(s1, ticket, Ok(outcome), t, refresh),
        s1.ticked(s2, now),
        now >= t,
    ensures
        now - t <= STATUS_TTL_MS ==> s2.status == Status::Success(ticket),
        now - t > STATUS_TTL_MS ==> s2.status is Idle && s2.status_at is None,
        refresh,
{
}

/// What a submission asks to store is a ticket number of at least 1000, and
/// the store is asked to accept a duplicate exactly while the override is open:
/// a ticket already stored is stored again only then.
pub proof fn submitted_scans_follow_the_override(
    s0: ScannerState,
    s1: ScannerState,
    now: u64,
    req: SubmitRequest,
    existing: int,
)
    requires
        s0.submitted(s1, now, req),
        req is Store,
    ensures
        req->Store_ticket >= MIN_TICKET,
        req->Store_force == s0.override_active(now),
        crate::records::insert_outcome(existing, req->Store_force).writes_row() <==> (existing
            <= 0 || s0.override_active(now)),
{
}

/// After the statistics are read at `t`, they fall due again exactly when more
/// than thirty seconds have passed.
pub proof fn stats_refresh_every_thirty_seconds(
    s0: ScannerState,
    s1: ScannerState,
    total: Option<i64>,
    recent: Option<Vec<ScanRecord>>,
    recent_count: Option<i64>,
    t: u64,
    now: u64,
)
    requires
        s0.refreshed(s1, total, recent, recent_count, t),
        now >= t,
    ensures
        s1.refresh_due(now) <==> now - t > STATS_REFRESH_MS,
{
}

/// A tick takes a banner down exactly when it has been up longer than its
/// time: eight seconds for the duplicate banner, four seconds for every other
/// banner (accepted scans and warnings alike); before that it stays as it is.
pub proof fn banners_come_down_after_their_time(s0: ScannerState, s1: ScannerState, now: u64)
    requires
        s0.ticked(s1, now),
        s0.status_at is Some,
        now >= s0.status_at->0,
    ensures
        s0.status is Duplicate ==> (now - s0.status_at->0 > 8000 <==> (s1.status is Idle
            && s1.status_at is None)),
        s0.status is Duplicate && now - s0.status_at->0 <= 8000 ==> s1.status == s0.status
            && s1.status_at == s0.status_at,
        !(s0.status is Duplicate) && !(s0.status is Idle) ==> (now - s0.status_at->0 > 4000 <==> (
        s1.status is Idle && s1.status_at is None)),
        !(s0.status is Duplicate) && now - s0.status_at->0 <= 4000 ==> s1.status == s0.status
            && s1.status_at == s0.status_at,
        now - s0.status_at->0 > 8000 ==> s1.status is Idle && s1.status_at is None,
{
}

/// A warning raised by a refused entry at `t` (no number, or a number below
/// 1000) stays up for four seconds and the first tick after that takes it down.
pub proof fn warning_banner_holds_four_seconds(
    s0: ScannerState,
    s1: ScannerState,
    s2: ScannerState,
    req: SubmitRequest,
    t: u64,
    now: u64,
)
    requires
        s0.submitted(s1, t, req),
        req is NotANumber || req is BelowMinimum,
        s1.ticked(s2, now),
        now >= t,
    ensures
        s1.status is Error,
        s1.status_at == Some(t),
        now - t <= 4000 ==> s2.status is Error && s2.status_at == Some(t),
        now - t > 4000 ==> s2.status is Idle && s2.status_at is None,
{
}

/// A warning raised by a store failure at `t` stays up for four seconds and
/// the first tick after that takes it down.
pub proof fn store_error_banner_holds_four_seconds(
    s0: ScannerState,
    s1: ScannerState,
    s2: ScannerState,
    ticket: i64,
    err: String,
    t: u64,
    now: u64,
    refresh: bool,
)
    requires
        s0.finished(s1, ticket, Err(err), t, refresh),
        s1.ticked(s2, now),
        now >= t,
    ensures
        now - t <= 4000 ==> s2.status is Error && s2.status_at == Some(t),
        now - t > 4000 ==> s2.status is Idle && s2.status_at is None,
{
}

/// A refresh holds exactly what was read from the store: the last scans, the
/// total and the rate count that were read replace what was held before, so
/// two states refreshed with the same reads hold the same statistics.
pub proof fn refresh_holds_what_was_read(
    s0: ScannerState,
    s1: ScannerState,
    s0b: ScannerState,
    s1b: ScannerState,
    total: i64,
    recent: Vec<ScanRecord>,
    recent_count: i64,
    now: u64,
    nowb: u64,
)
    requires
        s0.refreshed(s1, Some(total), Some(recent), Some(recent_count), now),
        s0b.refreshed(s1b, Some(total), Some(recent), Some(recent_count), nowb),
    ensures
        s1.recent@ == recent@,
        s1.total == total,
        s1.recent_count == recent_count,
        s1.recent@ == s1b.recent@,
        s1.recent_count == s1b.recent_count,
        s1.total == s1b.total,
{
}

/// Storing scans does not touch the duplicate override: once it is opened at
/// `t`, a submission before `t` plus five minutes asks to force the scan, and so
/// does the next one after the store's answer, whatever that answer was.
pub proof fn override_survives_stored_scans(
    s0: ScannerState,
    s1: ScannerState,
    s2: ScannerState,
    s3: ScannerState,
    s4: ScannerState,
    t: u64,
    now1: u64,
    req1: SubmitRequest,
    ticket: i64,
    result: Result<InsertOutcome, String>,
    refresh: bool,
    now2: u64,
    req2: SubmitRequest,
)
    requires
        t <= u64::MAX - OVERRIDE_WINDOW_MS,
        s0.override_enabled(s1, t),
        s1.submitted(s2, now1, req1),
        s2.finished(s3, ticket, result, now1, refresh),
        s3.submitted(s4, now2, req2),
        now1 < t + OVERRIDE_WINDOW_MS,
        now2 < t + OVERRIDE_WINDOW_MS,
    ensures
        req1 is Store ==> req1->Store_force,
        req2 is Store ==> req2->Store_force,
        s3.allow_dup_until == Some((t + OVERRIDE_WINDOW_MS) as u64),
        s4.allow_dup_until == Some((t + OVERRIDE_WINDOW_MS) as u64),
{
}

/// The ticket number of a submission is the decimal value of the ASCII digits
/// of the trimmed entry, leading zeros included: a value from 1000 up to the
/// largest `i64` is asked to be stored, a smaller one is refused as below the
/// first ticket, and an entry without digits or with a larger value is refused
/// as no number.
pub proof fn submitted_ticket_is_the_entered_digits(
    s0: ScannerState,
    s1: ScannerState,
    now: u64,
    req: SubmitRequest,
)
    requires
        s0.submitted(s1, now, req),
        trim(s0.input@).len() > 0,
    ensures
        ascii_digits(trim(s0.input@)).len() > 0 && MIN_TICKET <= digits_value(
            ascii_digits(trim(s0.input@)),
        ) <= i64::MAX ==> req is Store && req->Store_ticket == digits_value(
            ascii_digits(trim(s0.input@)),
        ),
        ascii_digits(trim(s0.input@)).len() > 0 && digits_value(ascii_digits(trim(s0.input@)))
            < MIN_TICKET ==> req is BelowMinimum && req->BelowMinimum_ticket == digits_value(
            ascii_digits(trim(s0.input@)),
        ),
        ascii_digits(trim(s0.input@)).len() == 0 || digits_value(ascii_digits(trim(s0.input@)))
            > i64::MAX ==> req is NotANumber,
{
    let d = ascii_digits(trim(s0.input@));
    picked_digits_are_digits(trim(s0.input@));
    if d.len() > 0 {
        digit_strings_read_as_their_value(d);
    } else {
        assert(parse_i64_spec(d) is None);
    }
}

/// A refresh whose reads failed keeps the total that was shown, shows no
/// recent scans and a rate count of zero, and leaves the entry, the banner and
/// the override as they were.
pub proof fn failed_refresh_reads(s0: ScannerState, s1: ScannerState, now: u64)
    requires
        s0.refreshed(s1, None, None, None, now),
    ensures
        s1.total == s0.total,
        s1.recent@.len() == 0,
        s1.recent_count == 0,
        s1.last_stats_refresh == now,
        s1.input == s0.input,
        s1.status == s0.status,
        s1.status_at == s0.status_at,
        s1.allow_dup_until == s0.allow_dup_until,
{
}

} // verus!
