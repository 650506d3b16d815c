//! Wall-clock date-times and the two text forms the scanner uses for them:
//! the stored form `YYYY-MM-DD HH:MM:SS` and the 12-hour display form
//! `H:MM:SS AM`.
use chrono::{Datelike, Timelike};
use vstd::prelude::*;

use crate::text::{
    digit_char, fill, nat_text, pad_start, push_char, push_nat_text, push_padded_start, push_str, push_two_digits,
    two_digits,
};

verus! {

/// A calendar date and time of day, as read from the local clock or from a
/// stored timestamp. A `nanosecond` of one billion or more marks a leap second.
#[derive(Clone, Copy, Debug, PartialEq, Eq, Structural)]
pub struct DateTimeFields {
    pub year: i32,
    pub month: u32,
    pub day: u32,
    pub hour: u32,
    pub minute: u32,
    pub second: u32,
    pub nanosecond: u32,
}

impl DateTimeFields {
    /// The ranges that every date-time of the calendar keeps.
    pub open spec fn in_range(self) -> bool {
        &&& 1 <= self.month <= 12
        &&& 1 <= self.day <= 31
        &&& self.hour < 24
        &&& self.minute < 60
        &&& self.second < 60
        &&& self.nanosecond < 2_000_000_000
    }
}

/// The year as `%Y` shows it: four digits, zero-padded, with a sign in front
/// of years before 0 or after 9999.
pub open spec fn year_text(y: int) -> Seq<char> {
    if 0 <= y <= 9999 {
        pad_start(nat_text(y as nat), 4, '0')
    } else if y < 0 {
        seq!['-'] + pad_start(nat_text((-y) as nat), 4, '0')
    } else {
        seq!['+'] + pad_start(nat_text(y as nat), 4, '0')
    }
}

/// The second that is shown: 60 during a leap second.
pub open spec fn shown_second(f: DateTimeFields) -> nat {
    (f.second + f.nanosecond / 1_000_000_000) as nat
}

/// The stored form of a date-time: `YYYY-MM-DD HH:MM:SS`.
pub open spec fn timestamp_text(f: DateTimeFields) -> Seq<char> {
    year_text(f.year as int) + seq!['-'] + two_digits(f.month as nat) + seq!['-'] + two_digits(
        f.day as nat,
    ) + seq![' '] + two_digits(f.hour as nat) + seq![':'] + two_digits(f.minute as nat) + seq![
        ':',
    ] + two_digits(shown_second(f))
}

/// The hour on a 12-hour clock: 12 stands for both midnight and noon.
pub open spec fn hour12(h: nat) -> nat {
    if h % 12 == 0 {
        12
    } else {
        h % 12
    }
}

/// The 12-hour display form of a time of day: `H:MM:SS AM` or `H:MM:SS PM`,
/// with the hour not padded.
pub open spec fn clock_text(f: DateTimeFields) -> Seq<char> {
    nat_text(hour12(f.hour as nat)) + seq![':'] + two_digits(f.minute as nat) + seq![':']
        + two_digits(shown_second(f)) + seq![' '] + if f.hour >= 12 {
        seq!['P', 'M']
    } else {
        seq!['A', 'M']
    }
}

/// What chrono's `NaiveDateTime::parse_from_str` makes of a text with the
/// stored format `%Y-%m-%d %H:%M:%S`: the date-time it reads, or `None` where
/// the text does not parse or names no valid date-time.
pub uninterp spec fn chrono_parse_timestamp(s: Seq<char>) -> Option<DateTimeFields>;

/// Calls chrono's `NaiveDateTime::parse_from_str` with the format
/// `%Y-%m-%d %H:%M:%S` and reads the fields of the date-time it returns
/// (`year`, `month`, `day`, `hour`, `minute`, `second`, `nanosecond`).
/// Claimed: the result is a function of the text alone, and the fields of a
/// parsed date-time lie in the ranges that chrono documents for them.
#[verifier::external_body]
fn parse_timestamp(s: &str) -> (r: Option<DateTimeFields>)
    ensures
        r == chrono_parse_timestamp(s@),
        r matches Some(f) ==> f.in_range(),
{
    match chrono::NaiveDateTime::parse_from_str(s, "%Y-%m-%d %H:%M:%S") {
        Ok(dt) => Some(
            DateTimeFields {
                year: dt.year(),
                month: dt.month(),
                day: dt.day(),
                hour: dt.hour(),
                minute: dt.minute(),
                second: dt.second(),
                nanosecond: dt.nanosecond(),
            },
        ),
        Err(_) => None,
    }
}

fn shown_second_of(f: &DateTimeFields) -> (r: u64)
    ensures
        r == shown_second(*f),
{
    f.second as u64 + (f.nanosecond / 1_000_000_000) as u64
}

/// Appends the year as `%Y` shows it.
fn push_year(s: &mut String, y: i32)
    ensures
        final(s)@ == old(s)@ + year_text(y as int),
{
    let ghost start = s@;
    let mut digits = String::new();
    if y < 0 {
        push_char(s, '-');
        let mag: u64 = (0i64 - (y as i64)) as u64;
        push_nat_text(&mut digits, mag);
    } else {
        if y > 9999 {
            push_char(s, '+');
        }
        push_nat_text(&mut digits, y as u64);
    }
    assert(digits@ =~= nat_text(if y < 0 {
        (-y) as nat
    } else {
        y as nat
    }));
    push_padded_start(s, &digits, 4, '0');
    assert(s@ =~= start + year_text(y as int));
}

/// Renders a date-time in the stored form `YYYY-MM-DD HH:MM:SS`
/// (chrono's `%Y-%m-%d %H:%M:%S`).
pub fn format_timestamp(f: &DateTimeFields) -> (r: String)
    ensures
        r@ == timestamp_text(*f),
{
    let mut s = String::new();
    push_year(&mut s, f.year);
    push_char(&mut s, '-');
    push_two_digits(&mut s, f.month as u64);
    push_char(&mut s, '-');
    push_two_digits(&mut s, f.day as u64);
    push_char(&mut s, ' ');
    push_two_digits(&mut s, f.hour as u64);
    push_char(&mut s, ':');
    push_two_digits(&mut s, f.minute as u64);
    push_char(&mut s, ':');
    push_two_digits(&mut s, shown_second_of(f));
    assert(s@ =~= timestamp_text(*f));
    s
}

/// Renders the time of day on a 12-hour clock, `H:MM:SS AM`
/// (chrono's `%-I:%M:%S %p`).
pub fn format_clock(f: &DateTimeFields) -> (r: String)
    ensures
        r@ == clock_text(*f),
{
    let mut s = String::new();
    let h12: u64 = if f.hour % 12 == 0 {
        12
    } else {
        (f.hour % 12) as u64
    };
    push_nat_text(&mut s, h12);
    push_char(&mut s, ':');
    push_two_digits(&mut s, f.minute as u64);
    push_char(&mut s, ':');
    push_two_digits(&mut s, shown_second_of(f));
    push_char(&mut s, ' ');
    if f.hour >= 12 {
        push_char(&mut s, 'P');
    } else {
        push_char(&mut s, 'A');
    }
    push_char(&mut s, 'M');
    assert(s@ =~= clock_text(*f));
    s
}

/// The time of day of a stored timestamp, shown on a 12-hour clock; a text
/// that is no timestamp is shown as it is.
pub open spec fn time_of_text(stored: Seq<char>, parsed: Option<DateTimeFields>) -> Seq<char> {
    match parsed {
        Some(f) => clock_text(f),
        None => stored,
    }
}

/// Shows the time of a stored `YYYY-MM-DD HH:MM:SS` timestamp as `H:MM:SS AM`;
/// a text that does not parse as such a timestamp is returned unchanged.
pub fn time_of(s: &str) -> (r: String)
    ensures
        r@ == time_of_text(s@, chrono_parse_timestamp(s@)),
{
    match parse_timestamp(s) {
        Some(f) => format_clock(&f),
        None => {
            let mut r = String::new();
            push_str(&mut r, s);
            assert(r@ =~= s@);
            r
        },
    }
}

/// Text order, character by character by code point; a proper prefix comes
/// first. On ASCII text this is the order in which SQLite compares `TEXT`
/// values byte by byte.
pub open spec fn text_le(a: Seq<char>, b: Seq<char>) -> bool
    decreases a.len(),
{
    if a.len() == 0 {
        true
    } else if b.len() == 0 {
        false
    } else if a[0] != b[0] {
        (a[0] as u32) < (b[0] as u32)
    } else {
        text_le(a.drop_first(), b.drop_first())
    }
}

/// `f` is not later than `g`, to the second that is shown.
pub open spec fn not_later(f: DateTimeFields, g: DateTimeFields) -> bool {
    if f.year != g.year {
        f.year < g.year
    } else if f.month != g.month {
        f.month < g.month
    } else if f.day != g.day {
        f.day < g.day
    } else if f.hour != g.hour {
        f.hour < g.hour
    } else if f.minute != g.minute {
        f.minute < g.minute
    } else {
        shown_second(f) <= shown_second(g)
    }
}

/// Ten to the power `k`.
pub open spec fn pow10(k: nat) -> nat
    decreases k,
{
    if k == 0 {
        1
    } else {
        10 * pow10((k - 1) as nat)
    }
}

/// The last `k` decimal digits of `v`, zero-padded to exactly `k` places.
pub open spec fn fixed_digits(v: nat, k: nat) -> Seq<char>
    decreases k,
{
    if k == 0 {
        Seq::<char>::empty()
    } else {
        fixed_digits(v / 10, (k - 1) as nat).push(digit_char((v % 10) as int))
    }
}

/// Comparing two texts whose first parts have the same length: the first
/// parts decide unless they are equal.
proof fn lemma_text_le_concat(a1: Seq<char>, a2: Seq<char>, b1: Seq<char>, b2: Seq<char>)
    requires
        a1.len() == b1.len(),
    ensures
        text_le(a1 + a2, b1 + b2) == if a1 == b1 {
            text_le(a2, b2)
        } else {
            text_le(a1, b1)
        },
    decreases a1.len(),
{
    if a1.len() == 0 {
        assert(a1 =~= b1);
        assert(a1 + a2 =~= a2);
        assert(b1 + b2 =~= b2);
    } else {
        assert((a1 + a2)[0] == a1[0]);
        assert((b1 + b2)[0] == b1[0]);
        if a1[0] == b1[0] {
            assert((a1 + a2).drop_first() =~= a1.drop_first() + a2);
            assert((b1 + b2).drop_first() =~= b1.drop_first() + b2);
            lemma_text_le_concat(a1.drop_first(), a2, b1.drop_first(), b2);
            if a1.drop_first() =~= b1.drop_first() {
                assert forall|i: int| 0 <= i < a1.len() implies a1[i] == b1[i] by {
                    if i > 0 {
                        assert(a1[i] == a1.drop_first()[i - 1]);
                        assert(b1[i] == b1.drop_first()[i - 1]);
                    }
                }
                assert(a1 =~= b1);
            } else {
                assert(a1 != b1);
            }
        } else {
            assert(a1 != b1);
        }
    }
}

proof fn lemma_fixed_zero(k: nat)
    ensures
        fixed_digits(0, k) == fill('0', k),
    decreases k,
{
    if k > 0 {
        lemma_fixed_zero((k - 1) as nat);
        assert(fixed_digits(0, k) =~= fill('0', k));
    }
}

/// A number below `10^k`, zero-padded to `k` places, is its `k` last digits.
proof fn lemma_pad_is_fixed(v: nat, k: nat)
    requires
        k >= 1,
        v < pow10(k),
    ensures
        pad_start(nat_text(v), k, '0') == fixed_digits(v, k),
        fixed_digits(v, k).len() == k,
    decreases k,
{
    if v < 10 {
        lemma_fixed_zero((k - 1) as nat);
        assert(v / 10 == 0);
        assert(pad_start(nat_text(v), k, '0') =~= fixed_digits(v, k));
    } else {
        assert(k >= 2) by {
            if k == 1 {
                assert(pow10(1) == 10 * pow10(0));
            }
        }
        assert(pow10(k) == 10 * pow10((k - 1) as nat));
        lemma_pad_is_fixed(v / 10, (k - 1) as nat);
        let p = nat_text(v / 10);
        assert(nat_text(v) == p.push(digit_char((v % 10) as int)));
        assert(pad_start(nat_text(v), k, '0') =~= pad_start(p, (k - 1) as nat, '0').push(
            digit_char((v % 10) as int),
        ));
    }
}

proof fn lemma_fixed_len(v: nat, k: nat)
    ensures
        fixed_digits(v, k).len() == k,
    decreases k,
{
    if k > 0 {
        lemma_fixed_len(v / 10, (k - 1) as nat);
    }
}

/// Fixed-width digit texts are ordered as the numbers they spell.
proof fn lemma_fixed_order(v: nat, w: nat, k: nat)
    requires
        v < pow10(k),
        w < pow10(k),
    ensures
        text_le(fixed_digits(v, k), fixed_digits(w, k)) <==> v <= w,
        fixed_digits(v, k) == fixed_digits(w, k) <==> v == w,
        fixed_digits(v, k).len() == k,
    decreases k,
{
    if k == 0 {
        assert(pow10(0) == 1);
    } else {
        assert(pow10(k) == 10 * pow10((k - 1) as nat));
        lemma_fixed_order(v / 10, w / 10, (k - 1) as nat);
        lemma_fixed_len(v / 10, (k - 1) as nat);
        lemma_fixed_len(w / 10, (k - 1) as nat);
        let pv = fixed_digits(v / 10, (k - 1) as nat);
        let pw = fixed_digits(w / 10, (k - 1) as nat);
        let dv = seq![digit_char((v % 10) as int)];
        let dw = seq![digit_char((w % 10) as int)];
        assert(fixed_digits(v, k) =~= pv + dv);
        assert(fixed_digits(w, k) =~= pw + dw);
        lemma_text_le_concat(pv, dv, pw, dw);
        assert(dv.drop_first() =~= Seq::<char>::empty());
        assert(dw.drop_first() =~= Seq::<char>::empty());
        assert((digit_char((v % 10) as int) as u32) == 48 + v % 10);
        assert((digit_char((w % 10) as int) as u32) == 48 + w % 10);
        assert(v == 10 * (v / 10) + v % 10);
        assert(w == 10 * (w / 10) + w % 10);
        assert(text_le(dv, dw) <==> v % 10 <= w % 10) by {
            if dv[0] == dw[0] {
                assert(text_le(dv.drop_first(), dw.drop_first()));
            }
        }
        if pv == pw {
            assert(v / 10 == w / 10);
            if v % 10 != w % 10 {
                assert(dv[0] != dw[0]);
                assert(pv + dv != pw + dw) by {
                    assert((pv + dv)[(k - 1) as int] == dv[0]);
                    assert((pw + dw)[(k - 1) as int] == dw[0]);
                }
            } else {
                assert(dv =~= dw);
            }
        } else {
            assert(exists|i: int| 0 <= i < pv.len() && pv[i] != pw[i]) by {
                if !(exists|i: int| 0 <= i < pv.len() && pv[i] != pw[i]) {
                    assert(pv =~= pw);
                }
            }
            assert(pv + dv != pw + dw) by {
                let i = choose|i: int| 0 <= i < pv.len() && pv[i] != pw[i];
                assert((pv + dv)[i] == pv[i]);
                assert((pw + dw)[i] == pw[i]);
            }
        }
    }
}

/// The stored form of a date-time, as its fields and separators, grouped
/// from the front.
spec fn timestamp_parts(f: DateTimeFields) -> Seq<char> {
    fixed_digits(f.year as nat, 4) + (seq!['-'] + (fixed_digits(f.month as nat, 2) + (seq!['-'] + (
    fixed_digits(f.day as nat, 2) + (seq![' '] + (fixed_digits(f.hour as nat, 2) + (seq![':'] + (
    fixed_digits(f.minute as nat, 2) + (seq![':'] + fixed_digits(shown_second(f), 2))))))))))
}

proof fn lemma_timestamp_parts(f: DateTimeFields)
    requires
        f.in_range(),
        0 <= f.year <= 9999,
    ensures
        timestamp_text(f) == timestamp_parts(f),
{
    assert(pow10(2) == 100) by {
        assert(pow10(0) == 1);
        assert(pow10(1) == 10);
    }
    assert(pow10(4) == 10000) by {
        assert(pow10(2) == 100) by {
            assert(pow10(1) == 10);
        }
        assert(pow10(3) == 1000);
    }
    lemma_pad_is_fixed(f.year as nat, 4);
    lemma_pad_is_fixed(f.month as nat, 2);
    lemma_pad_is_fixed(f.day as nat, 2);
    lemma_pad_is_fixed(f.hour as nat, 2);
    lemma_pad_is_fixed(f.minute as nat, 2);
    lemma_pad_is_fixed(shown_second(f), 2);
    assert(timestamp_text(f) =~= timestamp_parts(f));
}

/// Comparing two texts that start with the same separator.
proof fn lemma_text_le_sep(c: char, a: Seq<char>, b: Seq<char>)
    ensures
        text_le(seq![c] + a, seq![c] + b) == text_le(a, b),
{
    lemma_text_le_concat(seq![c], a, seq![c], b);
}

/// Comparing two texts that start with fixed-width numbers.
proof fn lemma_text_le_field(v: nat, w: nat, k: nat, a: Seq<char>, b: Seq<char>)
    requires
        v < pow10(k),
        w < pow10(k),
    ensures
        text_le(fixed_digits(v, k) + a, fixed_digits(w, k) + b) == if v == w {
            text_le(a, b)
        } else {
            v < w
        },
{
    lemma_fixed_order(v, w, k);
    lemma_fixed_len(v, k);
    lemma_fixed_len(w, k);
    lemma_text_le_concat(fixed_digits(v, k), a, fixed_digits(w, k), b);
}

/// Stored timestamps of the years 0 to 9999 sort as text in the order of the
/// times they show: a timestamp is not after another as text exactly when its
/// time is not later. Counting the scans since a moment by comparing stored
/// texts therefore counts the scans since that moment.
pub proof fn stored_timestamps_sort_by_time(f: DateTimeFields, g: DateTimeFields)
    requires
        f.in_range(),
        g.in_range(),
        0 <= f.year <= 9999,
        0 <= g.year <= 9999,
    ensures
        text_le(timestamp_text(f), timestamp_text(g)) <==> not_later(f, g),
{
    lemma_timestamp_parts(f);
    lemma_timestamp_parts(g);
    assert(pow10(2) == 100) by {
        assert(pow10(0) == 1);
        assert(pow10(1) == 10);
    }
    assert(pow10(4) == 10000) by {
        assert(pow10(2) == 100) by {
            assert(pow10(1) == 10);
        }
        assert(pow10(3) == 1000);
    }
    let s1f = fixed_digits(shown_second(f), 2);
    let s1g = fixed_digits(shown_second(g), 2);
    let mif = fixed_digits(f.minute as nat, 2) + (seq![':'] + s1f);
    let mig = fixed_digits(g.minute as nat, 2) + (seq![':'] + s1g);
    let hf = fixed_digits(f.hour as nat, 2) + (seq![':'] + mif);
    let hg = fixed_digits(g.hour as nat, 2) + (seq![':'] + mig);
    let df = fixed_digits(f.day as nat, 2) + (seq![' '] + hf);
    let dg = fixed_digits(g.day as nat, 2) + (seq![' '] + hg);
    let mf = fixed_digits(f.month as nat, 2) + (seq!['-'] + df);
    let mg = fixed_digits(g.month as nat, 2) + (seq!['-'] + dg);
    lemma_fixed_order(shown_second(f), shown_second(g), 2);
    assert(s1f + Seq::<char>::empty() =~= s1f);
    assert(s1g + Seq::<char>::empty() =~= s1g);
    lemma_text_le_field(shown_second(f), shown_second(g), 2, Seq::<char>::empty(), Seq::<char>::empty());
    lemma_text_le_sep(':', s1f, s1g);
    lemma_text_le_field(f.minute as nat, g.minute as nat, 2, seq![':'] + s1f, seq![':'] + s1g);
    lemma_text_le_sep(':', mif, mig);
    lemma_text_le_field(f.hour as nat, g.hour as nat, 2, seq![':'] + mif, seq![':'] + mig);
    lemma_text_le_sep(' ', hf, hg);
    lemma_text_le_field(f.day as nat, g.day as nat, 2, seq![' '] + hf, seq![' '] + hg);
    lemma_text_le_sep('-', df, dg);
    lemma_text_le_field(f.month as nat, g.month as nat, 2, seq!['-'] + df, seq!['-'] + dg);
    lemma_text_le_sep('-', mf, mg);
    lemma_text_le_field(f.year as nat, g.year as nat, 4, seq!['-'] + mf, seq!['-'] + mg);
}

} // verus!
