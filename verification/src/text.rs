//! Decimal rendering and padding, the building blocks of every text the
//! scanner shows or stores.
use vstd::prelude::*;

verus! {

/// The character of a decimal digit `d` (0 to 9).
pub open spec fn digit_char(d: int) -> char
    recommends
        0 <= d < 10,
{
    (48 + d) as char
}

/// Decimal digits of a natural number, most significant first, no padding.
pub open spec fn nat_text(n: nat) -> Seq<char>
    decreases n,
{
    if n < 10 {
        seq![digit_char(n as int)]
    } else {
        nat_text(n / 10).push(digit_char((n % 10) as int))
    }
}

/// How an integer is displayed: a minus sign for negative values, then its
/// magnitude in decimal.
pub open spec fn int_text(n: int) -> Seq<char> {
    if n < 0 {
        seq!['-'] + nat_text((-n) as nat)
    } else {
        nat_text(n as nat)
    }
}

/// `k` copies of the character `c`.
pub open spec fn fill(c: char, k: nat) -> Seq<char> {
    Seq::new(k, |_i: int| c)
}

/// `t` right-aligned in a field of `width` characters, padded with `c` on the left.
pub open spec fn pad_start(t: Seq<char>, width: nat, c: char) -> Seq<char> {
    if t.len() < width {
        fill(c, (width - t.len()) as nat) + t
    } else {
        t
    }
}

/// `t` left-aligned in a field of `width` characters, padded with `c` on the right.
pub open spec fn pad_end(t: Seq<char>, width: nat, c: char) -> Seq<char> {
    if t.len() < width {
        t + fill(c, (width - t.len()) as nat)
    } else {
        t
    }
}

/// A number shown with at least two digits, zero-padded.
pub open spec fn two_digits(n: nat) -> Seq<char> {
    pad_start(nat_text(n), 2, '0')
}

/// Calls `String::push`. Claimed: the character is added at the end of the
/// string and nothing else changes.
#[verifier::external_body]
pub(crate) fn push_char(s: &mut String, c: char)
    ensures
        final(s)@ == old(s)@.push(c),
{
    s.push(c);
}

/// Appends a string slice.
pub(crate) fn push_str(s: &mut String, t: &str)
    ensures
        final(s)@ == old(s)@ + t@,
{
    s.append(t);
}

fn digit_of(d: u64) -> (c: char)
    requires
        d < 10,
    ensures
        c == digit_char(d as int),
{
    let b: u8 = 48u8 + (d as u8);
    b as char
}

/// Appends the decimal digits of `n`.
pub(crate) fn push_nat_text(s: &mut String, n: u64)
    ensures
        final(s)@ == old(s)@ + nat_text(n as nat),
    decreases n,
{
    if n >= 10 {
        push_nat_text(s, n / 10);
    }
    push_char(s, digit_of(n % 10));
    proof {
        if n < 10 {
            assert(nat_text(n as nat) == seq![digit_char(n as int)]);
        }
    }
}

/// Appends `k` copies of `c`.
pub(crate) fn push_fill(s: &mut String, c: char, k: usize)
    ensures
        final(s)@ == old(s)@ + fill(c, k as nat),
{
    let ghost start = s@;
    let mut i: usize = 0;
    while i < k
        invariant
            i <= k,
            s@ == start + fill(c, i as nat),
        decreases k - i,
    {
        push_char(s, c);
        i = i + 1;
        assert(s@ =~= start + fill(c, i as nat));
    }
}

/// The decimal text of an unsigned number.
pub fn u64_text(n: u64) -> (r: String)
    ensures
        r@ == nat_text(n as nat),
{
    let mut s = String::new();
    push_nat_text(&mut s, n);
    assert(s@ =~= nat_text(n as nat));
    s
}

/// The decimal text of a signed number, as `Display` shows it.
pub fn i64_text(n: i64) -> (r: String)
    ensures
        r@ == int_text(n as int),
{
    let mut s = String::new();
    if n < 0 {
        push_char(&mut s, '-');
        let wide: i128 = n as i128;
        let mag: u64 = (0i128 - wide) as u64;
        push_nat_text(&mut s, mag);
        assert(s@ =~= int_text(n as int));
    } else {
        push_nat_text(&mut s, n as u64);
        assert(s@ =~= int_text(n as int));
    }
    s
}

/// Appends `t` right-aligned in a field of `width` characters.
pub(crate) fn push_padded_start(s: &mut String, t: &String, width: usize, c: char)
    ensures
        final(s)@ == old(s)@ + pad_start(t@, width as nat, c),
{
    let len = t.as_str().unicode_len();
    if len < width {
        push_fill(s, c, width - len);
    }
    push_str(s, t.as_str());
    assert(final(s)@ =~= old(s)@ + pad_start(t@, width as nat, c)) by {
        if len < width {
            assert(old(s)@ + fill(c, (width - len) as nat) + t@ =~= old(s)@ + (fill(
                c,
                (width - len) as nat,
            ) + t@));
        }
    }
}

/// Appends `t` left-aligned in a field of `width` characters.
pub(crate) fn push_padded_end(s: &mut String, t: &str, width: usize, c: char)
    ensures
        final(s)@ == old(s)@ + pad_end(t@, width as nat, c),
{
    let len = t.unicode_len();
    push_str(s, t);
    if len < width {
        push_fill(s, c, width - len);
    }
    assert(final(s)@ =~= old(s)@ + pad_end(t@, width as nat, c)) by {
        if len < width {
            assert(old(s)@ + t@ + fill(c, (width - len) as nat) =~= old(s)@ + (t@ + fill(
                c,
                (width - len) as nat,
            )));
        }
    }
}

/// Appends `n` with at least two digits, zero-padded (`{:02}`).
pub(crate) fn push_two_digits(s: &mut String, n: u64)
    ensures
        final(s)@ == old(s)@ + two_digits(n as nat),
{
    let t = u64_text(n);
    push_padded_start(s, &t, 2, '0');
}

} // verus!
