//! Text formatting used by the panel and the popup.

use vstd::prelude::*;

verus! {

/// The decimal digit character for `d` (`'0'` ..= `'9'`).
pub open spec fn digit_char(d: int) -> char {
    if d == 0 {
        '0'
    } else if d == 1 {
        '1'
    } else if d == 2 {
        '2'
    } else if d == 3 {
        '3'
    } else if d == 4 {
        '4'
    } else if d == 5 {
        '5'
    } else if d == 6 {
        '6'
    } else if d == 7 {
        '7'
    } else if d == 8 {
        '8'
    } else {
        '9'
    }
}

/// The decimal representation of `n`, without leading zeros.
pub open spec fn decimal(n: nat) -> Seq<char>
    decreases n,
{
    if n < 10 {
        seq![digit_char(n as int)]
    } else {
        decimal(n / 10).push(digit_char((n % 10) as int))
    }
}

/// `n` written with exactly two digits, zero-padded (for `n < 100`).
pub open spec fn two_digits(n: nat) -> Seq<char> {
    seq![digit_char((n / 10) as int), digit_char((n % 10) as int)]
}

/// A duration in microseconds shown as whole minutes, a colon and two-digit seconds.
pub open spec fn time_text(us: nat) -> Seq<char> {
    let secs = us / 1_000_000;
    decimal(secs / 60) + seq![':'] + two_digits(secs % 60)
}

fn digit_str(d: u64) -> (s: &'static str)
    requires
        d < 10,
    ensures
        s@ == seq![digit_char(d as int)],
{
    if d == 0 {
        proof { reveal_strlit("0"); }
        "0"
    } else if d == 1 {
        proof { reveal_strlit("1"); }
        "1"
    } else if d == 2 {
        proof { reveal_strlit("2"); }
        "2"
    } else if d == 3 {
        proof { reveal_strlit("3"); }
        "3"
    } else if d == 4 {
        proof { reveal_strlit("4"); }
        "4"
    } else if d == 5 {
        proof { reveal_strlit("5"); }
        "5"
    } else if d == 6 {
        proof { reveal_strlit("6"); }
        "6"
    } else if d == 7 {
        proof { reveal_strlit("7"); }
        "7"
    } else if d == 8 {
        proof { reveal_strlit("8"); }
        "8"
    } else {
        proof { reveal_strlit("9"); }
        "9"
    }
}

/// Appends the decimal representation of `n` to `s`.
pub fn push_decimal(s: &mut String, n: u64)
    ensures
        final(s)@ == old(s)@ + decimal(n as nat),
    decreases n,
{
    if n >= 10 {
        push_decimal(s, n / 10);
        s.append(digit_str(n % 10));
        assert(s@ =~= old(s)@ + decimal(n as nat));
    } else {
        s.append(digit_str(n));
    }
}

/// Formats a duration given in microseconds as `m:ss`.
pub fn format_time(us: u64) -> (s: String)
    ensures
        s@ == time_text(us as nat),
{
    let secs = us / 1_000_000;
    let mins = secs / 60;
    let rem = secs % 60;
    let mut s = String::new();
    push_decimal(&mut s, mins);
    proof { reveal_strlit(":"); }
    s.append(":");
    s.append(digit_str(rem / 10));
    s.append(digit_str(rem % 10));
    assert(s@ =~= time_text(us as nat));
    s
}

/// `s` cut to its first `max` characters, with an ellipsis appended when
/// anything was cut off.
pub open spec fn truncated(s: Seq<char>, max: nat) -> Seq<char> {
    if s.len() > max {
        s.take(max as int).push('\u{2026}')
    } else {
        s
    }
}

/// Shortens a label to at most `max_chars` characters, marking a cut with `…`.
pub fn truncate_label(s: &str, max_chars: usize) -> (r: String)
    ensures
        r@ == truncated(s@, max_chars as nat),
{
    let n = s.unicode_len();
    if n > max_chars {
        let head = s.substring_char(0, max_chars);
        let mut r = String::from_str(head);
        proof { reveal_strlit("\u{2026}"); }
        r.append("\u{2026}");
        assert(r@ =~= truncated(s@, max_chars as nat));
        r
    } else {
        String::from_str(s)
    }
}

/// A cut label is never longer than the limit plus the ellipsis, keeps the
/// start of the text, and a text within the limit is left as it is.
pub proof fn law_truncated_label(s: Seq<char>, max: nat)
    ensures
        truncated(s, max).len() <= max + 1,
        truncated(s, max).len() <= s.len() + 1,
        s.len() <= max ==> truncated(s, max) == s,
        forall|i: int| 0 <= i < s.len() && i < max ==> #[trigger] truncated(s, max)[i] == s[i],
        s.len() > max ==> truncated(s, max).len() == max + 1 && truncated(s, max).last()
            == '\u{2026}',
{
}

/// A time reads as minutes, a colon and exactly two digits of seconds, the
/// seconds being those past the whole minutes.
pub proof fn law_time_text(us: nat)
    ensures
        ({
            let t = time_text(us);
            let secs = us / 1_000_000;
            &&& t.len() >= 4
            &&& t[t.len() - 3] == ':'
            &&& t[t.len() - 2] == digit_char(((secs % 60) / 10) as int)
            &&& t[t.len() - 1] == digit_char(((secs % 60) % 10) as int)
            &&& t.take(t.len() - 3) == decimal(secs / 60)
        }),
{
    let secs = us / 1_000_000;
    lemma_decimal_nonempty(secs / 60);
    let t = time_text(us);
    assert(t.take(t.len() - 3) =~= decimal(secs / 60));
}

proof fn lemma_decimal_nonempty(n: nat)
    ensures
        decimal(n).len() >= 1,
    decreases n,
{
    if n >= 10 {
        lemma_decimal_nonempty(n / 10);
    }
}

/// The texts of `items` joined with `sep` between each two of them.
pub open spec fn joined(items: Seq<Seq<char>>, sep: Seq<char>) -> Seq<char>
    decreases items.len(),
{
    if items.len() == 0 {
        seq![]
    } else if items.len() == 1 {
        items[0]
    } else {
        joined(items.drop_last(), sep) + sep + items.last()
    }
}

/// The character sequences of a list of strings.
pub open spec fn string_views(items: Seq<String>) -> Seq<Seq<char>> {
    items.map_values(|s: String| s@)
}

/// Joins `items` with `sep` between each two of them.
pub fn join_strings(items: &Vec<String>, sep: &str) -> (r: String)
    ensures
        r@ == joined(string_views(items@), sep@),
{
    let mut r = String::new();
    let ghost all = string_views(items@);
    let mut i: usize = 0;
    while i < items.len()
        invariant
            i <= items.len(),
            all == string_views(items@),
            r@ =~= joined(all.take(i as int), sep@),
        decreases items.len() - i,
    {
        if i != 0 {
            r.append(sep);
        }
        r.append(items[i].as_str());
        assert(all.take((i + 1) as int).drop_last() =~= all.take(i as int));
        i = i + 1;
    }
    assert(all.take(items.len() as int) =~= all);
    r
}

} // verus!
