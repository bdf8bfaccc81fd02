//! Card-number parsing for event titles such as `"UFC 311"`.

use vstd::prelude::*;
use crate::models::{EventRow, LatestCard};
use crate::text::{all_digits, chars_of, decimal, digit_pred, digits_value_upto, is_digit, is_ws, lemma_decimal_digits, lemma_run_end, digits_u32, run_end, skip_digits, skip_ws_run};

verus! {

/// The first whitespace-separated token of `s`, if any.
pub open spec fn first_token(s: Seq<char>) -> Option<Seq<char>> {
    let a = run_end(s, 0, |c: char| is_ws(c) == true);
    if a >= s.len() {
        None
    } else {
        Some(s.subrange(a, run_end(s, a, |c: char| is_ws(c) == false)))
    }
}

/// `s` begins with `"UFC "`.
pub open spec fn has_ufc_prefix(s: Seq<char>) -> bool {
    s.len() >= 4 && s[0] == 'U' && s[1] == 'F' && s[2] == 'C' && s[3] == ' '
}

/// The card number of a numbered title: the title starts with `"UFC "` and
/// the first whitespace-separated token after it is made purely of ASCII
/// digits (no sign) whose value fits in a `u32`.
pub open spec fn card_number(title: Seq<char>) -> Option<u32> {
    if has_ufc_prefix(title) {
        match first_token(title.skip(4)) {
            Some(t) => digits_u32(t),
            None => None,
        }
    } else {
        None
    }
}

/// Reads the characters `v[start..end]` as a `u32`: they must all be ASCII
/// digits (at least one, no sign) and their value must fit.
fn parse_u32_range(v: &Vec<char>, start: usize, end: usize) -> (r: Option<u32>)
    requires
        start <= end <= v.len(),
    ensures
        r == digits_u32(v@.subrange(start as int, end as int)),
{
    let ds = start;
    if ds == end {
        return None;
    }
    let stop = skip_digits(v, ds);
    proof {
        lemma_run_end(v@, ds as int, digit_pred());
    }
    if stop < end {
        proof {
            let d = v@.subrange(ds as int, end as int);
            assert(!is_digit(d[stop - ds]));
        }
        return None;
    }
    assert forall|k: int| 0 <= k < end - ds implies is_digit(#[trigger] v@.subrange(ds as int, end as int)[k]) by {
        assert(v@.subrange(ds as int, end as int)[k] == v@[ds + k]);
    }
    match digits_value_upto(v, ds, end, 4294967295u64) {
        Some(n) => Some(n as u32),
        None => None,
    }
}

/// The card number of a numbered title such as `"UFC 311"`; `None` for
/// titles like `"UFC Fight Night"` or `"UFC on ESPN 42"`.
pub fn parse_card_number(title: &str) -> (r: Option<u32>)
    ensures
        r == card_number(title@),
{
    let v = chars_of(title);
    if !(v.len() >= 4 && v[0] == 'U' && v[1] == 'F' && v[2] == 'C' && v[3] == ' ') {
        return None;
    }
    let ghost rest = v@.skip(4);
    let a = skip_ws_run(&v, 4, true);
    proof {
        lemma_run_end(v@, 4, |c: char| is_ws(c) == true);
        lemma_run_end_shift(v@, 4, 4, |c: char| is_ws(c) == true);
    }
    if a >= v.len() {
        return None;
    }
    let b = skip_ws_run(&v, a, false);
    proof {
        lemma_run_end(v@, a as int, |c: char| is_ws(c) == false);
        lemma_run_end_shift(v@, 4, a as int, |c: char| is_ws(c) == false);
        assert(rest.subrange(a - 4, b - 4) =~= v@.subrange(a as int, b as int));
    }
    parse_u32_range(&v, a, b)
}

/// `run_end` over a suffix `s.skip(off)` is `run_end` over `s`, shifted.
proof fn lemma_run_end_shift(s: Seq<char>, off: int, i: int, p: spec_fn(char) -> bool)
    requires
        0 <= off <= i <= s.len(),
    ensures
        run_end(s.skip(off), i - off, p) == run_end(s, i, p) - off,
    decreases s.len() - i,
{
    if i < s.len() && p(s[i]) {
        lemma_run_end_shift(s, off, i + 1, p);
    }
}

/// Reading the title `"UFC n"` gives back the card number `n`.
pub proof fn card_number_round_trip(n: u32)
    ensures
        card_number(seq!['U', 'F', 'C', ' '] + decimal(n as nat)) == Some(n),
{
    let d = decimal(n as nat);
    let title = seq!['U', 'F', 'C', ' '] + d;
    lemma_decimal_digits(n as nat);
    assert(title.skip(4) =~= d);
    assert(!is_ws(d[0])) by {
        assert(is_digit(d[0]));
    }
    lemma_run_end(d, 0, |c: char| is_ws(c) == false);
    assert forall|k: int| 0 <= k < d.len() implies !is_ws(#[trigger] d[k]) by {
        assert(is_digit(d[k]));
    }
    lemma_all_run(d, 0, |c: char| is_ws(c) == false);
    assert(d.subrange(0, d.len() as int) =~= d);
}

proof fn lemma_all_run(s: Seq<char>, i: int, p: spec_fn(char) -> bool)
    requires
        0 <= i <= s.len(),
        forall|k: int| i <= k < s.len() ==> p(#[trigger] s[k]),
    ensures
        run_end(s, i, p) == s.len(),
    decreases s.len() - i,
{
    if i < s.len() {
        lemma_all_run(s, i + 1, p);
    }
}

/// A query character escaped for a `LIKE ... ESCAPE '\\'` pattern: the escape
/// character itself and the wildcards `%` and `_` get a backslash.
pub open spec fn like_escaped(c: char) -> Seq<char> {
    if c == '\\' || c == '%' || c == '_' { seq!['\\', c] } else { seq![c] }
}

/// The escaped characters of `q`, in order.
pub open spec fn like_escape_all(q: Seq<char>) -> Seq<char>
    decreases q.len(),
{
    if q.len() == 0 {
        Seq::empty()
    } else {
        like_escape_all(q.drop_last()) + like_escaped(q.last())
    }
}

/// The substring pattern for a name search: the escaped query between two `%`
/// wildcards, so the query's own wildcards match literally.
pub open spec fn like_pattern_of(q: Seq<char>) -> Seq<char> {
    seq!['%'] + like_escape_all(q) + seq!['%']
}

/// Builds the `LIKE` pattern for a case-insensitive substring search.
pub fn like_pattern(query: &str) -> (p: String)
    ensures
        p@ == like_pattern_of(query@),
{
    let v = chars_of(query);
    let mut out = String::new();
    out.push('%');
    let mut i: usize = 0;
    while i < v.len()
        invariant
            i <= v.len(),
            v@ == query@,
            out@ == seq!['%'] + like_escape_all(v@.take(i as int)),
        decreases v.len() - i,
    {
        let c = v[i];
        if c == '\\' || c == '%' || c == '_' {
            out.push('\\');
        }
        out.push(c);
        proof {
            let t = v@.take(i + 1);
            assert(t.drop_last() =~= v@.take(i as int));
            assert(t.last() == c);
        }
        i += 1;
        assert(out@ =~= seq!['%'] + like_escape_all(v@.take(i as int)));
    }
    out.push('%');
    assert(v@.take(v.len() as int) =~= v@);
    out
}

/// The headline number of a card title: after the `"UFC "` prefix, the run of
/// ASCII digits that starts right there (so `"UFC 311: A vs B"` is card 311),
/// when the run is not empty and its value fits in a `u32`.
pub open spec fn headline_number(title: Seq<char>) -> Option<u32> {
    if has_ufc_prefix(title) {
        digits_u32(title.subrange(4, run_end(title, 4, digit_pred())))
    } else {
        None
    }
}

/// A headline number is only read from digits right after `"UFC "`: a title
/// whose fifth character is not a digit (as in `"UFC on ESPN 42"`) has none,
/// and `"UFC "` followed by a number reads back that number whatever text
/// follows it (as long as that text does not continue the digits).
pub proof fn headline_number_reads_the_leading_digits(t: Seq<char>, n: u32, rest: Seq<char>)
    ensures
        headline_number(t) is Some ==> has_ufc_prefix(t) && t.len() > 4 && is_digit(t[4]),
        rest.len() == 0 || !is_digit(rest[0]) ==>
            headline_number(seq!['U', 'F', 'C', ' '] + decimal(n as nat) + rest) == Some(n),
{
    if has_ufc_prefix(t) {
        lemma_run_end(t, 4, digit_pred());
        if t.len() == 4 || !is_digit(t[4]) {
            assert(run_end(t, 4, digit_pred()) == 4);
            assert(t.subrange(4, 4).len() == 0);
        }
    }
    if rest.len() == 0 || !is_digit(rest[0]) {
        let d = decimal(n as nat);
        let s = seq!['U', 'F', 'C', ' '] + d + rest;
        let e: int = 4 + d.len() as int;
        lemma_decimal_digits(n as nat);
        assert forall|k: int| 4 <= k < e implies is_digit(#[trigger] s[k]) by {
            assert(s[k] == d[k - 4]);
            assert(all_digits(d));
        }
        assert(e == s.len() || !is_digit(s[e])) by {
            if e < s.len() {
                assert(s[e] == rest[0]);
            }
        }
        lemma_digits_end(s, 4, e);
        assert(s.subrange(4, e) =~= d);
    }
}

proof fn lemma_digits_end(s: Seq<char>, i: int, e: int)
    requires
        0 <= i <= e <= s.len(),
        forall|k: int| i <= k < e ==> is_digit(#[trigger] s[k]),
        e == s.len() || !is_digit(s[e]),
    ensures
        run_end(s, i, digit_pred()) == e,
    decreases e - i,
{
    if i < e {
        lemma_digits_end(s, i + 1, e);
    }
}

/// Reads [`headline_number`] from a title.
pub fn leading_card_number(title: &str) -> (r: Option<u32>)
    ensures
        r == headline_number(title@),
{
    let v = chars_of(title);
    if !(v.len() >= 4 && v[0] == 'U' && v[1] == 'F' && v[2] == 'C' && v[3] == ' ') {
        return None;
    }
    let e = skip_digits(&v, 4);
    proof {
        lemma_run_end(v@, 4, digit_pred());
    }
    parse_u32_range(&v, 4, e)
}

/// The poster headline card for an event row: its fields, with the card
/// number read from the digits that follow `"UFC "` in the title.
pub fn latest_card_from(row: EventRow) -> (c: LatestCard)
    ensures
        c.event_id == row.event_id,
        c.title == row.title,
        c.date == row.date,
        c.location == row.location,
        c.number == headline_number(row.title@),
{
    let number = leading_card_number(row.title.as_str());
    LatestCard { event_id: row.event_id, title: row.title, date: row.date, location: row.location, number }
}

} // verus!
