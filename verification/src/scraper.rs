//! Progress parsing for the scraper's streamed output lines.

use vstd::prelude::*;
use crate::text::{all_digits, chars_of, decimal, digit_pred, digits_value, digits_value_upto, is_digit, lemma_decimal_digits, lemma_run_end, run_end, skip_digits};

verus! {

/// The first `N/M` progress pair found scanning `s` from index `i`: a digit
/// run, a `/`, a digit run, with both values fitting a `usize`, `M > 0` and
/// `N <= M`. When a pair fails these checks the scan resumes at its
/// denominator, which may itself start the next pair (as in `"5/3/4"`).
pub open spec fn progress_from(s: Seq<char>, i: int) -> Option<(usize, usize)>
    decreases s.len() - i,
{
    if i < 0 || i >= s.len() {
        None
    } else if !is_digit(s[i]) {
        progress_from(s, i + 1)
    } else {
        let j = run_end(s, i, digit_pred());
        proof {
            lemma_run_end(s, i, digit_pred());
        }
        if j < s.len() && s[j] == '/' {
            let k = run_end(s, j + 1, digit_pred());
            proof {
                lemma_run_end(s, j + 1, digit_pred());
            }
            if k > j + 1 {
                let n = digits_value(s.subrange(i, j));
                let m = digits_value(s.subrange(j + 1, k));
                if n <= usize::MAX && m <= usize::MAX && m > 0 && n <= m {
                    Some((n as usize, m as usize))
                } else {
                    progress_from(s, j + 1)
                }
            } else {
                progress_from(s, j + 1)
            }
        } else {
            progress_from(s, j)
        }
    }
}

/// Parses a `"saved event N/M"`-style progress fragment out of a streamed
/// line: the first `N/M` pair with `N <= M` and `M > 0`.
pub fn parse_progress(line: &str) -> (r: Option<(usize, usize)>)
    ensures
        r == progress_from(line@, 0),
{
    let v = chars_of(line);
    let mut i: usize = 0;
    while i < v.len()
        invariant
            v@ == line@,
            i <= v.len(),
            progress_from(line@, i as int) == progress_from(line@, 0),
        decreases v.len() - i,
    {
        if '0' <= v[i] && v[i] <= '9' {
            let start = i;
            let j = skip_digits(&v, i);
            proof {
                lemma_run_end(v@, start as int, digit_pred());
            }
            if j < v.len() && v[j] == '/' {
                let den_start = j + 1;
                let k = skip_digits(&v, den_start);
                proof {
                    lemma_run_end(v@, den_start as int, digit_pred());
                }
                if k > den_start {
                    proof {
                        assert forall|x: int| 0 <= x < j - start implies is_digit(#[trigger] v@.subrange(start as int, j as int)[x]) by {
                            assert(v@.subrange(start as int, j as int)[x] == v@[start + x]);
                        }
                        assert forall|x: int| 0 <= x < k - den_start implies is_digit(#[trigger] v@.subrange(den_start as int, k as int)[x]) by {
                            assert(v@.subrange(den_start as int, k as int)[x] == v@[den_start + x]);
                        }
                    }
                    let n = digits_value_upto(&v, start, j, usize::MAX as u64);
                    let m = digits_value_upto(&v, den_start, k, usize::MAX as u64);
                    match (n, m) {
                        (Some(n), Some(m)) => {
                            if m > 0 && n <= m {
                                return Some((n as usize, m as usize));
                            }
                        },
                        _ => {},
                    }
                    i = den_start;
                } else {
                    i = k;
                }
            } else {
                i = j;
            }
        } else {
            i += 1;
        }
    }
    None
}

/// Reading `"N/M"` for `0 < M`, `N <= M` yields the pair `(N, M)`.
pub proof fn progress_round_trip(n: usize, m: usize)
    requires
        0 < m,
        n <= m,
    ensures
        progress_from(decimal(n as nat) + seq!['/'] + decimal(m as nat), 0) == Some((n, m)),
{
    let dn = decimal(n as nat);
    let dm = decimal(m as nat);
    let s = dn + seq!['/'] + dm;
    lemma_decimal_digits(n as nat);
    lemma_decimal_digits(m as nat);
    assert(is_digit(s[0])) by {
        assert(s[0] == dn[0]);
    }
    lemma_digit_run(s, 0, dn.len() as int);
    lemma_digit_run(s, dn.len() as int + 1, s.len() as int);
    assert(s.subrange(0, dn.len() as int) =~= dn);
    assert(s.subrange(dn.len() as int + 1, s.len() as int) =~= dm);
    assert(s[dn.len() as int] == '/');
}

/// A valid pair is found where it stands: with no digit before it, a pair
/// `"N/M"` (`0 < M`, `N <= M`) is the pair read from the line, whatever text
/// follows it (as long as that text does not extend the total's digits).
pub proof fn progress_reads_the_first_pair(pre: Seq<char>, n: usize, m: usize, rest: Seq<char>)
    requires
        0 < m,
        n <= m,
        forall|i: int| 0 <= i < pre.len() ==> !is_digit(#[trigger] pre[i]),
        rest.len() == 0 || !is_digit(rest[0]),
    ensures
        progress_from(pre + decimal(n as nat) + seq!['/'] + decimal(m as nat) + rest, 0) == Some((n, m)),
{
    let dn = decimal(n as nat);
    let dm = decimal(m as nat);
    let s = pre + dn + seq!['/'] + dm + rest;
    let a = pre.len() as int;
    let b = a + dn.len();
    let e = b + 1 + dm.len();
    lemma_decimal_digits(n as nat);
    lemma_decimal_digits(m as nat);
    assert forall|k: int| a <= k < b implies is_digit(#[trigger] s[k]) by {
        assert(s[k] == dn[k - a]);
        assert(all_digits(dn));
    }
    assert forall|k: int| b + 1 <= k < e implies is_digit(#[trigger] s[k]) by {
        assert(s[k] == dm[k - b - 1]);
        assert(all_digits(dm));
    }
    assert(s[b] == '/');
    assert(e == s.len() || !is_digit(s[e])) by {
        if e < s.len() {
            assert(s[e] == rest[0]);
        }
    }
    assert(!is_digit(s[b]));
    lemma_digit_run(s, a, b);
    lemma_digit_run(s, b + 1, e);
    assert(s.subrange(a, b) =~= dn);
    assert(s.subrange(b + 1, e) =~= dm);
    assert forall|i: int| 0 <= i <= a implies progress_from(s, i) == Some((n, m)) by {
        lemma_skip_non_digits(s, i, a);
    }
    assert(progress_from(s, a) == Some((n, m)));
}

proof fn lemma_skip_non_digits(s: Seq<char>, i: int, a: int)
    requires
        0 <= i <= a < s.len(),
        forall|k: int| i <= k < a ==> !is_digit(#[trigger] s[k]),
    ensures
        progress_from(s, i) == progress_from(s, a),
    decreases a - i,
{
    if i < a {
        lemma_skip_non_digits(s, i + 1, a);
    }
}

/// Any pair read from a line is a real fraction: a positive total and a done
/// count that does not exceed it.
pub proof fn progress_is_a_fraction(s: Seq<char>, i: int)
    ensures
        progress_from(s, i) matches Some((n, m)) ==> 0 < m && n <= m,
    decreases s.len() - i,
{
    if 0 <= i < s.len() {
        if !is_digit(s[i]) {
            progress_is_a_fraction(s, i + 1);
        } else {
            let j = run_end(s, i, digit_pred());
            lemma_run_end(s, i, digit_pred());
            if j < s.len() && s[j] == '/' {
                let k = run_end(s, j + 1, digit_pred());
                lemma_run_end(s, j + 1, digit_pred());
                progress_is_a_fraction(s, j + 1);
            } else {
                progress_is_a_fraction(s, j);
            }
        }
    }
}

proof fn lemma_digit_run(s: Seq<char>, i: int, e: int)
    requires
        0 <= i <= e <= s.len(),
        forall|k: int| i <= k < e ==> is_digit(#[trigger] s[k]),
        e == s.len() || !is_digit(s[e]),
    ensures
        run_end(s, i, digit_pred()) == e,
    decreases e - i,
{
    if i < e {
        lemma_digit_run(s, i + 1, e);
    }
}

/// The scraper flags for the database override, the full option and the
/// limit, in this order: `--db <path>`, `--full`, `--limit <n>`. (The rate
/// flag, when set, follows them.)
pub open spec fn scrape_flags_of(db: Option<Seq<char>>, full: bool, limit: Option<u32>) -> Seq<Seq<char>> {
    (match db { Some(p) => seq!["--db"@, p], None => Seq::empty() })
    + (if full { seq!["--full"@] } else { Seq::empty() })
    + (match limit { Some(n) => seq!["--limit"@, decimal(n as nat)], None => Seq::empty() })
}

/// Builds the scraper flags described by [`scrape_flags_of`].
pub fn scrape_flags(db: Option<&str>, full: bool, limit: Option<u32>) -> (args: Vec<String>)
    ensures
        crate::text::views(args@) == scrape_flags_of(
            match db { Some(p) => Some(p@), None => None },
            full,
            limit,
        ),
{
    proof {
        reveal_strlit("--db");
        reveal_strlit("--full");
        reveal_strlit("--limit");
    }
    let mut args: Vec<String> = Vec::new();
    let ghost dbv: Option<Seq<char>> = match db { Some(p) => Some(p@), None => None };
    match db {
        Some(p) => {
            args.push("--db".to_owned());
            args.push(p.to_owned());
        },
        None => {},
    }
    let ghost a1 = crate::text::views(args@);
    assert(a1 =~= (match dbv { Some(p) => seq!["--db"@, p], None => Seq::<Seq<char>>::empty() }));
    if full {
        args.push("--full".to_owned());
    }
    let ghost a2 = crate::text::views(args@);
    assert(a2 =~= a1 + (if full { seq!["--full"@] } else { Seq::<Seq<char>>::empty() }));
    match limit {
        Some(n) => {
            args.push("--limit".to_owned());
            let mut v = String::new();
            crate::text::push_decimal(&mut v, n as u64);
            args.push(v);
        },
        None => {},
    }
    assert(crate::text::views(args@) =~= a2 + (match limit { Some(n) => seq!["--limit"@, decimal(n as nat)], None => Seq::<Seq<char>>::empty() }));
    args
}

} // verus!
