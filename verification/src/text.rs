//! Character-level string helpers shared by the parsers and formatters.

use vstd::prelude::*;
use vstd::string::*;
use vstd::relations::*;
use vstd::multiset::Multiset;

verus! {

/// Appending one character to a `String` extends its character sequence by
/// exactly that character.
pub assume_specification[ String::push ](string: &mut String, ch: char)
    ensures
        final(string)@ == old(string)@.push(ch),
;

/// The characters of `s`, in order.
pub fn chars_of(s: &str) -> (v: Vec<char>)
    ensures
        v@ == s@,
{
    let mut v: Vec<char> = Vec::new();
    for c in it: s.chars()
        invariant
            v@ == it.seq().take(it.index() as int),
    {
        v.push(c);
    }
    v
}


/// Two strings are equal exactly when their character sequences are.
pub fn str_eq(a: &str, b: &str) -> (r: bool)
    ensures
        r == (a@ == b@),
{
    let va = chars_of(a);
    let vb = chars_of(b);
    seq_eq(&va, &vb)
}

/// Element-wise equality of two character vectors.
pub fn seq_eq(a: &Vec<char>, b: &Vec<char>) -> (r: bool)
    ensures
        r == (a@ == b@),
{
    if a.len() != b.len() {
        return false;
    }
    let mut i: usize = 0;
    while i < a.len()
        invariant
            a.len() == b.len(),
            i <= a.len(),
            forall|k: int| 0 <= k < i ==> a@[k] == b@[k],
        decreases a.len() - i,
    {
        if a[i] != b[i] {
            return false;
        }
        i += 1;
    }
    assert(a@ =~= b@);
    true
}

/// The decimal digit character for `d` (`0..=9`).
pub open spec fn digit_char(d: nat) -> char {
    if d == 0 { '0' }
    else if d == 1 { '1' }
    else if d == 2 { '2' }
    else if d == 3 { '3' }
    else if d == 4 { '4' }
    else if d == 5 { '5' }
    else if d == 6 { '6' }
    else if d == 7 { '7' }
    else if d == 8 { '8' }
    else { '9' }
}

/// The numeric value of an ASCII digit character.
pub open spec fn digit_value(c: char) -> nat {
    (c as nat - '0' as nat) as nat
}

/// Whether `c` is one of the ASCII digits `0..=9`.
pub open spec fn is_digit(c: char) -> bool {
    '0' <= c && c <= '9'
}

/// The shortest decimal spelling of `n` (no sign, no leading zeros).
pub open spec fn decimal(n: nat) -> Seq<char>
    decreases n,
{
    if n < 10 {
        seq![digit_char(n)]
    } else {
        decimal(n / 10).push(digit_char(n % 10))
    }
}

/// The decimal spelling of a signed integer: a `-` before negative values.
pub open spec fn signed_decimal(n: int) -> Seq<char> {
    if n < 0 {
        seq!['-'] + decimal((-n) as nat)
    } else {
        decimal(n as nat)
    }
}

fn digit_to_char(d: u64) -> (c: char)
    requires
        d < 10,
    ensures
        c == digit_char(d as nat),
{
    if d == 0 { '0' }
    else if d == 1 { '1' }
    else if d == 2 { '2' }
    else if d == 3 { '3' }
    else if d == 4 { '4' }
    else if d == 5 { '5' }
    else if d == 6 { '6' }
    else if d == 7 { '7' }
    else if d == 8 { '8' }
    else { '9' }
}

/// Appends the decimal spelling of `n` to `out`.
pub fn push_decimal(out: &mut String, n: u64)
    ensures
        final(out)@ == old(out)@ + decimal(n as nat),
    decreases n,
{
    if n >= 10 {
        push_decimal(out, n / 10);
    }
    out.push(digit_to_char(n % 10));
    assert(decimal(n as nat) == if n < 10 {
        seq![digit_char(n as nat)]
    } else {
        decimal((n / 10) as nat).push(digit_char((n % 10) as nat))
    });
}

/// Appends the decimal spelling of a signed integer to `out`.
pub fn push_signed_decimal(out: &mut String, n: i64)
    ensures
        final(out)@ == old(out)@ + signed_decimal(n as int),
{
    if n < 0 {
        out.push('-');
        let mag: u64 = if n == i64::MIN {
            9223372036854775808u64
        } else {
            (-n) as u64
        };
        push_decimal(out, mag);
        assert(old(out)@.push('-') + decimal(mag as nat) =~= old(out)@ + (seq!['-'] + decimal(mag as nat)));
    } else {
        push_decimal(out, n as u64);
    }
}

/// Appends a string slice to `out`.
pub fn push_str(out: &mut String, s: &str)
    ensures
        final(out)@ == old(out)@ + s@,
{
    out.append(s);
}


// ------------------------------------------------------------------------- //
// Lexicographic order on character sequences (the order of `String`'s `Ord`,
// since UTF-8 byte order agrees with code-point order).
// ------------------------------------------------------------------------- //

/// `a` sorts no later than `b`, comparing code points left to right, a proper
/// prefix sorting first.
pub open spec fn lex_le(a: Seq<char>, b: Seq<char>) -> bool
    decreases a.len(),
{
    if a.len() == 0 {
        true
    } else if b.len() == 0 {
        false
    } else if a[0] == b[0] {
        lex_le(a.drop_first(), b.drop_first())
    } else {
        (a[0] as int) < (b[0] as int)
    }
}

/// The character views of a sequence of strings.
pub open spec fn views(v: Seq<String>) -> Seq<Seq<char>> {
    v.map_values(|s: String| s@)
}

/// `lex_le` as a relation value, for the `sorted_by` vocabulary.
pub open spec fn lex_order() -> spec_fn(Seq<char>, Seq<char>) -> bool {
    |a: Seq<char>, b: Seq<char>| lex_le(a, b)
}

pub proof fn lemma_lex_le_refl(a: Seq<char>)
    ensures
        lex_le(a, a),
    decreases a.len(),
{
    if a.len() > 0 {
        lemma_lex_le_refl(a.drop_first());
    }
}

pub proof fn lemma_lex_le_trans(a: Seq<char>, b: Seq<char>, c: Seq<char>)
    requires
        lex_le(a, b),
        lex_le(b, c),
    ensures
        lex_le(a, c),
    decreases a.len(),
{
    if a.len() > 0 && b.len() > 0 && c.len() > 0 {
        if a[0] == b[0] && b[0] == c[0] {
            lemma_lex_le_trans(a.drop_first(), b.drop_first(), c.drop_first());
        }
    }
}

pub proof fn lemma_lex_le_total(a: Seq<char>, b: Seq<char>)
    ensures
        lex_le(a, b) || lex_le(b, a),
    decreases a.len(),
{
    if a.len() > 0 && b.len() > 0 && a[0] == b[0] {
        lemma_lex_le_total(a.drop_first(), b.drop_first());
    }
}

pub proof fn lemma_lex_le_antisym(a: Seq<char>, b: Seq<char>)
    requires
        lex_le(a, b),
        lex_le(b, a),
    ensures
        a == b,
    decreases a.len(),
{
    if a.len() > 0 && b.len() > 0 {
        lemma_lex_le_antisym(a.drop_first(), b.drop_first());
        assert(a =~= seq![a[0]] + a.drop_first());
        assert(b =~= seq![b[0]] + b.drop_first());
    }
}

/// `lex_le` is a total order.
pub proof fn lemma_lex_order_total()
    ensures
        total_ordering(lex_order()),
{
    assert forall|x: Seq<char>| #[trigger] lex_order()(x, x) by {
        lemma_lex_le_refl(x);
    }
    assert forall|x: Seq<char>, y: Seq<char>|
        #[trigger] lex_order()(x, y) && #[trigger] lex_order()(y, x) implies x == y by {
        lemma_lex_le_antisym(x, y);
    }
    assert forall|x: Seq<char>, y: Seq<char>, z: Seq<char>|
        #[trigger] lex_order()(x, y) && #[trigger] lex_order()(y, z) implies lex_order()(x, z) by {
        lemma_lex_le_trans(x, y, z);
    }
    assert forall|x: Seq<char>, y: Seq<char>|
        #[trigger] lex_order()(x, y) || #[trigger] lex_order()(y, x) by {
        lemma_lex_le_total(x, y);
    }
}

/// Executable lexicographic comparison of two character vectors.
pub fn chars_le(a: &Vec<char>, b: &Vec<char>) -> (r: bool)
    ensures
        r == lex_le(a@, b@),
{
    let mut i: usize = 0;
    assert(a@.skip(0) =~= a@);
    assert(b@.skip(0) =~= b@);
    while i < a.len() && i < b.len()
        invariant
            i <= a.len(),
            i <= b.len(),
            lex_le(a@, b@) == lex_le(a@.skip(i as int), b@.skip(i as int)),
        decreases a.len() - i,
    {
        assert(a@.skip(i as int).drop_first() =~= a@.skip(i + 1));
        assert(b@.skip(i as int).drop_first() =~= b@.skip(i + 1));
        if a[i] != b[i] {
            return a[i] < b[i];
        }
        i += 1;
    }
    i == a.len()
}

proof fn lemma_insert_to_multiset<A>(s: Seq<A>, i: int, x: A)
    requires
        0 <= i <= s.len(),
    ensures
        s.insert(i, x).to_multiset() =~= s.to_multiset().insert(x),
{
    broadcast use vstd::seq_lib::group_to_multiset_ensures;
    let t = s.insert(i, x);
    assert(t.remove(i) =~= s);
    assert(t[i] == x);
    assert(t.remove(i).to_multiset() == t.to_multiset().remove(x));
    assert(t.to_multiset().count(x) > 0) by {
        assert(t.contains(x));
    }
}

/// Sorts strings into lexicographic order.
pub fn sort_strings(v: Vec<String>) -> (r: Vec<String>)
    ensures
        sorted_by(views(r@), lex_order()),
        views(r@).to_multiset() == views(v@).to_multiset(),
{
    broadcast use vstd::seq_lib::group_to_multiset_ensures;
    proof {
        lemma_lex_order_total();
    }
    let mut src = v;
    let mut out: Vec<String> = Vec::new();
    let mut keys: Vec<Vec<char>> = Vec::new();
    let ghost orig = views(v@);
    while src.len() > 0
        invariant
            total_ordering(lex_order()),
            keys.len() == out.len(),
            forall|k: int| 0 <= k < keys.len() ==> (#[trigger] keys@[k])@ == out@[k]@,
            sorted_by(views(out@), lex_order()),
            views(out@).to_multiset().add(views(src@).to_multiset()) == orig.to_multiset(),
        decreases src.len(),
    {
        let ghost before_src = src@;
        let s = src.pop().unwrap();
        proof {
            assert(before_src =~= src@.push(s));
            assert(views(before_src) =~= views(src@).push(s@));
        }
        let key = chars_of(s.as_str());
        // Binary search for the first key strictly greater than `key`.
        let mut lo: usize = 0;
        let mut hi: usize = keys.len();
        while lo < hi
            invariant
                total_ordering(lex_order()),
                keys.len() == out.len(),
                forall|k: int| 0 <= k < keys.len() ==> (#[trigger] keys@[k])@ == out@[k]@,
                sorted_by(views(out@), lex_order()),
                lo <= hi <= keys.len(),
                key@ == s@,
                forall|k: int| 0 <= k < lo ==> lex_le(#[trigger] out@[k]@, s@),
                forall|k: int| hi <= k < out.len() ==> !lex_le(#[trigger] out@[k]@, s@),
            decreases hi - lo,
        {
            let mid = lo + (hi - lo) / 2;
            assert(views(out@)[mid as int] == out@[mid as int]@);
            if chars_le(&keys[mid], &key) {
                assert forall|k: int| 0 <= k <= mid implies lex_le(#[trigger] out@[k]@, s@) by {
                    if k < mid {
                        assert(views(out@)[k] == out@[k]@);
                        assert(lex_order()(views(out@)[k], views(out@)[mid as int]));
                        lemma_lex_le_trans(out@[k]@, out@[mid as int]@, s@);
                    }
                }
                lo = mid + 1;
            } else {
                assert forall|k: int| mid <= k < out.len() implies !lex_le(#[trigger] out@[k]@, s@) by {
                    if k > mid {
                        assert(views(out@)[k] == out@[k]@);
                        assert(lex_order()(views(out@)[mid as int], views(out@)[k]));
                        if lex_le(out@[k]@, s@) {
                            lemma_lex_le_trans(out@[mid as int]@, out@[k]@, s@);
                        }
                    }
                }
                hi = mid;
            }
        }
        let ghost old_out = out@;
        let ghost sv = s@;
        let ghost mid_src = src@;
        out.insert(lo, s);
        keys.insert(lo, key);
        proof {
            assert(views(out@) =~= views(old_out).insert(lo as int, sv));
            lemma_insert_to_multiset(views(old_out), lo as int, sv);
            assert(views(before_src) =~= views(mid_src).push(sv));
            vstd::seq_lib::to_multiset_build(views(mid_src), sv);
            assert(views(before_src).to_multiset() =~= views(mid_src).to_multiset().insert(sv));
            assert(views(out@).to_multiset().add(views(src@).to_multiset()) =~= views(old_out).to_multiset().add(views(before_src).to_multiset()));
            assert forall|i: int, j: int| 0 <= i < j < views(out@).len() implies
                #[trigger] lex_order()(views(out@)[i], views(out@)[j]) by {
                let vo = views(old_out);
                if j < lo {
                    assert(lex_order()(vo[i], vo[j]));
                } else if j == lo {
                    assert(lex_le(old_out[i]@, sv));
                } else if i < lo {
                    assert(lex_order()(vo[i], vo[j - 1]));
                } else if i == lo {
                    assert(!lex_le(old_out[j - 1]@, sv));
                    lemma_lex_le_total(sv, old_out[j - 1]@);
                } else {
                    assert(lex_order()(vo[i - 1], vo[j - 1]));
                }
            }
            assert forall|k: int| 0 <= k < keys.len() implies (#[trigger] keys@[k])@ == out@[k]@ by {
                if k < lo {
                } else if k == lo {
                } else {
                }
            }
        }
    }
    proof {
        assert(views(src@) =~= Seq::<Seq<char>>::empty());
        assert(views(src@).to_multiset() =~= Multiset::<Seq<char>>::empty());
    }
    out
}


// ------------------------------------------------------------------------- //
// Whitespace and numbers
// ------------------------------------------------------------------------- //

/// The Unicode `White_Space` property (what `char::is_whitespace` tests).
pub open spec fn is_ws(c: char) -> bool {
    let u = c as int;
    (0x9 <= u <= 0xD) || u == 0x20 || u == 0x85 || u == 0xA0 || u == 0x1680
        || (0x2000 <= u <= 0x200A) || u == 0x2028 || u == 0x2029 || u == 0x202F
        || u == 0x205F || u == 0x3000
}

/// Whether `c` has the Unicode `White_Space` property.
pub fn is_whitespace(c: char) -> (r: bool)
    ensures
        r == is_ws(c),
{
    let u = c as u32;
    (0x9 <= u && u <= 0xD) || u == 0x20 || u == 0x85 || u == 0xA0 || u == 0x1680
        || (0x2000 <= u && u <= 0x200A) || u == 0x2028 || u == 0x2029 || u == 0x202F
        || u == 0x205F || u == 0x3000
}

/// Every character of `s` is whitespace (so `s.trim()` is empty).
pub open spec fn all_ws(s: Seq<char>) -> bool {
    forall|i: int| 0 <= i < s.len() ==> is_ws(#[trigger] s[i])
}

/// Whether `s` is empty once surrounding whitespace is trimmed.
pub fn is_blank(s: &str) -> (r: bool)
    ensures
        r == all_ws(s@),
{
    let v = chars_of(s);
    let mut i: usize = 0;
    while i < v.len()
        invariant
            v@ == s@,
            i <= v.len(),
            forall|k: int| 0 <= k < i ==> is_ws(#[trigger] v@[k]),
        decreases v.len() - i,
    {
        if !is_whitespace(v[i]) {
            return false;
        }
        i += 1;
    }
    true
}

/// Every character of `d` is an ASCII digit.
pub open spec fn all_digits(d: Seq<char>) -> bool {
    forall|i: int| 0 <= i < d.len() ==> is_digit(#[trigger] d[i])
}

/// The value of a run of decimal digits, read left to right.
pub open spec fn digits_value(d: Seq<char>) -> nat
    decreases d.len(),
{
    if d.len() == 0 {
        0
    } else {
        digits_value(d.drop_last()) * 10 + digit_value(d.last())
    }
}

/// The value of a token made purely of ASCII digits (at least one, no sign)
/// when it fits in a `u32`.
pub open spec fn digits_u32(t: Seq<char>) -> Option<u32> {
    if t.len() == 0 || !all_digits(t) || digits_value(t) > u32::MAX {
        None
    } else {
        Some(digits_value(t) as u32)
    }
}

proof fn lemma_digit_char(k: nat)
    requires
        k < 10,
    ensures
        is_digit(digit_char(k)),
        digit_value(digit_char(k)) == k,
        digit_char(k) != '+',
{
}

/// The decimal spelling of a number reads back as that number.
pub proof fn lemma_decimal_digits(n: nat)
    ensures
        all_digits(decimal(n)),
        digits_value(decimal(n)) == n,
        decimal(n).len() > 0,
        decimal(n)[0] != '+',
    decreases n,
{
    lemma_digit_char(n % 10);
    if n < 10 {
        let d = decimal(n);
        assert(d.drop_last() =~= Seq::<char>::empty());
        assert(digits_value(d) == digits_value(d.drop_last()) * 10 + digit_value(d.last()));
    } else {
        lemma_decimal_digits(n / 10);
        let d = decimal(n);
        assert(d.drop_last() =~= decimal(n / 10));
        assert(d[0] == decimal(n / 10)[0]);
        assert(d.last() == digit_char(n % 10));
        assert(digits_value(d) == digits_value(decimal(n / 10)) * 10 + digit_value(digit_char(n % 10)));
        assert((n / 10) * 10 + n % 10 == n);
    }
}

/// Value of the digits `v[start..end]`, or `None` when it exceeds `cap`.
pub fn digits_value_upto(v: &Vec<char>, start: usize, end: usize, cap: u64) -> (r: Option<u64>)
    requires
        start <= end <= v.len(),
        all_digits(v@.subrange(start as int, end as int)),
    ensures
        r == (if digits_value(v@.subrange(start as int, end as int)) <= cap {
            Some(digits_value(v@.subrange(start as int, end as int)) as u64)
        } else {
            None::<u64>
        }),
{
    let mut acc: u64 = 0;
    let mut overflow = false;
    let mut i = start;
    assert(v@.subrange(start as int, start as int) =~= Seq::<char>::empty());
    while i < end
        invariant
            start <= i <= end <= v.len(),
            all_digits(v@.subrange(start as int, end as int)),
            overflow == (digits_value(v@.subrange(start as int, i as int)) > cap),
            !overflow ==> acc == digits_value(v@.subrange(start as int, i as int)),
        decreases end - i,
    {
        let ghost pre = v@.subrange(start as int, i as int);
        let ghost next = v@.subrange(start as int, i + 1);
        assert(next.drop_last() =~= pre);
        assert(next.last() == v@[i as int]);
        assert(is_digit(v@.subrange(start as int, end as int)[i - start]));
        let d = (v[i] as u32 - '0' as u32) as u64;
        assert(d == digit_value(v@[i as int]));
        if !overflow {
            match acc.checked_mul(10) {
                Some(t) => match t.checked_add(d) {
                    Some(u) => {
                        if u <= cap {
                            acc = u;
                        } else {
                            overflow = true;
                        }
                    },
                    None => {
                        overflow = true;
                    },
                },
                None => {
                    overflow = true;
                },
            }
        } else {
            assert(digits_value(next) >= digits_value(pre));
        }
        i += 1;
    }
    if overflow {
        None
    } else {
        Some(acc)
    }
}

/// Index of the end of the run of characters from `i` on that satisfy `p`.
pub open spec fn run_end(s: Seq<char>, i: int, p: spec_fn(char) -> bool) -> int
    decreases s.len() - i,
{
    if 0 <= i < s.len() && p(s[i]) {
        run_end(s, i + 1, p)
    } else {
        i
    }
}

pub proof fn lemma_run_end(s: Seq<char>, i: int, p: spec_fn(char) -> bool)
    requires
        0 <= i <= s.len(),
    ensures
        i <= run_end(s, i, p) <= s.len(),
        forall|k: int| i <= k < run_end(s, i, p) ==> p(#[trigger] s[k]),
        run_end(s, i, p) < s.len() ==> !p(s[run_end(s, i, p)]),
    decreases s.len() - i,
{
    if i < s.len() && p(s[i]) {
        lemma_run_end(s, i + 1, p);
    }
}

/// The ASCII-digit predicate as a relation value.
pub open spec fn digit_pred() -> spec_fn(char) -> bool {
    |c: char| is_digit(c)
}

/// The index just past the run of ASCII digits starting at `i`.
pub fn skip_digits(v: &Vec<char>, i: usize) -> (j: usize)
    requires
        i <= v.len(),
    ensures
        j == run_end(v@, i as int, digit_pred()),
{
    proof {
        lemma_run_end(v@, i as int, digit_pred());
    }
    let mut j = i;
    while j < v.len() && '0' <= v[j] && v[j] <= '9'
        invariant
            i <= j <= v.len(),
            run_end(v@, j as int, digit_pred()) == run_end(v@, i as int, digit_pred()),
        decreases v.len() - j,
    {
        j += 1;
    }
    j
}

/// The index just past the run of characters starting at `i` for which
/// `is_ws` is `ws` (whitespace when `ws`, non-whitespace otherwise).
pub fn skip_ws_run(v: &Vec<char>, i: usize, ws: bool) -> (j: usize)
    requires
        i <= v.len(),
    ensures
        j == run_end(v@, i as int, |c: char| is_ws(c) == ws),
{
    proof {
        lemma_run_end(v@, i as int, |c: char| is_ws(c) == ws);
    }
    let mut j = i;
    while j < v.len() && is_whitespace(v[j]) == ws
        invariant
            i <= j <= v.len(),
            run_end(v@, j as int, |c: char| is_ws(c) == ws) == run_end(v@, i as int, |c: char| is_ws(c) == ws),
        decreases v.len() - j,
    {
        j += 1;
    }
    j
}

} // verus!
