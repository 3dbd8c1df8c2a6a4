//! Parsing what the user types (port pairs, replica counts) and what the
//! `tsh kube ls` command prints.

use vstd::prelude::*;
use crate::text::{
    decimal, digit_char,
    char_is_white_space, find_char, lemma_index_where, index_of, index_where, is_char, is_white_space,
    lemma_index_where_unique, lemma_trim_start_skip, line_bounds, lines, string_of_range,
    to_chars, trim, trim_bounds, trim_start, white_space_pred,
};

verus! {

pub open spec fn is_digit(c: char) -> bool {
    48 <= c as u32 <= 57
}

pub open spec fn digit_value(c: char) -> nat {
    (c as u32 - 48) as nat
}

pub open spec fn all_digits(s: Seq<char>) -> bool {
    forall|i: int| 0 <= i < s.len() ==> is_digit(#[trigger] s[i])
}

/// The number that a run of decimal digits denotes.
pub open spec fn digits_value(s: Seq<char>) -> nat
    decreases s.len(),
{
    if s.len() == 0 {
        0
    } else {
        digits_value(s.drop_last()) * 10 + digit_value(s.last())
    }
}

/// The digits of an unsigned number: what follows an optional leading `+`.
pub open spec fn unsigned_body(s: Seq<char>) -> Seq<char> {
    if s.len() > 0 && s[0] == '+' {
        s.drop_first()
    } else {
        s
    }
}

/// What `str::parse` gives for an unsigned integer type whose largest value is `max`:
/// an optional `+`, then one or more decimal digits whose value is at most `max`.
pub open spec fn parse_unsigned(s: Seq<char>, max: nat) -> Option<nat> {
    let b = unsigned_body(s);
    if b.len() > 0 && all_digits(b) && digits_value(b) <= max {
        Some(digits_value(b))
    } else {
        None
    }
}

/// What `str::parse` gives for a signed integer type with range `min..=max`:
/// an optional sign, then one or more decimal digits whose value is in range.
pub open spec fn parse_signed(s: Seq<char>, min: int, max: int) -> Option<int> {
    if s.len() > 0 && s[0] == '-' {
        let b = s.drop_first();
        if b.len() > 0 && all_digits(b) && -(digits_value(b) as int) >= min {
            Some(-(digits_value(b) as int))
        } else {
            None
        }
    } else {
        let b = unsigned_body(s);
        if b.len() > 0 && all_digits(b) && digits_value(b) <= max {
            Some(digits_value(b) as int)
        } else {
            None
        }
    }
}

/// What `s.parse::<u16>()` gives.
pub open spec fn spec_parse_u16(s: Seq<char>) -> Option<u16> {
    match parse_unsigned(s, 65535) {
        Some(n) => Some(n as u16),
        None => None,
    }
}

/// What `s.parse::<i32>()` gives.
pub open spec fn spec_parse_i32(s: Seq<char>) -> Option<i32> {
    match parse_signed(s, -0x8000_0000, 0x7fff_ffff) {
        Some(n) => Some(n as i32),
        None => None,
    }
}

proof fn lemma_digits_prefix(s: Seq<char>, k: int)
    requires
        0 <= k <= s.len(),
    ensures
        digits_value(s.subrange(0, k)) <= digits_value(s),
    decreases s.len() - k,
{
    if k == s.len() {
        assert(s.subrange(0, k) =~= s);
    } else {
        let t = s.drop_last();
        lemma_digits_prefix(t, k);
        assert(t.subrange(0, k) =~= s.subrange(0, k));
    }
}

fn char_digit(c: char) -> (r: Option<u64>)
    ensures
        r is Some <==> is_digit(c),
        r is Some ==> r->0 == digit_value(c) && r->0 < 10,
{
    let u = c as u32;
    if 48 <= u && u <= 57 {
        Some((u - 48) as u64)
    } else {
        None
    }
}

/// The value of the digits `v[lo..hi]` when they are one or more digits worth at most `max`.
fn digits_at_most(v: &Vec<char>, lo: usize, hi: usize, max: u64) -> (r: Option<u64>)
    requires
        lo <= hi <= v@.len(),
        max <= 0x1_0000_0000,
    ensures
        ({
            let s = v@.subrange(lo as int, hi as int);
            &&& r is Some <==> (s.len() > 0 && all_digits(s) && digits_value(s) <= max)
            &&& r is Some ==> r->0 == digits_value(s)
        }),
{
    let ghost s = v@.subrange(lo as int, hi as int);
    if lo == hi {
        return None;
    }
    let mut acc: u64 = 0;
    let mut i = lo;
    while i < hi
        invariant
            lo <= i <= hi,
            hi <= v@.len(),
            max <= 0x1_0000_0000,
            s == v@.subrange(lo as int, hi as int),
            all_digits(v@.subrange(lo as int, i as int)),
            acc == digits_value(v@.subrange(lo as int, i as int)),
            acc <= max,
        decreases hi - i,
    {
        let ghost pre = v@.subrange(lo as int, i as int);
        let ghost pre1 = v@.subrange(lo as int, i + 1);
        assert(pre1.drop_last() =~= pre);
        match char_digit(v[i]) {
            None => {
                assert(s[i - lo] == v@[i as int]);
                return None;
            },
            Some(d) => {
                let next = acc * 10 + d;
                assert(digits_value(pre1) == digits_value(pre) * 10 + digit_value(v@[i as int]));
                assert(all_digits(pre1)) by {
                    assert forall|j: int| 0 <= j < pre1.len() implies is_digit(#[trigger] pre1[j]) by {
                        if j < pre.len() {
                            assert(pre1[j] == pre[j]);
                        }
                    }
                }
                if next > max {
                    proof {
                        if all_digits(s) {
                            lemma_digits_prefix(s, i + 1 - lo);
                            assert(s.subrange(0, i + 1 - lo) =~= pre1);
                        }
                    }
                    return None;
                }
                acc = next;
                i = i + 1;
            },
        }
    }
    assert(v@.subrange(lo as int, i as int) =~= s);
    Some(acc)
}

/// `v[lo..hi]` parsed as `str::parse::<u16>` parses it.
fn parse_u16_range(v: &Vec<char>, lo: usize, hi: usize) -> (r: Option<u16>)
    requires
        lo <= hi <= v@.len(),
    ensures
        r == spec_parse_u16(v@.subrange(lo as int, hi as int)),
{
    let ghost s = v@.subrange(lo as int, hi as int);
    let start = if lo < hi && v[lo] == '+' {
        lo + 1
    } else {
        lo
    };
    assert(unsigned_body(s) =~= v@.subrange(start as int, hi as int));
    match digits_at_most(v, start, hi, 65535) {
        Some(n) => Some(n as u16),
        None => None,
    }
}

/// `s` parsed as `str::parse::<u16>` parses it.
pub fn parse_u16(s: &str) -> (r: Option<u16>)
    ensures
        r == spec_parse_u16(s@),
{
    let v = to_chars(s);
    assert(v@.subrange(0, v@.len() as int) =~= s@);
    parse_u16_range(&v, 0, v.len())
}

/// `s` parsed as `str::parse::<i32>` parses it.
pub fn parse_i32(s: &str) -> (r: Option<i32>)
    ensures
        r == spec_parse_i32(s@),
{
    let v = to_chars(s);
    let n = v.len();
    if n > 0 && v[0] == '-' {
        assert(s@.drop_first() =~= v@.subrange(1, n as int));
        match digits_at_most(&v, 1, n, 0x8000_0000) {
            Some(m) => {
                let x: i64 = 0 - (m as i64);
                Some(x as i32)
            },
            None => None,
        }
    } else {
        let start = if n > 0 && v[0] == '+' {
            1
        } else {
            0
        };
        assert(unsigned_body(s@) =~= v@.subrange(start as int, n as int));
        match digits_at_most(&v, start, n, 0x7fff_ffff) {
            Some(m) => Some(m as i32),
            None => None,
        }
    }
}

/// What `parse_port_pair` accepts: after trimming, `local:remote` split at the
/// first `:`, or a single port used for both ends.
pub open spec fn spec_parse_port_pair(s: Seq<char>) -> Option<(u16, u16)> {
    let t = trim(s);
    let i = index_of(t, ':');
    if i < 0 {
        match spec_parse_u16(t) {
            Some(p) => Some((p, p)),
            None => None,
        }
    } else {
        match (spec_parse_u16(t.subrange(0, i)), spec_parse_u16(t.subrange(i + 1, t.len() as int))) {
            (Some(l), Some(r)) => Some((l, r)),
            _ => None,
        }
    }
}

/// Reads a port-forward request typed as `local:remote` or as one port for both.
pub fn parse_port_pair(s: &str) -> (r: Option<(u16, u16)>)
    ensures
        r == spec_parse_port_pair(s@),
{
    let v = to_chars(s);
    assert(v@.subrange(0, v@.len() as int) =~= s@);
    let (a, b) = trim_bounds(&v, 0, v.len());
    let ghost t = v@.subrange(a as int, b as int);
    let c = find_char(&v, a, ':');
    let colon = if c < b {
        c
    } else {
        b
    };
    proof {
        let k = if colon < b {
            colon - a
        } else {
            -1
        };
        assert forall|j: int|
            0 <= j < (if k >= 0 {
                k
            } else {
                t.len() as int
            }) implies !is_char(':')(#[trigger] t[j]) by {
            assert(t[j] == v@[j + a]);
        }
        if k >= 0 {
            assert(t[k] == v@[colon as int]);
        }
        lemma_index_where_unique(t, is_char(':'), k);
    }
    if colon == b {
        match parse_u16_range(&v, a, b) {
            Some(p) => Some((p, p)),
            None => None,
        }
    } else {
        assert(t.subrange(0, colon - a) =~= v@.subrange(a as int, colon as int));
        assert(t.subrange(colon - a + 1, t.len() as int) =~= v@.subrange(colon + 1, b as int));
        let l = parse_u16_range(&v, a, colon);
        let r = parse_u16_range(&v, colon + 1, b);
        match (l, r) {
            (Some(x), Some(y)) => Some((x, y)),
            _ => None,
        }
    }
}

// ---------------------------------------------------------------- tsh kube ls

/// A line that starts with `--`: the rule under the header of `tsh kube ls`.
pub open spec fn is_rule_line(line: Seq<char>) -> bool {
    line.len() >= 2 && line[0] == '-' && line[1] == '-'
}

/// The lines after the first rule line; none when there is no rule line.
pub open spec fn after_rule(ls: Seq<Seq<char>>) -> Seq<Seq<char>>
    decreases ls.len(),
{
    if ls.len() == 0 {
        ls
    } else if is_rule_line(ls[0]) {
        ls.drop_first()
    } else {
        after_rule(ls.drop_first())
    }
}

/// The first white-space-separated word of a line (empty when the line is blank).
pub open spec fn first_word(line: Seq<char>) -> Seq<char> {
    let t = trim_start(line);
    let k = index_where(t, white_space_pred());
    if k < 0 {
        t
    } else {
        t.subrange(0, k)
    }
}

/// The first word of each line that has one.
pub open spec fn first_words(ls: Seq<Seq<char>>) -> Seq<Seq<char>>
    decreases ls.len(),
{
    if ls.len() == 0 {
        seq![]
    } else {
        let w = first_word(ls[0]);
        (if w.len() > 0 {
            seq![w]
        } else {
            seq![]
        }) + first_words(ls.drop_first())
    }
}

/// The cluster names in the output of `tsh kube ls`: the first word of each
/// non-blank line below the `--` rule.
pub open spec fn tsh_cluster_names(out: Seq<char>) -> Seq<Seq<char>> {
    first_words(after_rule(lines(out)))
}

proof fn lemma_after_rule(ls: Seq<Seq<char>>, h: int)
    requires
        0 <= h <= ls.len(),
        forall|j: int| 0 <= j < h ==> !is_rule_line(#[trigger] ls[j]),
        h < ls.len() ==> is_rule_line(ls[h]),
    ensures
        after_rule(ls) == (if h < ls.len() {
            ls.subrange(h + 1, ls.len() as int)
        } else {
            seq![]
        }),
    decreases h,
{
    if ls.len() > 0 {
        if h == 0 {
            assert(ls.drop_first() =~= ls.subrange(1, ls.len() as int));
        } else {
            let t = ls.drop_first();
            assert(!is_rule_line(ls[0]));
            assert forall|j: int| 0 <= j < h - 1 implies !is_rule_line(#[trigger] t[j]) by {
                assert(t[j] == ls[j + 1]);
            }
            if h < ls.len() {
                assert(t[h - 1] == ls[h]);
                assert(t.subrange(h, t.len() as int) =~= ls.subrange(h + 1, ls.len() as int));
            }
            lemma_after_rule(t, h - 1);
        }
    }
}

/// The bounds of the first word of `v[lo..hi]`.
fn first_word_bounds(v: &Vec<char>, lo: usize, hi: usize) -> (r: (usize, usize))
    requires
        lo <= hi <= v@.len(),
    ensures
        lo <= r.0 <= r.1 <= hi,
        v@.subrange(r.0 as int, r.1 as int) == first_word(v@.subrange(lo as int, hi as int)),
{
    let ghost s = v@.subrange(lo as int, hi as int);
    let mut i = lo;
    while i < hi && char_is_white_space(v[i])
        invariant
            lo <= i <= hi,
            hi <= v@.len(),
            forall|j: int| lo <= j < i ==> is_white_space(#[trigger] v@[j]),
        decreases hi - i,
    {
        i = i + 1;
    }
    proof {
        assert forall|j: int| 0 <= j < i - lo implies is_white_space(#[trigger] s[j]) by {
            assert(s[j] == v@[j + lo]);
        }
        lemma_trim_start_skip(s, i - lo);
        assert(s.subrange(i - lo, s.len() as int) =~= v@.subrange(i as int, hi as int));
        if i < hi {
            assert(!is_white_space(v@.subrange(i as int, hi as int)[0]));
        }
    }
    let ghost t = v@.subrange(i as int, hi as int);
    assert(trim_start(s) == t);
    let mut j = i;
    while j < hi && !char_is_white_space(v[j])
        invariant
            i <= j <= hi,
            hi <= v@.len(),
            forall|k: int| i <= k < j ==> !is_white_space(#[trigger] v@[k]),
        decreases hi - j,
    {
        j = j + 1;
    }
    proof {
        let k = if j < hi {
            j - i
        } else {
            -1
        };
        assert forall|q: int|
            0 <= q < (if k >= 0 {
                k
            } else {
                t.len() as int
            }) implies !white_space_pred()(#[trigger] t[q]) by {
            assert(t[q] == v@[q + i]);
        }
        if k >= 0 {
            assert(t[k] == v@[j as int]);
        }
        lemma_index_where_unique(t, white_space_pred(), k);
        if k >= 0 {
            assert(t.subrange(0, k) =~= v@.subrange(i as int, j as int));
        }
    }
    (i, j)
}

/// The cluster names listed in the output of `tsh kube ls`.
pub fn parse_tsh_kube_ls(output: &str) -> (r: Vec<String>)
    ensures
        r.deep_view() == tsh_cluster_names(output@),
{
    let v = to_chars(output);
    let b = line_bounds(&v);
    let ghost ls = lines(v@);
    let mut h: usize = 0;
    let mut found = false;
    while h < b.len() && !found
        invariant
            b@.len() == ls.len(),
            ls == lines(v@),
            forall|q: int|
                0 <= q < b@.len() ==> {
                    &&& (#[trigger] b@[q]).0 <= b@[q].1 <= v@.len()
                    &&& v@.subrange(b@[q].0 as int, b@[q].1 as int) == ls[q]
                },
            h <= b@.len(),
            found ==> h < b@.len() && is_rule_line(ls[h as int]),
            forall|q: int| 0 <= q < h ==> !is_rule_line(#[trigger] ls[q]),
        decreases b@.len() - h + (if found { 0int } else { 1int }),
    {
        let (lo, hi) = b[h];
        proof {
            if ls[h as int].len() >= 2 {
                assert(ls[h as int][0] == v@[lo as int]);
                assert(ls[h as int][1] == v@[lo + 1]);
            }
        }
        if hi - lo >= 2 && v[lo] == '-' && v[lo + 1] == '-' {
            found = true;
        } else {
            h = h + 1;
        }
    }
    proof {
        lemma_after_rule(ls, h as int);
    }
    let ghost rest = after_rule(ls);
    let mut out: Vec<String> = Vec::new();
    let mut k: usize = if h < b.len() {
        h + 1
    } else {
        b.len()
    };
    let ghost start = k as int;
    assert(rest =~= ls.subrange(start, ls.len() as int));
    assert(ls.subrange(start, ls.len() as int) =~= ls.subrange(k as int, ls.len() as int));
    while k < b.len()
        invariant
            b@.len() == ls.len(),
            ls == lines(v@),
            forall|q: int|
                0 <= q < b@.len() ==> {
                    &&& (#[trigger] b@[q]).0 <= b@[q].1 <= v@.len()
                    &&& v@.subrange(b@[q].0 as int, b@[q].1 as int) == ls[q]
                },
            start <= k <= b@.len(),
            first_words(rest) == out.deep_view() + first_words(
                ls.subrange(k as int, ls.len() as int),
            ),
        decreases b@.len() - k,
    {
        let ghost tail = ls.subrange(k as int, ls.len() as int);
        assert(tail.drop_first() =~= ls.subrange(k + 1, ls.len() as int));
        assert(tail[0] == ls[k as int]);
        let (lo, hi) = b[k];
        let (x, y) = first_word_bounds(&v, lo, hi);
        if x < y {
            let w = string_of_range(&v, x, y);
            out.push(w);
            assert(out.deep_view() =~= out.deep_view().drop_last().push(w@));
        }
        k = k + 1;
        assert(first_words(rest) =~= out.deep_view() + first_words(
            ls.subrange(k as int, ls.len() as int),
        ));
    }
    assert(ls.subrange(k as int, ls.len() as int) =~= Seq::<Seq<char>>::empty());
    assert(out.deep_view() =~= first_words(rest));
    out
}

// ---------------------------------------------------------------- laws

proof fn lemma_digit_char(d: nat)
    requires
        d < 10,
    ensures
        is_digit(digit_char(d)),
        digit_value(digit_char(d)) == d,
{
}

/// The decimal rendering of `n` is a non-empty run of digits worth `n`.
pub proof fn lemma_decimal_digits(n: nat)
    ensures
        decimal(n).len() > 0,
        all_digits(decimal(n)),
        digits_value(decimal(n)) == n,
    decreases n,
{
    if n < 10 {
        lemma_digit_char(n);
        let d = decimal(n);
        assert(d.drop_last() =~= Seq::<char>::empty());
        assert(digits_value(d.drop_last()) == 0);
        assert(d.last() == digit_char(n));
        assert(digits_value(d) == digits_value(d.drop_last()) * 10 + digit_value(d.last()));
    } else {
        lemma_decimal_digits(n / 10);
        lemma_digit_char(n % 10);
        let d = decimal(n);
        assert(d.drop_last() =~= decimal(n / 10));
        assert(d.last() == digit_char(n % 10));
        assert(digits_value(d) == digits_value(decimal(n / 10)) * 10 + digit_value(
            digit_char(n % 10),
        ));
        assert(n == (n / 10) * 10 + n % 10);
        assert forall|i: int| 0 <= i < d.len() implies is_digit(#[trigger] d[i]) by {
            if i < d.len() - 1 {
                assert(d[i] == decimal(n / 10)[i]);
            }
        }
    }
}

proof fn lemma_digits_not_special(s: Seq<char>)
    requires
        all_digits(s),
    ensures
        forall|i: int| 0 <= i < s.len() ==> !is_white_space(#[trigger] s[i]),
        forall|i: int| 0 <= i < s.len() ==> s[i] != ':' && s[i] != '+',
{
    assert forall|i: int| 0 <= i < s.len() implies !is_white_space(#[trigger] s[i]) by {
        assert(is_digit(s[i]));
    }
    assert forall|i: int| 0 <= i < s.len() implies s[i] != ':' && s[i] != '+' by {
        assert(is_digit(s[i]));
    }
}

proof fn lemma_parse_decimal_u16(p: u16)
    ensures
        spec_parse_u16(decimal(p as nat)) == Some(p),
{
    let d = decimal(p as nat);
    lemma_decimal_digits(p as nat);
    lemma_digits_not_special(d);
    assert(unsigned_body(d) == d);
}

proof fn lemma_trim_digits(s: Seq<char>)
    requires
        forall|i: int| 0 <= i < s.len() ==> !is_white_space(#[trigger] s[i]),
    ensures
        trim(s) == s,
{
    if s.len() > 0 {
        assert(!is_white_space(s[0]));
        assert(!is_white_space(s.last()));
    }
}

/// Writing a port pair as `local:remote` and reading it back gives the same pair.
pub proof fn law_port_pair_round_trip(local: u16, remote: u16)
    ensures
        spec_parse_port_pair(decimal(local as nat) + seq![':'] + decimal(remote as nat)) == Some(
            (local, remote),
        ),
{
    let a = decimal(local as nat);
    let b = decimal(remote as nat);
    let s = a + seq![':'] + b;
    lemma_decimal_digits(local as nat);
    lemma_decimal_digits(remote as nat);
    lemma_digits_not_special(a);
    lemma_digits_not_special(b);
    assert forall|i: int| 0 <= i < s.len() implies !is_white_space(#[trigger] s[i]) by {
        if i < a.len() {
            assert(s[i] == a[i]);
        } else if i > a.len() {
            assert(s[i] == b[i - a.len() - 1]);
        }
    }
    lemma_trim_digits(s);
    assert forall|j: int| 0 <= j < a.len() implies !is_char(':')(#[trigger] s[j]) by {
        assert(s[j] == a[j]);
    }
    lemma_index_where_unique(s, is_char(':'), a.len() as int);
    assert(s.subrange(0, a.len() as int) =~= a);
    assert(s.subrange(a.len() as int + 1, s.len() as int) =~= b);
    lemma_parse_decimal_u16(local);
    lemma_parse_decimal_u16(remote);
}

/// A single port, written out and read back, forwards that port to itself.
pub proof fn law_single_port_round_trip(port: u16)
    ensures
        spec_parse_port_pair(decimal(port as nat)) == Some((port, port)),
{
    let a = decimal(port as nat);
    lemma_decimal_digits(port as nat);
    lemma_digits_not_special(a);
    lemma_trim_digits(a);
    lemma_index_where_unique(a, is_char(':'), -1);
    lemma_parse_decimal_u16(port);
}

/// Every name read from `tsh kube ls` is a non-empty word without white space.
pub proof fn law_tsh_names_are_words(out: Seq<char>)
    ensures
        forall|i: int|
            0 <= i < tsh_cluster_names(out).len() ==> {
                let w = #[trigger] tsh_cluster_names(out)[i];
                &&& w.len() > 0
                &&& forall|j: int| 0 <= j < w.len() ==> !is_white_space(#[trigger] w[j])
            },
{
    lemma_first_words_are_words(after_rule(lines(out)));
}

proof fn lemma_first_word_is_word(line: Seq<char>)
    ensures
        forall|j: int|
            0 <= j < first_word(line).len() ==> !is_white_space(#[trigger] first_word(line)[j]),
{
    let t = trim_start(line);
    lemma_index_where(t, white_space_pred());
    let w = first_word(line);
    assert forall|j: int| 0 <= j < w.len() implies !is_white_space(#[trigger] w[j]) by {
        assert(w[j] == t[j]);
        assert(!white_space_pred()(t[j]));
    }
}

proof fn lemma_first_words_are_words(ls: Seq<Seq<char>>)
    ensures
        forall|i: int|
            0 <= i < first_words(ls).len() ==> {
                let w = #[trigger] first_words(ls)[i];
                &&& w.len() > 0
                &&& forall|j: int| 0 <= j < w.len() ==> !is_white_space(#[trigger] w[j])
            },
    decreases ls.len(),
{
    if ls.len() > 0 {
        lemma_first_words_are_words(ls.drop_first());
        lemma_first_word_is_word(ls[0]);
        let w = first_word(ls[0]);
        let head: Seq<Seq<char>> = if w.len() > 0 {
            seq![w]
        } else {
            seq![]
        };
        let rest = first_words(ls.drop_first());
        assert(first_words(ls) == head + rest);
        assert forall|i: int| 0 <= i < first_words(ls).len() implies {
            let w2 = #[trigger] first_words(ls)[i];
            &&& w2.len() > 0
            &&& forall|j: int| 0 <= j < w2.len() ==> !is_white_space(#[trigger] w2[j])
        } by {
            if i < head.len() {
                assert(first_words(ls)[i] == w);
            } else {
                assert(first_words(ls)[i] == rest[i - head.len()]);
            }
        }
    }
}

} // verus!
