//! Character-level text operations with exact specifications: searching for a
//! pattern, splitting, prefix stripping, decimal printing and parsing.

use vstd::prelude::*;

verus! {

/// `pat` occurs in `s` starting at index `i`.
pub open spec fn occurs_at(s: Seq<char>, pat: Seq<char>, i: int) -> bool {
    0 <= i && i + pat.len() <= s.len() && s.subrange(i, i + pat.len()) == pat
}

/// The leftmost index `>= from` at which `pat` occurs in `s`.
pub open spec fn first_occurrence(s: Seq<char>, pat: Seq<char>, from: int) -> Option<int>
    decreases s.len() + 1 - from,
{
    if from < 0 || from + pat.len() > s.len() {
        None
    } else if occurs_at(s, pat, from) {
        Some(from)
    } else {
        first_occurrence(s, pat, from + 1)
    }
}

/// The characters of `s`, as a vector.
pub fn chars_of(s: &str) -> (v: Vec<char>)
    ensures
        v@ == s@,
{
    let n: usize = s.unicode_len();
    let mut v: Vec<char> = Vec::new();
    let mut i: usize = 0;
    while i < n
        invariant
            n == s@.len(),
            i <= n,
            v@ == s@.subrange(0, i as int),
        decreases n - i,
    {
        let c = s.get_char(i);
        v.push(c);
        i = i + 1;
        assert(v@ =~= s@.subrange(0, i as int));
    }
    assert(v@ =~= s@);
    v
}

/// The string `a` followed by `b`.
pub fn joined(a: &str, b: &str) -> (r: String)
    ensures
        r@ == a@ + b@,
{
    let mut r = String::from_str(a);
    r.append(b);
    r
}

/// The string made of `chars[from..to]`.
pub fn string_of(chars: &Vec<char>, from: usize, to: usize) -> (r: String)
    requires
        from <= to <= chars@.len(),
    ensures
        r@ == chars@.subrange(from as int, to as int),
{
    let mut r = String::new();
    let mut i = from;
    while i < to
        invariant
            from <= i <= to,
            to <= chars@.len(),
            r@ == chars@.subrange(from as int, i as int),
        decreases to - i,
    {
        r.push(chars[i]);
        i = i + 1;
        assert(r@ =~= chars@.subrange(from as int, i as int));
    }
    r
}

/// Whether `pat` occurs in `s` at index `i`.
pub fn occurs_at_exec(s: &Vec<char>, pat: &Vec<char>, i: usize) -> (r: bool)
    ensures
        r == occurs_at(s@, pat@, i as int),
{
    if i > s.len() || pat.len() > s.len() - i {
        return false;
    }
    let mut k: usize = 0;
    while k < pat.len()
        invariant
            i + pat.len() <= s.len(),
            k <= pat@.len(),
            forall|j: int| 0 <= j < k ==> s@[i + j] == pat@[j],
        decreases pat@.len() - k,
    {
        assert(i + k < s@.len());
        if s[i + k] != pat[k] {
            assert(s@.subrange(i as int, i + pat@.len())[k as int] != pat@[k as int]);
            return false;
        }
        k = k + 1;
    }
    assert(s@.subrange(i as int, i + pat@.len()) =~= pat@);
    true
}

/// The leftmost occurrence of `pat` in `s` at or after `from`.
pub fn find_from(s: &Vec<char>, pat: &Vec<char>, from: usize) -> (r: Option<usize>)
    ensures
        match r {
            Some(i) => {
                &&& first_occurrence(s@, pat@, from as int) == Some(i as int)
                &&& occurs_at(s@, pat@, i as int)
                &&& from <= i
            },
            None => first_occurrence(s@, pat@, from as int) is None,
        },
{
    let mut i = from;
    while i <= s.len() && pat.len() <= s.len() - i
        invariant
            from <= i,
            first_occurrence(s@, pat@, from as int) == first_occurrence(s@, pat@, i as int),
        decreases s@.len() + 1 - i,
    {
        if occurs_at_exec(s, pat, i) {
            return Some(i);
        }
        if i == s.len() {
            assert(first_occurrence(s@, pat@, i + 1) is None);
            return None;
        }
        i = i + 1;
    }
    None
}

/// `s.split(pat).next()`: the text before the first occurrence of `pat`, or
/// all of `s` when `pat` does not occur.
pub open spec fn split_first(s: Seq<char>, pat: Seq<char>) -> Seq<char> {
    match first_occurrence(s, pat, 0) {
        Some(i) => s.subrange(0, i),
        None => s,
    }
}

/// `s.split(pat).nth(1)`: the text between the first and the second occurrence
/// of `pat` (or the end of `s`); `None` when `pat` does not occur.
pub open spec fn split_second(s: Seq<char>, pat: Seq<char>) -> Option<Seq<char>> {
    match first_occurrence(s, pat, 0) {
        None => None,
        Some(i) => {
            let start: int = i + pat.len();
            match first_occurrence(s, pat, start) {
                Some(j) => Some(s.subrange(start, j)),
                None => Some(s.subrange(start, s.len() as int)),
            }
        },
    }
}

/// `s.strip_prefix(p)`.
pub open spec fn strip_prefix_spec(s: Seq<char>, p: Seq<char>) -> Option<Seq<char>> {
    if p.is_prefix_of(s) {
        Some(s.skip(p.len() as int))
    } else {
        None
    }
}

/// `s.contains(p)`.
pub open spec fn has_occurrence(s: Seq<char>, p: Seq<char>) -> bool {
    first_occurrence(s, p, 0) is Some
}

/// The text of `s` before the first occurrence of `pat` (all of `s` if none).
pub fn split_first_exec(s: &Vec<char>, pat: &Vec<char>) -> (r: String)
    ensures
        r@ == split_first(s@, pat@),
{
    match find_from(s, pat, 0) {
        Some(i) => string_of(s, 0, i),
        None => string_of(s, 0, s.len()),
    }
}

/// The second piece of `s` split at `pat`, if there is one.
pub fn split_second_exec(s: &Vec<char>, pat: &Vec<char>) -> (r: Option<String>)
    ensures
        match r {
            Some(t) => split_second(s@, pat@) == Some(t@),
            None => split_second(s@, pat@) is None,
        },
{
    match find_from(s, pat, 0) {
        None => None,
        Some(i) => {
            assert(i + pat.len() <= s.len());
            let start: usize = i + pat.len();
            match find_from(s, pat, start) {
                Some(j) => Some(string_of(s, start, j)),
                None => Some(string_of(s, start, s.len())),
            }
        },
    }
}

/// `s` without the prefix `p`, if `s` starts with `p`.
pub fn strip_prefix_exec(s: &Vec<char>, p: &Vec<char>) -> (r: Option<String>)
    ensures
        match r {
            Some(t) => strip_prefix_spec(s@, p@) == Some(t@),
            None => strip_prefix_spec(s@, p@) is None,
        },
{
    if occurs_at_exec(s, p, 0) {
        let t = string_of(s, p.len(), s.len());
        assert(t@ =~= s@.skip(p@.len() as int));
        Some(t)
    } else {
        None
    }
}

/// Whether `p` occurs anywhere in `s`.
pub fn contains_exec(s: &Vec<char>, p: &Vec<char>) -> (r: bool)
    ensures
        r == has_occurrence(s@, p@),
{
    find_from(s, p, 0).is_some()
}

/// The decimal digit character for `d < 10`.
pub open spec fn digit_char(d: nat) -> char {
    (d + 48) as char
}

/// The decimal representation of `n`, without sign or leading zeros.
pub open spec fn decimal_digits(n: nat) -> Seq<char>
    decreases n,
{
    if n < 10 {
        seq![digit_char(n)]
    } else {
        decimal_digits(n / 10).push(digit_char(n % 10))
    }
}

/// The decimal representation of an integer, with a leading `-` when negative
/// (as Rust's `Display` prints integers).
pub open spec fn decimal_int(n: int) -> Seq<char> {
    if n < 0 {
        seq!['-'] + decimal_digits((-n) as nat)
    } else {
        decimal_digits(n as nat)
    }
}

fn digit_to_char(d: u64) -> (c: char)
    requires
        d < 10,
    ensures
        c == digit_char(d as nat),
{
    match d {
        0 => '0',
        1 => '1',
        2 => '2',
        3 => '3',
        4 => '4',
        5 => '5',
        6 => '6',
        7 => '7',
        8 => '8',
        _ => '9',
    }
}

/// Appends the decimal digits of `n` to `out`.
pub fn push_decimal(out: &mut String, n: u64)
    ensures
        final(out)@ == old(out)@ + decimal_digits(n as nat),
    decreases n,
{
    if n >= 10 {
        push_decimal(out, n / 10);
    }
    out.push(digit_to_char(n % 10));
    assert(final(out)@ =~= old(out)@ + decimal_digits(n as nat));
}

/// The decimal representation of `n`, as `n.to_string()` gives it.
pub fn decimal_u64(n: u64) -> (r: String)
    ensures
        r@ == decimal_digits(n as nat),
{
    let mut r = String::new();
    push_decimal(&mut r, n);
    assert(r@ =~= decimal_digits(n as nat));
    r
}

/// The decimal representation of `n`, as `n.to_string()` gives it.
pub fn decimal_i32(n: i32) -> (r: String)
    ensures
        r@ == decimal_int(n as int),
{
    let mut r = String::new();
    if n < 0 {
        r.push('-');
        let m: i64 = n as i64;
        push_decimal(&mut r, (-m) as u64);
    } else {
        push_decimal(&mut r, n as u64);
    }
    assert(r@ =~= decimal_int(n as int));
    r
}

/// Whether `c` is an ASCII decimal digit.
pub open spec fn is_digit(c: char) -> bool {
    '0' <= c <= '9'
}

/// The value of a digit character.
pub open spec fn digit_value(c: char) -> nat {
    ((c as int) - 48) as nat
}

/// The value of a string of decimal digits (0 for the empty string).
pub open spec fn digits_value(s: Seq<char>) -> nat
    decreases s.len(),
{
    if s.len() == 0 {
        0
    } else {
        digits_value(s.drop_last()) * 10 + digit_value(s.last())
    }
}

/// The text after an optional leading `+`.
pub open spec fn unsigned_digits(s: Seq<char>) -> Seq<char> {
    if s.len() > 0 && s[0] == '+' {
        s.drop_first()
    } else {
        s
    }
}

/// `s.parse::<u16>()`: an optional `+`, then one or more ASCII digits whose
/// value fits in a `u16`.
pub open spec fn parse_u16_spec(s: Seq<char>) -> Option<u16> {
    let d = unsigned_digits(s);
    if d.len() > 0 && (forall|i: int| 0 <= i < d.len() ==> is_digit(#[trigger] d[i]))
        && digits_value(d) <= u16::MAX {
        Some(digits_value(d) as u16)
    } else {
        None
    }
}

proof fn lemma_digits_value_prefix_monotonic(s: Seq<char>, i: int)
    requires
        0 <= i <= s.len(),
    ensures
        digits_value(s.subrange(0, i)) <= digits_value(s),
    decreases s.len() - i,
{
    if i < s.len() {
        lemma_digits_value_prefix_monotonic(s, i + 1);
        assert(s.subrange(0, i + 1).drop_last() =~= s.subrange(0, i));
    } else {
        assert(s.subrange(0, i) =~= s);
    }
}

/// Parses a `u16` as `str::parse::<u16>` does.
pub fn parse_u16(s: &Vec<char>) -> (r: Option<u16>)
    ensures
        r == parse_u16_spec(s@),
{
    let ghost d = unsigned_digits(s@);
    let start: usize = if s.len() > 1 && s[0] == '+' { 1 } else { 0 };
    if s.len() == 1 && s[0] == '+' {
        assert(d.len() == 0);
        return None;
    }
    if start == s.len() {
        assert(d.len() == 0);
        return None;
    }
    assert(d =~= s@.subrange(start as int, s@.len() as int));
    let mut value: u32 = 0;
    let mut i: usize = start;
    while i < s.len()
        invariant
            start <= i <= s@.len(),
            d == unsigned_digits(s@),
            d =~= s@.subrange(start as int, s@.len() as int),
            forall|k: int| 0 <= k < i - start ==> is_digit(#[trigger] d[k]),
            value == digits_value(d.subrange(0, i - start)),
            value <= u16::MAX,
        decreases s@.len() - i,
    {
        let c = s[i];
        if !('0' <= c && c <= '9') {
            assert(!is_digit(d[i - start]));
            return None;
        }
        let digit: u32 = (c as u32) - 48;
        assert(d.subrange(0, i - start + 1).drop_last() =~= d.subrange(0, i - start));
        assert(d.subrange(0, i - start + 1).last() == c);
        let next: u32 = value * 10 + digit;
        assert(digits_value(d.subrange(0, i - start + 1)) == next);
        if next > 65535 {
            proof {
                lemma_digits_value_prefix_monotonic(d, i - start + 1);
            }
            return None;
        }
        value = next;
        i = i + 1;
    }
    assert(d.subrange(0, d.len() as int) =~= d);
    Some(value as u16)
}

pub proof fn lemma_decimal_digits_shape(n: nat)
    ensures
        decimal_digits(n).len() > 0,
        forall|i: int| 0 <= i < decimal_digits(n).len() ==> is_digit(#[trigger] decimal_digits(n)[i]),
        digits_value(decimal_digits(n)) == n,
    decreases n,
{
    assert(digit_value(digit_char(n % 10)) == n % 10);
    if n < 10 {
        assert(digits_value(decimal_digits(n)) == digits_value(seq![digit_char(n)]));
        assert(seq![digit_char(n)].drop_last() =~= Seq::<char>::empty());
        assert(digits_value(Seq::<char>::empty()) == 0);
        assert(n % 10 == n);
        assert(digits_value(seq![digit_char(n)]) == digit_value(digit_char(n)));
        assert(digits_value(decimal_digits(n)) == n);
    }
    if n >= 10 {
        lemma_decimal_digits_shape(n / 10);
        let prev = decimal_digits(n / 10);
        assert(decimal_digits(n).drop_last() =~= prev);
        assert(digits_value(decimal_digits(n)) == (n / 10) * 10 + n % 10);
        assert(n == (n / 10) * 10 + n % 10) by (nonlinear_arith);
        assert forall|i: int| 0 <= i < decimal_digits(n).len() implies is_digit(
            #[trigger] decimal_digits(n)[i],
        ) by {
            if i < prev.len() {
                assert(decimal_digits(n)[i] == prev[i]);
            }
        }
    }
}

/// Printing a port number in decimal and parsing it back gives the number:
/// the default port text and a configured port round-trip.
pub proof fn lemma_port_text_round_trip(n: u16)
    ensures
        parse_u16_spec(decimal_digits(n as nat)) == Some(n),
{
    lemma_decimal_digits_shape(n as nat);
    let s = decimal_digits(n as nat);
    assert(is_digit(s[0]));
}

/// A single character `c` first occurs at `k` when it does not occur in
/// `s[from..k]`.
pub proof fn lemma_first_char_occurrence(s: Seq<char>, c: char, from: int, k: int)
    requires
        0 <= from <= k < s.len(),
        s[k] == c,
        forall|i: int| from <= i < k ==> s[i] != c,
    ensures
        first_occurrence(s, seq![c], from) == Some(k),
    decreases k - from,
{
    if from == k {
        assert(s.subrange(k, k + 1) =~= seq![c]);
    } else {
        assert(s.subrange(from, from + 1)[0] != c);
        lemma_first_char_occurrence(s, c, from + 1, k);
    }
}

/// A single character `c` does not occur from `from` on when no position there
/// holds it.
pub proof fn lemma_no_char_occurrence(s: Seq<char>, c: char, from: int)
    requires
        0 <= from <= s.len(),
        forall|i: int| from <= i < s.len() ==> s[i] != c,
    ensures
        first_occurrence(s, seq![c], from) is None,
    decreases s.len() - from,
{
    if from < s.len() {
        assert(s.subrange(from, from + 1)[0] != c);
        lemma_no_char_occurrence(s, c, from + 1);
    }
}

/// A found occurrence lies at or after the start of the search and really is
/// an occurrence.
pub proof fn lemma_first_occurrence_found(s: Seq<char>, pat: Seq<char>, from: int)
    ensures
        first_occurrence(s, pat, from) matches Some(i) ==> from <= i && occurs_at(s, pat, i),
    decreases s.len() + 1 - from,
{
    if !(from < 0 || from + pat.len() > s.len()) && !occurs_at(s, pat, from) {
        lemma_first_occurrence_found(s, pat, from + 1);
    }
}

/// Positions where the pattern does not occur can be skipped.
pub proof fn lemma_skip_non_occurrences(s: Seq<char>, pat: Seq<char>, from: int, k: int)
    requires
        0 <= from <= k,
        forall|i: int| from <= i < k ==> !occurs_at(s, pat, i),
    ensures
        first_occurrence(s, pat, from) == first_occurrence(s, pat, k),
    decreases k - from,
{
    if from < k {
        lemma_skip_non_occurrences(s, pat, from + 1, k);
        if from + pat.len() > s.len() {
            assert(first_occurrence(s, pat, k) is None);
        }
    }
}

/// Searching in `a + b` from inside `b` finds what searching in `b` finds,
/// shifted by the length of `a`.
pub proof fn lemma_first_occurrence_shift(a: Seq<char>, b: Seq<char>, pat: Seq<char>, from: int)
    requires
        0 <= from,
    ensures
        first_occurrence(a + b, pat, a.len() + from) == match first_occurrence(b, pat, from) {
            Some(i) => Some(i + a.len()),
            None => None,
        },
    decreases b.len() + 1 - from,
{
    if from + pat.len() <= b.len() {
        assert((a + b).subrange(a.len() + from, a.len() + from + pat.len()) =~= b.subrange(
            from,
            from + pat.len(),
        ));
        if !occurs_at(b, pat, from) {
            lemma_first_occurrence_shift(a, b, pat, from + 1);
        }
    }
}

/// An occurrence at or after `from` is found by the search from `from`.
pub proof fn lemma_occurrence_is_found(s: Seq<char>, pat: Seq<char>, from: int, i: int)
    requires
        0 <= from <= i,
        occurs_at(s, pat, i),
    ensures
        first_occurrence(s, pat, from) is Some,
    decreases i - from,
{
    if from < i && !occurs_at(s, pat, from) {
        lemma_occurrence_is_found(s, pat, from + 1, i);
    }
}

} // verus!
