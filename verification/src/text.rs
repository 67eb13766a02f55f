//! Character-level helpers shared by the parsers and renderers.
//!
//! Everything here is stated over `Seq<char>`, the view of `str` and `String`.

use vstd::prelude::*;
use vstd::utf8::encode_utf8_decode_utf8;
use vstd::string::StringSliceAdditionalSpecFns;

verus! {

/// The characters of `s`, in order.
pub fn chars_of(s: &str) -> (v: Vec<char>)
    ensures
        v@ == s@,
{
    let mut v: Vec<char> = Vec::new();
    for c in it: s.chars()
        invariant
            it.seq() == s@,
            v@ == it.seq().take(it.index() as int),
    {
        v.push(c);
    }
    v
}

/// A copy of `text`.
pub fn clone_option(text: &Option<String>) -> (r: Option<String>)
    ensures
        r == *text,
{
    match text {
        Some(t) => Some(t.clone()),
        None => None,
    }
}

/// Two strings are equal exactly when their UTF-8 encodings are.
pub proof fn lemma_equal_bytes_equal_text(a: &str, b: &str)
    ensures
        (a.spec_bytes() == b.spec_bytes()) == (a@ == b@),
{
    encode_utf8_decode_utf8(a@);
    encode_utf8_decode_utf8(b@);
}

/// Whether `a` and `b` hold the same characters.
pub fn str_eq(a: &str, b: &str) -> (r: bool)
    ensures
        r == (a@ == b@),
{
    let x = a.as_bytes();
    let y = b.as_bytes();
    proof {
        lemma_equal_bytes_equal_text(a, b);
    }
    if x.len() != y.len() {
        return false;
    }
    let n: usize = x.len();
    let mut i: usize = 0;
    while i < n
        invariant
            i <= n,
            n == x@.len(),
            n == y@.len(),
            x@.take(i as int) == y@.take(i as int),
            (x@ == y@) == (a@ == b@),
        decreases n - i,
    {
        if x[i] != y[i] {
            return false;
        }
        i += 1;
    }
    assert(x@.take(n as int) =~= x@);
    assert(y@.take(n as int) =~= y@);
    true
}

/// The ASCII lower-case form of `c`; characters outside `A..=Z` are unchanged.
pub open spec fn ascii_lower(c: char) -> char {
    if 'A' <= c && c <= 'Z' {
        ((c as u8) + 32) as char
    } else {
        c
    }
}

/// `s` with every character replaced by its ASCII lower-case form.
pub open spec fn fold_case(s: Seq<char>) -> Seq<char> {
    s.map_values(|c: char| ascii_lower(c))
}

/// `pat` stands in `hay` at index `at`.
pub open spec fn occurs_at(hay: Seq<char>, at: int, pat: Seq<char>) -> bool {
    &&& 0 <= at
    &&& at + pat.len() <= hay.len()
    &&& hay.subrange(at, at + pat.len()) == pat
}

/// The least index at or after `from` where `pat` stands in `hay`.
pub open spec fn first_occurrence(hay: Seq<char>, pat: Seq<char>, from: int) -> Option<int>
    decreases hay.len() - from + 1,
{
    if from < 0 || from + pat.len() > hay.len() {
        None
    } else if occurs_at(hay, from, pat) {
        Some(from)
    } else {
        first_occurrence(hay, pat, from + 1)
    }
}

/// `pat` stands somewhere in `hay`.
pub open spec fn contains_text(hay: Seq<char>, pat: Seq<char>) -> bool {
    exists|i: int| occurs_at(hay, i, pat)
}

/// What `first_occurrence` finds is the least match, and `None` means there is none.
pub proof fn lemma_first_occurrence(hay: Seq<char>, pat: Seq<char>, from: int)
    requires
        0 <= from,
    ensures
        match first_occurrence(hay, pat, from) {
            Some(i) => {
                &&& from <= i
                &&& occurs_at(hay, i, pat)
                &&& forall|j: int| from <= j < i ==> !occurs_at(hay, j, pat)
            },
            None => forall|j: int| from <= j ==> !occurs_at(hay, j, pat),
        },
    decreases hay.len() - from + 1,
{
    if from + pat.len() > hay.len() {
    } else if occurs_at(hay, from, pat) {
    } else {
        lemma_first_occurrence(hay, pat, from + 1);
    }
}

/// A search from the start finds a match exactly when the text contains the pattern.
pub proof fn lemma_contains_text(hay: Seq<char>, pat: Seq<char>)
    ensures
        contains_text(hay, pat) == first_occurrence(hay, pat, 0).is_some(),
{
    lemma_first_occurrence(hay, pat, 0);
}

/// The ASCII lower-case form of `c`.
pub fn to_lower(c: char) -> (r: char)
    ensures
        r == ascii_lower(c),
{
    if 'A' <= c && c <= 'Z' {
        ((c as u8) + 32u8) as char
    } else {
        c
    }
}

/// The ASCII lower-case form of `v`.
pub fn folded(v: &Vec<char>) -> (r: Vec<char>)
    ensures
        r@ == fold_case(v@),
{
    let mut r: Vec<char> = Vec::new();
    let mut i: usize = 0;
    while i < v.len()
        invariant
            i <= v.len(),
            r@ == fold_case(v@.take(i as int)),
        decreases v.len() - i,
    {
        r.push(to_lower(v[i]));
        i += 1;
    }
    r
}

/// Whether `pat` stands in `hay` at index `at`.
pub fn matches_at(hay: &Vec<char>, at: usize, pat: &Vec<char>) -> (r: bool)
    ensures
        r == occurs_at(hay@, at as int, pat@),
{
    if pat.len() > hay.len() || at > hay.len() - pat.len() {
        return false;
    }
    let mut k: usize = 0;
    while k < pat.len()
        invariant
            k <= pat.len(),
            at + pat.len() <= hay.len(),
            hay@.subrange(at as int, at + k) == pat@.take(k as int),
        decreases pat.len() - k,
    {
        if hay[at + k] != pat[k] {
            return false;
        }
        k += 1;
    }
    assert(pat@.take(pat.len() as int) =~= pat@);
    true
}

/// The least index at or after `from` where `pat` stands in `hay`.
pub fn find_from(hay: &Vec<char>, pat: &Vec<char>, from: usize) -> (r: Option<usize>)
    ensures
        match r {
            Some(i) => first_occurrence(hay@, pat@, from as int) == Some(i as int),
            None => first_occurrence(hay@, pat@, from as int).is_none(),
        },
{
    if pat.len() > hay.len() {
        return None;
    }
    let last: usize = hay.len() - pat.len();
    let mut i: usize = from;
    while i <= last
        invariant
            from <= i,
            last == hay.len() - pat.len(),
            first_occurrence(hay@, pat@, from as int) == first_occurrence(hay@, pat@, i as int),
        decreases last + 1 - i,
    {
        if matches_at(hay, i, pat) {
            return Some(i);
        }
        if i == last {
            assert(first_occurrence(hay@, pat@, i + 1).is_none());
            return None;
        }
        i += 1;
    }
    None
}

/// Whether `pat` stands somewhere in `hay`.
pub fn contains(hay: &Vec<char>, pat: &Vec<char>) -> (r: bool)
    ensures
        r == contains_text(hay@, pat@),
{
    proof {
        lemma_contains_text(hay@, pat@);
    }
    find_from(hay, pat, 0).is_some()
}

/// The character for the decimal digit `d`.
pub open spec fn digit_char(d: int) -> char
    recommends
        0 <= d < 10,
{
    (('0' as u8) + d) as char
}

/// The decimal numeral of `n`, without sign or leading zeros.
pub open spec fn decimal_nat(n: nat) -> Seq<char>
    decreases n,
{
    if n < 10 {
        seq![digit_char(n as int)]
    } else {
        decimal_nat(n / 10).push(digit_char((n % 10) as int))
    }
}

/// The decimal numeral of `n`, with a leading `-` when it is negative.
pub open spec fn decimal(n: int) -> Seq<char> {
    if n < 0 {
        seq!['-'] + decimal_nat((-n) as nat)
    } else {
        decimal_nat(n as nat)
    }
}

/// The decimal digit `d` as text.
pub fn digit_str(d: u8) -> (r: &'static str)
    requires
        d < 10,
    ensures
        r@ == seq![digit_char(d as int)],
{
    proof {
        reveal_strlit("0");
        reveal_strlit("1");
        reveal_strlit("2");
        reveal_strlit("3");
        reveal_strlit("4");
        reveal_strlit("5");
        reveal_strlit("6");
        reveal_strlit("7");
        reveal_strlit("8");
        reveal_strlit("9");
    }
    let r = match d {
        0 => "0",
        1 => "1",
        2 => "2",
        3 => "3",
        4 => "4",
        5 => "5",
        6 => "6",
        7 => "7",
        8 => "8",
        _ => "9",
    };
    r
}

/// The decimal numeral of `n`.
pub fn render_nat(n: u64) -> (r: String)
    ensures
        r@ == decimal_nat(n as nat),
    decreases n,
{
    if n < 10 {
        digit_str(n as u8).to_owned()
    } else {
        let mut r = render_nat(n / 10);
        r.append(digit_str((n % 10) as u8));
        r
    }
}

/// The decimal numeral of `n`.
pub fn render_int(n: i64) -> (r: String)
    ensures
        r@ == decimal(n as int),
{
    if n < 0 {
        let magnitude: u64 = ((-(n + 1)) as u64) + 1;
        let mut r = "-".to_owned();
        proof {
            reveal_strlit("-");
        }
        let digits = render_nat(magnitude);
        r.append(digits.as_str());
        r
    } else {
        render_nat(n as u64)
    }
}

/// The end of the run of characters that pass `keep` and starts at `start`:
/// the least index at or after `start` that is the end of the text or holds a
/// character that fails `keep`.
pub open spec fn run_end(s: Seq<char>, start: int, keep: spec_fn(char) -> bool) -> int
    decreases s.len() - start,
{
    if start < 0 || start >= s.len() || !keep(s[start]) {
        start
    } else {
        run_end(s, start + 1, keep)
    }
}

/// The start of the run of characters that pass `keep` and ends at `end`:
/// the greatest index at or before `end` that is the start of the text or
/// follows a character that fails `keep`.
pub open spec fn run_start(s: Seq<char>, end: int, keep: spec_fn(char) -> bool) -> int
    decreases end,
{
    if end <= 0 || end > s.len() || !keep(s[end - 1]) {
        end
    } else {
        run_start(s, end - 1, keep)
    }
}

} // verus!
