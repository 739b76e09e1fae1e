//! Character-sequence helpers used to build and inspect wire text.

use vstd::prelude::*;
use vstd::std_specs::iter::IteratorSpec;

verus! {

/// `pat` occurs in `s` starting at position `i`.
pub open spec fn occurs_at(s: Seq<char>, pat: Seq<char>, i: int) -> bool {
    0 <= i && i + pat.len() <= s.len() && s.subrange(i, i + pat.len()) == pat
}

/// JSON insignificant whitespace.
pub open spec fn is_json_space(c: char) -> bool {
    c == ' ' || c == '\t' || c == '\n' || c == '\r'
}

/// From position `j` on, `s` holds a `:` after nothing but whitespace.
pub open spec fn colon_from(s: Seq<char>, j: int) -> bool {
    exists|m: int|
        j <= m < s.len() && s[m] == ':' && forall|k: int| j <= k < m ==> is_json_space(#[trigger] s[k])
}

/// `pat` occurs at `i` as an object key: followed, after optional
/// whitespace, by a `:`.
pub open spec fn key_at(s: Seq<char>, pat: Seq<char>, i: int) -> bool {
    occurs_at(s, pat, i) && colon_from(s, i + pat.len())
}

/// `pat` occurs somewhere in `s` as an object key.
pub open spec fn has_key_seq(s: Seq<char>, pat: Seq<char>) -> bool {
    exists|i: int| key_at(s, pat, i)
}

/// The decimal digit character for `d < 10`.
pub open spec fn digit_char(d: nat) -> char {
    if d == 0 { '0' }
    else if d == 1 { '1' }
    else if d == 2 { '2' }
    else if d == 3 { '3' }
    else if d == 4 { '4' }
    else if d == 5 { '5' }
    else if d == 6 { '6' }
    else if d == 7 { '7' }
    else if d == 8 { '8' }
    else { '9' }
}

/// Decimal notation of a natural number, without leading zeros.
pub open spec fn decimal(n: nat) -> Seq<char>
    decreases n,
{
    if n < 10 {
        seq![digit_char(n)]
    } else {
        decimal(n / 10).push(digit_char(n % 10))
    }
}

/// Decimal notation of an integer, with a leading '-' when negative.
pub open spec fn signed_decimal(i: int) -> Seq<char> {
    if i < 0 {
        seq!['-'] + decimal((-i) as nat)
    } else {
        decimal(i as nat)
    }
}

/// The characters of a text, in order.
pub fn chars_of(s: &str) -> (r: Vec<char>)
    ensures
        r@ == s@,
{
    let mut out: Vec<char> = Vec::new();
    let mut it = s.chars();
    loop
        invariant
            it.obeys_prophetic_iter_laws(),
            it.decrease() is Some,
            out@ + it.remaining() == s@,
        decreases it.decrease()->0,
    {
        match it.next() {
            Some(c) => {
                out.push(c);
                assert(out@ + it.remaining() =~= s@);
            },
            None => {
                assert(out@ =~= s@);
                return out;
            },
        }
    }
}

/// Relies on `String: FromIterator<&char>`: the string holds these
/// characters, in order.
#[verifier::external_body]
pub fn string_of(v: &Vec<char>) -> (r: String)
    ensures
        r@ == v@,
{
    String::from_iter(v.iter())
}

/// Appends the characters of `s` to `out`.
pub fn push_str(out: &mut Vec<char>, s: &str)
    ensures
        final(out)@ == old(out)@ + s@,
{
    let mut cs = chars_of(s);
    out.append(&mut cs);
}

/// Appends the characters of `src` to `out`.
pub fn push_chars(out: &mut Vec<char>, src: &Vec<char>)
    ensures
        final(out)@ == old(out)@ + src@,
{
    let mut i: usize = 0;
    while i < src.len()
        invariant
            i <= src@.len(),
            out@ == old(out)@ + src@.subrange(0, i as int),
        decreases src@.len() - i,
    {
        out.push(src[i]);
        i = i + 1;
        assert(src@.subrange(0, i as int) == src@.subrange(0, i - 1).push(src@[i - 1]));
    }
    assert(src@.subrange(0, src@.len() as int) == src@);
}

fn digit(d: u64) -> (c: char)
    requires
        d < 10,
    ensures
        c == digit_char(d as nat),
{
    if d == 0 { '0' }
    else if d == 1 { '1' }
    else if d == 2 { '2' }
    else if d == 3 { '3' }
    else if d == 4 { '4' }
    else if d == 5 { '5' }
    else if d == 6 { '6' }
    else if d == 7 { '7' }
    else if d == 8 { '8' }
    else { '9' }
}

/// Appends the decimal notation of `n` to `out`.
pub fn push_decimal(out: &mut Vec<char>, n: u64)
    ensures
        final(out)@ == old(out)@ + decimal(n as nat),
    decreases n,
{
    if n < 10 {
        out.push(digit(n));
    } else {
        push_decimal(out, n / 10);
        out.push(digit(n % 10));
    }
}

/// Appends the decimal notation of the signed value `n` to `out`.
pub fn push_signed(out: &mut Vec<char>, n: i64)
    ensures
        final(out)@ == old(out)@ + signed_decimal(n as int),
{
    if n < 0 {
        out.push('-');
        let m: u64 = if n == i64::MIN { 9223372036854775808u64 } else { (-n) as u64 };
        push_decimal(out, m);
    } else {
        push_decimal(out, n as u64);
    }
}

fn matches_at(s: &Vec<char>, pat: &Vec<char>, i: usize) -> (r: bool)
    requires
        i + pat@.len() <= s@.len(),
    ensures
        r == occurs_at(s@, pat@, i as int),
{
    let n = s.len();
    let mut k: usize = 0;
    while k < pat.len()
        invariant
            i + pat@.len() <= s@.len(),
            n == s@.len(),
            k <= pat@.len(),
            forall|j: int| 0 <= j < k ==> s@[i + j] == pat@[j],
        decreases pat@.len() - k,
    {
        if s[i + k] != pat[k] {
            assert(s@.subrange(i as int, i + pat@.len())[k as int] != pat@[k as int]);
            return false;
        }
        k = k + 1;
    }
    assert(s@.subrange(i as int, i + pat@.len()) =~= pat@);
    true
}

/// Whether the characters of `a` are exactly those of `b`.
pub fn chars_eq(a: &Vec<char>, b: &str) -> (r: bool)
    ensures
        r == (a@ == b@),
{
    let y = chars_of(b);
    if a.len() != y.len() {
        return false;
    }
    let mut i: usize = 0;
    while i < a.len()
        invariant
            a@.len() == y@.len(),
            y@ == b@,
            i <= a@.len(),
            forall|j: int| 0 <= j < i ==> a@[j] == y@[j],
        decreases a@.len() - i,
    {
        if a[i] != y[i] {
            return false;
        }
        i = i + 1;
    }
    assert(a@ =~= y@);
    true
}

/// Whether two texts are equal.
pub fn str_eq(a: &str, b: &str) -> (r: bool)
    ensures
        r == (a@ == b@),
{
    chars_eq(&chars_of(a), b)
}

fn colon_follows(s: &Vec<char>, j: usize) -> (r: bool)
    requires
        j <= s@.len(),
    ensures
        r == colon_from(s@, j as int),
{
    let n = s.len();
    let mut m: usize = j;
    while m < n && (s[m] == ' ' || s[m] == '\t' || s[m] == '\n' || s[m] == '\r')
        invariant
            n == s@.len(),
            j <= m <= n,
            forall|k: int| j <= k < m ==> is_json_space(#[trigger] s@[k]),
        decreases n - m,
    {
        m = m + 1;
    }
    if m < n && s[m] == ':' {
        return true;
    }
    assert forall|w: int|
        !(j <= w < s@.len() && s@[w] == ':' && forall|k: int|
            j <= k < w ==> is_json_space(#[trigger] s@[k])) by {
        if j <= w < s@.len() && s@[w] == ':' && forall|k: int|
            j <= k < w ==> is_json_space(#[trigger] s@[k]) {
            if w < m {
                assert(is_json_space(s@[w]));
            } else if w > m {
                assert(is_json_space(s@[m as int]));
            }
        }
    }
    false
}

/// Whether `pat` occurs in `s` as an object key.
pub fn contains_key(s: &Vec<char>, pat: &Vec<char>) -> (r: bool)
    ensures
        r == has_key_seq(s@, pat@),
{
    if pat.len() > s.len() {
        return false;
    }
    let n = s.len();
    let pl = pat.len();
    let last: usize = n - pl;
    let mut i: usize = 0;
    while i <= last
        invariant
            n == s@.len(),
            pl == pat@.len(),
            last == s@.len() - pat@.len(),
            forall|j: int| 0 <= j < i ==> !key_at(s@, pat@, j),
        ensures
            forall|j: int| 0 <= j <= last ==> !key_at(s@, pat@, j),
        decreases last + 1 - i,
    {
        if matches_at(s, pat, i) && colon_follows(s, i + pl) {
            assert(key_at(s@, pat@, i as int));
            return true;
        }
        if i == last {
            break;
        }
        i = i + 1;
    }
    assert forall|j: int| !key_at(s@, pat@, j) by {
        if 0 <= j && j + pat@.len() <= s@.len() {
            assert(j <= last);
        }
    }
    false
}

/// Whether the text `s` holds `key` (quotes included) as an object key.
pub fn str_has_key(s: &str, key: &str) -> (r: bool)
    ensures
        r == has_key_seq(s@, key@),
{
    let sc = chars_of(s);
    let kc = chars_of(key);
    contains_key(&sc, &kc)
}

} // verus!
