//! Character-level helpers shared by the argument builders and the parsers.

use vstd::prelude::*;
use vstd::string::*;

verus! {

/// The character of a decimal digit.
pub open spec fn digit_char(d: nat) -> char {
    if d == 0 { '0' }
    else if d == 1 { '1' }
    else if d == 2 { '2' }
    else if d == 3 { '3' }
    else if d == 4 { '4' }
    else if d == 5 { '5' }
    else if d == 6 { '6' }
    else if d == 7 { '7' }
    else if d == 8 { '8' }
    else { '9' }
}

/// The decimal representation of a natural number, without sign or leading zeros.
pub open spec fn decimal(n: nat) -> Seq<char>
    decreases n,
{
    if n < 10 {
        seq![digit_char(n)]
    } else {
        decimal(n / 10).push(digit_char(n % 10))
    }
}

fn digit_str(d: u64) -> (s: &'static str)
    requires
        d < 10,
    ensures
        s@ == seq![digit_char(d as nat)],
{
    proof {
        reveal_strlit("0");
        reveal_strlit("1");
        reveal_strlit("2");
        reveal_strlit("3");
        reveal_strlit("4");
        reveal_strlit("5");
        reveal_strlit("6");
        reveal_strlit("7");
        reveal_strlit("8");
        reveal_strlit("9");
    }
    match d {
        0 => "0",
        1 => "1",
        2 => "2",
        3 => "3",
        4 => "4",
        5 => "5",
        6 => "6",
        7 => "7",
        8 => "8",
        _ => "9",
    }
}

/// Renders `n` in decimal, as `u64::to_string` does.
pub fn u64_text(n: u64) -> (s: String)
    ensures
        s@ == decimal(n as nat),
    decreases n,
{
    if n < 10 {
        String::from_str(digit_str(n))
    } else {
        let mut s = u64_text(n / 10);
        s.append(digit_str(n % 10));
        s
    }
}

/// The characters of a string, in order.
pub fn chars_of(s: &str) -> (v: Vec<char>)
    ensures
        v@ == s@,
{
    let mut v: Vec<char> = Vec::new();
    for c in it: s.chars()
        invariant
            v@ == it.seq().take(it.index() as int),
            it.seq() == s@,
    {
        v.push(c);
    }
    v
}

} // verus!

verus! {

/// Unicode `White_Space`, the set that `char::is_whitespace` and `str::trim` use.
pub open spec fn is_whitespace(c: char) -> bool {
    let u = c as u32;
    ||| 0x9 <= u <= 0xd
    ||| u == 0x20
    ||| u == 0x85
    ||| u == 0xa0
    ||| u == 0x1680
    ||| 0x2000 <= u <= 0x200a
    ||| u == 0x2028
    ||| u == 0x2029
    ||| u == 0x202f
    ||| u == 0x205f
    ||| u == 0x3000
}

pub fn char_is_whitespace(c: char) -> (b: bool)
    ensures
        b == is_whitespace(c),
{
    let u = c as u32;
    (0x9 <= u && u <= 0xd) || u == 0x20 || u == 0x85 || u == 0xa0 || u == 0x1680 || (0x2000 <= u
        && u <= 0x200a) || u == 0x2028 || u == 0x2029 || u == 0x202f || u == 0x205f || u == 0x3000
}

/// `s` without its leading whitespace.
pub open spec fn trim_start(s: Seq<char>) -> Seq<char>
    decreases s.len(),
{
    if s.len() > 0 && is_whitespace(s[0]) {
        trim_start(s.drop_first())
    } else {
        s
    }
}

/// `s` without its trailing whitespace.
pub open spec fn trim_end(s: Seq<char>) -> Seq<char>
    decreases s.len(),
{
    if s.len() > 0 && is_whitespace(s.last()) {
        trim_end(s.drop_last())
    } else {
        s
    }
}

/// `s` without leading and trailing whitespace, as `str::trim` gives it.
pub open spec fn trim(s: Seq<char>) -> Seq<char> {
    trim_end(trim_start(s))
}

/// `s` without the trailing characters that occur in `set`.
pub open spec fn trim_end_in(s: Seq<char>, set: Seq<char>) -> Seq<char>
    decreases s.len(),
{
    if s.len() > 0 && set.contains(s.last()) {
        trim_end_in(s.drop_last(), set)
    } else {
        s
    }
}

/// The bounds of the trimmed part of `v`.
pub fn trim_bounds(v: &Vec<char>) -> (r: (usize, usize))
    ensures
        r.0 <= r.1 <= v.len(),
        v@.subrange(r.0 as int, r.1 as int) == trim(v@),
{
    let n = v.len();
    let mut a: usize = 0;
    assert(v@.subrange(0, n as int) =~= v@);
    while a < n && char_is_whitespace(v[a])
        invariant
            a <= n == v.len(),
            trim_start(v@.subrange(a as int, n as int)) == trim_start(v@),
        decreases n - a,
    {
        assert(v@.subrange(a as int, n as int).drop_first() =~= v@.subrange(a + 1, n as int));
        a = a + 1;
    }
    assert(trim_start(v@) == v@.subrange(a as int, n as int));
    let mut b: usize = n;
    while b > a && char_is_whitespace(v[b - 1])
        invariant
            a <= b <= n == v.len(),
            trim_start(v@) == v@.subrange(a as int, n as int),
            trim_end(v@.subrange(a as int, b as int)) == trim(v@),
        decreases b,
    {
        assert(v@.subrange(a as int, b as int).drop_last() =~= v@.subrange(a as int, b - 1));
        b = b - 1;
    }
    (a, b)
}

/// The bound below which `v[..hi]` keeps no trailing character of `set`.
pub fn trim_end_in_bound(v: &Vec<char>, hi: usize, set: &[char]) -> (b: usize)
    requires
        hi <= v.len(),
    ensures
        b <= hi,
        v@.subrange(0, b as int) == trim_end_in(v@.subrange(0, hi as int), set@),
{
    let mut b: usize = hi;
    while b > 0 && slice_has(set, v[b - 1])
        invariant
            b <= hi <= v.len(),
            trim_end_in(v@.subrange(0, b as int), set@) == trim_end_in(
                v@.subrange(0, hi as int),
                set@,
            ),
        decreases b,
    {
        assert(v@.subrange(0, b as int).drop_last() =~= v@.subrange(0, b - 1));
        b = b - 1;
    }
    b
}

/// Whether `set` holds `c`.
pub fn slice_has(set: &[char], c: char) -> (b: bool)
    ensures
        b == set@.contains(c),
{
    let mut i: usize = 0;
    while i < set.len()
        invariant
            i <= set@.len(),
            forall|j: int| 0 <= j < i ==> set@[j] != c,
        decreases set.len() - i,
    {
        if set[i] == c {
            return true;
        }
        i = i + 1;
    }
    false
}

/// `needle` occurs in `hay` starting at index `i`.
pub open spec fn occurs_at(hay: Seq<char>, needle: Seq<char>, i: int) -> bool {
    0 <= i && i + needle.len() <= hay.len() && hay.subrange(i, i + needle.len()) == needle
}

/// `needle` occurs somewhere in `hay`, as `str::contains` with a string pattern checks.
pub open spec fn contains_text(hay: Seq<char>, needle: Seq<char>) -> bool {
    exists|i: int| occurs_at(hay, needle, i)
}

/// Whether `needle` occurs in `hay` at `i`.
fn matches_at(hay: &Vec<char>, needle: &Vec<char>, i: usize) -> (b: bool)
    requires
        i + needle.len() <= hay.len(),
    ensures
        b == occurs_at(hay@, needle@, i as int),
{
    let m = needle.len();
    let mut j: usize = 0;
    while j < m
        invariant
            j <= m == needle.len(),
            i + m <= hay.len(),
            forall|k: int| 0 <= k < j ==> hay@[i + k] == needle@[k],
        decreases m - j,
    {
        if hay[i + j] != needle[j] {
            assert(hay@.subrange(i as int, i + m)[j as int] != needle@[j as int]);
            return false;
        }
        j = j + 1;
    }
    assert(hay@.subrange(i as int, i + m) =~= needle@);
    true
}

/// Whether `needle` occurs in `hay`.
pub fn chars_contain(hay: &Vec<char>, needle: &Vec<char>) -> (b: bool)
    ensures
        b == contains_text(hay@, needle@),
{
    let n = hay.len();
    let m = needle.len();
    if m > n {
        assert forall|i: int| !occurs_at(hay@, needle@, i) by {}
        return false;
    }
    if m == 0 {
        assert(hay@.subrange(0, 0) =~= needle@);
        assert(occurs_at(hay@, needle@, 0));
        return true;
    }
    let mut i: usize = 0;
    while i <= n - m
        invariant
            1 <= m <= n,
            n == hay.len(),
            m == needle.len(),
            forall|k: int| 0 <= k < i ==> !occurs_at(hay@, needle@, k),
        decreases n - m + 1 - i,
    {
        if matches_at(hay, needle, i) {
            return true;
        }
        i = i + 1;
    }
    assert forall|k: int| !occurs_at(hay@, needle@, k) by {
        if 0 <= k < i {
        }
    }
    false
}

/// Whether `needle` occurs in `hay`, as `str::contains` reports it.
pub fn str_contains(hay: &str, needle: &str) -> (b: bool)
    ensures
        b == contains_text(hay@, needle@),
{
    let h = chars_of(hay);
    let n = chars_of(needle);
    chars_contain(&h, &n)
}

} // verus!

verus! {

/// An ASCII decimal digit.
pub open spec fn is_digit(c: char) -> bool {
    48 <= (c as u32) <= 57
}

pub open spec fn digit_value(c: char) -> nat {
    ((c as u32) - 48) as nat
}

pub open spec fn all_digits(s: Seq<char>) -> bool {
    forall|i: int| 0 <= i < s.len() ==> is_digit(#[trigger] s[i])
}

/// The number that a run of decimal digits denotes.
pub open spec fn digits_value(s: Seq<char>) -> nat
    decreases s.len(),
{
    if s.len() == 0 {
        0
    } else {
        digits_value(s.drop_last()) * 10 + digit_value(s.last())
    }
}

/// The digits of an unsigned number: `s` without one leading `+`.
pub open spec fn unsigned_body(s: Seq<char>) -> Seq<char> {
    if s.len() > 0 && s[0] == '+' {
        s.drop_first()
    } else {
        s
    }
}

/// What `FromStr` for an unsigned integer type whose largest value is `max` yields: an
/// optional `+`, then at least one ASCII digit and nothing else, denoting at most `max`.
pub open spec fn parse_unsigned(s: Seq<char>, max: nat) -> Option<nat> {
    let d = unsigned_body(s);
    if d.len() > 0 && all_digits(d) && digits_value(d) <= max {
        Some(digits_value(d))
    } else {
        None
    }
}

/// What `FromStr` for a signed integer type yields: a `-` followed by the digits of at most
/// `min_magnitude`, or an unsigned number of at most `max`.
pub open spec fn parse_signed(s: Seq<char>, min_magnitude: nat, max: nat) -> Option<int> {
    if s.len() > 0 && s[0] == '-' {
        let d = s.drop_first();
        if d.len() > 0 && all_digits(d) && digits_value(d) <= min_magnitude {
            Some(-(digits_value(d) as int))
        } else {
            None
        }
    } else {
        match parse_unsigned(s, max) {
            Some(v) => Some(v as int),
            None => None,
        }
    }
}

proof fn lemma_digits_prefix_le(s: Seq<char>, k: int)
    requires
        all_digits(s),
        0 <= k <= s.len(),
    ensures
        digits_value(s.take(k)) <= digits_value(s),
    decreases s.len(),
{
    if k < s.len() {
        let t = s.drop_last();
        assert(all_digits(t)) by {
            assert forall|i: int| 0 <= i < t.len() implies is_digit(#[trigger] t[i]) by {
                assert(t[i] == s[i]);
            }
        }
        lemma_digits_prefix_le(t, k);
        assert(t.take(k) =~= s.take(k));
    } else {
        assert(s.take(k) =~= s);
    }
}

/// The value of the digits `v[lo..hi]`, if they are all digits and denote at most `max`.
fn digits_in(v: &Vec<char>, lo: usize, hi: usize, max: u64) -> (r: Option<u64>)
    requires
        lo <= hi <= v.len(),
        max < 0x1_0000_0000,
    ensures
        ({
            let d = v@.subrange(lo as int, hi as int);
            match r {
                Some(x) => all_digits(d) && x == digits_value(d) && x <= max,
                None => !(all_digits(d) && digits_value(d) <= max),
            }
        }),
{
    let ghost d = v@.subrange(lo as int, hi as int);
    let mut acc: u64 = 0;
    let mut i: usize = lo;
    assert(d.take(0) =~= Seq::<char>::empty());
    while i < hi
        invariant
            lo <= i <= hi <= v.len(),
            max < 0x1_0000_0000,
            d == v@.subrange(lo as int, hi as int),
            all_digits(d.take(i - lo)),
            acc == digits_value(d.take(i - lo)),
            acc <= max,
        decreases hi - i,
    {
        let c = v[i];
        let u = c as u32;
        if u < 48 || u > 57 {
            assert(!is_digit(d[i - lo]));
            return None;
        }
        let next = acc * 10 + (u - 48) as u64;
        proof {
            let k = (i - lo) as int;
            assert(d.take(k + 1).drop_last() =~= d.take(k));
            assert(d.take(k + 1).last() == c);
            assert(all_digits(d.take(k + 1))) by {
                assert forall|j: int| 0 <= j < k + 1 implies is_digit(#[trigger] d.take(k + 1)[j]) by {
                    if j < k {
                        assert(d.take(k + 1)[j] == d.take(k)[j]);
                    }
                }
            }
        }
        if next > max {
            proof {
                let k = (i - lo) as int;
                if all_digits(d) {
                    lemma_digits_prefix_le(d, k + 1);
                }
            }
            return None;
        }
        acc = next;
        i = i + 1;
    }
    assert(d.take(hi - lo) =~= d);
    Some(acc)
}

/// Parses `s` as `FromStr` does for an unsigned integer type whose largest value is `max`.
pub fn parse_unsigned_text(s: &str, max: u64) -> (r: Option<u64>)
    requires
        max < 0x1_0000_0000,
    ensures
        match r {
            Some(x) => parse_unsigned(s@, max as nat) == Some(x as nat),
            None => parse_unsigned(s@, max as nat) is None,
        },
{
    let v = chars_of(s);
    let n = v.len();
    let lo: usize = if n > 0 && v[0] == '+' { 1 } else { 0 };
    assert(v@.subrange(lo as int, n as int) =~= unsigned_body(s@));
    if lo == n {
        return None;
    }
    digits_in(&v, lo, n, max)
}

/// Parses `s` as `FromStr` does for a signed integer type whose range is `-min_magnitude..=max`.
pub fn parse_signed_text(s: &str, min_magnitude: u64, max: u64) -> (r: Option<i64>)
    requires
        min_magnitude < 0x1_0000_0000,
        max < 0x1_0000_0000,
    ensures
        match r {
            Some(x) => parse_signed(s@, min_magnitude as nat, max as nat) == Some(x as int),
            None => parse_signed(s@, min_magnitude as nat, max as nat) is None,
        },
{
    let v = chars_of(s);
    let n = v.len();
    if n > 0 && v[0] == '-' {
        assert(v@.subrange(1, n as int) =~= s@.drop_first());
        if n == 1 {
            return None;
        }
        match digits_in(&v, 1, n, min_magnitude) {
            Some(x) => Some(-(x as i64)),
            None => None,
        }
    } else {
        let lo: usize = if n > 0 && v[0] == '+' { 1 } else { 0 };
        assert(v@.subrange(lo as int, n as int) =~= unsigned_body(s@));
        if lo == n {
            return None;
        }
        match digits_in(&v, lo, n, max) {
            Some(x) => Some(x as i64),
            None => None,
        }
    }
}

} // verus!

verus! {

/// The decimal representation of an integer, with a leading `-` when it is negative.
pub open spec fn signed_decimal(n: int) -> Seq<char> {
    if n < 0 {
        seq!['-'] + decimal((-n) as nat)
    } else {
        decimal(n as nat)
    }
}

/// Renders `n` in decimal, as `i64::to_string` does.
pub fn i64_text(n: i64) -> (s: String)
    ensures
        s@ == signed_decimal(n as int),
{
    if n < 0 {
        let mag: u64 = if n == i64::MIN {
            0x8000_0000_0000_0000u64
        } else {
            (-n) as u64
        };
        let mut s = String::from_str("-");
        proof {
            reveal_strlit("-");
        }
        let digits = u64_text(mag);
        s.append(digits.as_str());
        s
    } else {
        u64_text(n as u64)
    }
}

/// The index of the last occurrence of `c` in `s`, or `-1` when there is none.
pub open spec fn last_index(s: Seq<char>, c: char) -> int
    decreases s.len(),
{
    if s.len() == 0 {
        -1
    } else if s.last() == c {
        s.len() - 1
    } else {
        last_index(s.drop_last(), c)
    }
}

pub proof fn lemma_last_index(s: Seq<char>, c: char)
    ensures
        -1 <= last_index(s, c) < s.len(),
        last_index(s, c) >= 0 ==> s[last_index(s, c)] == c,
        forall|j: int| last_index(s, c) < j < s.len() ==> s[j] != c,
    decreases s.len(),
{
    if s.len() > 0 && s.last() != c {
        let t = s.drop_last();
        lemma_last_index(t, c);
        assert forall|j: int| last_index(s, c) < j < s.len() implies s[j] != c by {
            if j < t.len() {
                assert(s[j] == t[j]);
            }
        }
    }
}

/// The index of the last `c` in `v[lo..hi]`, relative to `lo`.
pub fn last_index_in(v: &Vec<char>, lo: usize, hi: usize, c: char) -> (r: Option<usize>)
    requires
        lo <= hi <= v.len(),
    ensures
        match r {
            Some(j) => j == last_index(v@.subrange(lo as int, hi as int), c),
            None => last_index(v@.subrange(lo as int, hi as int), c) == -1,
        },
{
    let ghost s = v@.subrange(lo as int, hi as int);
    let mut j: usize = hi;
    while j > lo
        invariant
            lo <= j <= hi <= v.len(),
            s == v@.subrange(lo as int, hi as int),
            last_index(s, c) == last_index(v@.subrange(lo as int, j as int), c),
        decreases j,
    {
        assert(v@.subrange(lo as int, j as int).drop_last() =~= v@.subrange(lo as int, j - 1));
        if v[j - 1] == c {
            return Some(j - 1 - lo);
        }
        j = j - 1;
    }
    None
}

} // verus!

verus! {

/// Names the text that `String::from_utf8_lossy` makes of `bytes`: invalid sequences are
/// replaced by U+FFFD.
pub uninterp spec fn lossy_utf8(bytes: Seq<u8>) -> Seq<char>;

/// Calls `String::from_utf8_lossy`. Claimed of it: the result is the text that `lossy_utf8`
/// names for the bytes, and bytes that are valid UTF-8 are decoded without any replacement.
/// What it makes of invalid bytes is left to the name.
#[verifier::external_body]
pub(crate) fn utf8_lossy(bytes: &[u8]) -> (s: String)
    ensures
        s@ == lossy_utf8(bytes@),
        vstd::utf8::valid_utf8(bytes@) ==> s@ == vstd::utf8::decode_utf8(bytes@),
{
    String::from_utf8_lossy(bytes).into_owned()
}

/// Names the text that the `Debug` formatting of a `str` yields for `s`: the string in
/// double quotes, with special characters escaped.
pub uninterp spec fn debug_quoted(s: Seq<char>) -> Seq<char>;

/// Calls the `Debug` formatting of `str`. Claimed of it: the result is the text that
/// `debug_quoted` names for the string; which characters it escapes is left to the name.
#[verifier::external_body]
pub(crate) fn str_debug(s: &str) -> (r: String)
    ensures
        r@ == debug_quoted(s@),
{
    format!("{:?}", s)
}

/// Names the text that the `Debug` formatting of a `std::time::Duration` of `secs` seconds
/// and `nanos` nanoseconds yields, such as `20ms` or `1.5s`.
pub uninterp spec fn duration_debug(secs: nat, nanos: nat) -> Seq<char>;

/// Calls `Duration::new` and its `Debug` formatting. Claimed of it: the result is the text
/// that `duration_debug` names for the two numbers. `nanos` is kept below a second, so that
/// `Duration::new` cannot overflow and panic.
#[verifier::external_body]
pub(crate) fn duration_text(secs: u64, nanos: u32) -> (r: String)
    requires
        nanos < 1_000_000_000,
    ensures
        r@ == duration_debug(secs as nat, nanos as nat),
{
    format!("{:?}", std::time::Duration::new(secs, nanos))
}

/// `"true"` or `"false"`, as `bool` displays.
pub open spec fn bool_text(b: bool) -> Seq<char> {
    if b {
        "true"@
    } else {
        "false"@
    }
}

pub fn bool_string(b: bool) -> (s: String)
    ensures
        s@ == bool_text(b),
{
    if b {
        String::from_str("true")
    } else {
        String::from_str("false")
    }
}

} // verus!

verus! {

/// The view of an optional string.
pub open spec fn opt_text(o: Option<&str>) -> Option<Seq<char>> {
    match o {
        Some(s) => Some(s@),
        None => None,
    }
}

/// The views of a sequence of string slices.
pub open spec fn str_views(v: Seq<&str>) -> Seq<Seq<char>> {
    v.map_values(|s: &str| s@)
}

/// The view of an optional slice of strings.
pub open spec fn opt_texts(o: Option<&[&str]>) -> Option<Seq<Seq<char>>> {
    match o {
        Some(s) => Some(str_views(s@)),
        None => None,
    }
}

/// The view of an optional slice of numbers.
pub open spec fn opt_numbers(o: Option<&[u16]>) -> Option<Seq<u16>> {
    match o {
        Some(s) => Some(s@),
        None => None,
    }
}

/// Items separated by `", "`, as the `Debug` formatting of a list separates them.
pub open spec fn comma_joined(items: Seq<Seq<char>>) -> Seq<char>
    decreases items.len(),
{
    if items.len() == 0 {
        Seq::empty()
    } else if items.len() == 1 {
        items[0]
    } else {
        comma_joined(items.drop_last()) + ", "@ + items.last()
    }
}

/// Joins rendered items with `", "`.
pub fn join_comma(items: &Vec<String>) -> (s: String)
    ensures
        s@ == comma_joined(items@.map_values(|t: String| t@)),
{
    let ghost all = items@.map_values(|t: String| t@);
    let mut s = String::new();
    let mut i: usize = 0;
    while i < items.len()
        invariant
            i <= items.len(),
            all == items@.map_values(|t: String| t@),
            s@ == comma_joined(all.take(i as int)),
        decreases items.len() - i,
    {
        proof {
            assert(all.take(i + 1).drop_last() =~= all.take(i as int));
            assert(all.take(i + 1).last() == items@[i as int]@);
            if i == 0 {
                assert(all.take(1)[0] == items@[0]@);
            }
        }
        if i > 0 {
            s.append(", ");
        }
        s.append(items[i].as_str());
        i = i + 1;
    }
    assert(all.take(items.len() as int) =~= all);
    s
}

} // verus!

verus! {

/// Whether two strings hold the same characters.
pub fn same_text(a: &str, b: &str) -> (r: bool)
    ensures
        r == (a@ == b@),
{
    let x = String::from_str(a);
    let y = String::from_str(b);
    x == y
}

/// The pieces of `s` between occurrences of `sep`, as `str::split` with a character yields
/// them: one more piece than there are separators, empty pieces included.
pub open spec fn split_on(s: Seq<char>, sep: char) -> Seq<Seq<char>>
    decreases s.len(),
{
    if s.len() == 0 {
        seq![Seq::empty()]
    } else {
        let p = split_on(s.drop_last(), sep);
        if s.last() == sep {
            p.push(Seq::empty())
        } else {
            p.update(p.len() - 1, p.last().push(s.last()))
        }
    }
}

pub proof fn lemma_split_on_nonempty(s: Seq<char>, sep: char)
    ensures
        split_on(s, sep).len() >= 1,
    decreases s.len(),
{
    if s.len() > 0 {
        lemma_split_on_nonempty(s.drop_last(), sep);
    }
}

/// Splits `v[..hi]` at every `sep`, as `str::split` with a character does.
pub fn split_chars(s: &str, v: &Vec<char>, hi: usize, sep: char) -> (fields: Vec<String>)
    requires
        v@ == s@,
        hi <= v.len(),
    ensures
        fields@.map_values(|t: String| t@) == split_on(v@.subrange(0, hi as int), sep),
{
    let mut fields: Vec<String> = Vec::new();
    let mut start: usize = 0;
    let mut i: usize = 0;
    assert(v@.subrange(0, 0) =~= Seq::<char>::empty());
    while i < hi
        invariant
            v@ == s@,
            start <= i <= hi <= v.len(),
            fields@.map_values(|t: String| t@).push(v@.subrange(start as int, i as int))
                =~= split_on(v@.subrange(0, i as int), sep),
        decreases hi - i,
    {
        let ghost before = fields@.map_values(|t: String| t@);
        proof {
            assert(v@.subrange(0, i + 1).drop_last() =~= v@.subrange(0, i as int));
            assert(v@.subrange(0, i + 1).last() == v@[i as int]);
            lemma_split_on_nonempty(v@.subrange(0, i as int), sep);
        }
        if v[i] == sep {
            let piece = String::from_str(s.substring_char(start, i));
            fields.push(piece);
            assert(fields@.map_values(|t: String| t@) =~= before.push(
                v@.subrange(start as int, i as int),
            ));
            start = i + 1;
            assert(v@.subrange(start as int, i + 1) =~= Seq::<char>::empty());
        } else {
            assert(v@.subrange(start as int, i + 1) =~= v@.subrange(start as int, i as int).push(
                v@[i as int],
            ));
        }
        i = i + 1;
    }
    let ghost before = fields@.map_values(|t: String| t@);
    let last = String::from_str(s.substring_char(start, hi));
    fields.push(last);
    assert(fields@.map_values(|t: String| t@) =~= before.push(
        v@.subrange(start as int, hi as int),
    ));
    fields
}

} // verus!

verus! {

/// How an optional exit code shows in `Debug` form.
pub open spec fn code_debug(code: Option<i32>) -> Seq<char> {
    match code {
        Some(c) => "Some("@ + signed_decimal(c as int) + ")"@,
        None => "None"@,
    }
}

pub fn code_debug_text(code: Option<i32>) -> (s: String)
    ensures
        s@ == code_debug(code),
{
    match code {
        Some(c) => {
            let mut s = String::from_str("Some(");
            let n = i64_text(c as i64);
            s.append(n.as_str());
            s.append(")");
            s
        },
        None => String::from_str("None"),
    }
}

/// `bytes` decoded as `String::from_utf8_lossy` decodes them, then trimmed.
pub fn trimmed_lossy(bytes: &[u8]) -> (s: String)
    ensures
        s@ == trim(lossy_utf8(bytes@)),
{
    let text = utf8_lossy(bytes);
    let v = chars_of(text.as_str());
    let (a, b) = trim_bounds(&v);
    String::from_str(text.as_str().substring_char(a, b))
}

/// `c` in lower case if it is an ASCII letter, and unchanged otherwise.
pub open spec fn ascii_lower(c: char) -> char {
    if 65 <= (c as u32) <= 90 {
        ((c as u32) + 32) as char
    } else {
        c
    }
}

/// Whether two texts are equal when ASCII letters are compared regardless of case, as
/// `str::eq_ignore_ascii_case` compares them.
pub open spec fn equal_ignoring_ascii_case(a: Seq<char>, b: Seq<char>) -> bool {
    a.len() == b.len() && forall|i: int| 0 <= i < a.len() ==> ascii_lower(#[trigger] a[i]) == ascii_lower(b[i])
}

fn lower_char(c: char) -> (r: u32)
    ensures
        r == ascii_lower(c) as u32,
{
    let u = c as u32;
    if 65 <= u && u <= 90 {
        assert(((u + 32) as char) as u32 == u + 32);
        u + 32
    } else {
        u
    }
}

pub fn eq_ignore_ascii_case_text(a: &str, b: &str) -> (r: bool)
    ensures
        r == equal_ignoring_ascii_case(a@, b@),
{
    let x = chars_of(a);
    let y = chars_of(b);
    if x.len() != y.len() {
        return false;
    }
    let mut i: usize = 0;
    while i < x.len()
        invariant
            i <= x.len() == y.len(),
            x@ == a@,
            y@ == b@,
            forall|k: int| 0 <= k < i ==> ascii_lower(#[trigger] x@[k]) == ascii_lower(y@[k]),
        decreases x.len() - i,
    {
        let lx = lower_char(x[i]);
        let ly = lower_char(y[i]);
        if lx != ly {
            proof {
                let cx = ascii_lower(x@[i as int]);
                let cy = ascii_lower(y@[i as int]);
                assert(cx as u32 != cy as u32);
            }
            return false;
        }
        proof {
            let cx = ascii_lower(x@[i as int]);
            let cy = ascii_lower(y@[i as int]);
            assert(cx as u32 == cy as u32);
            assert(cx == cy) by {
                assert((cx as u32) as char == cx);
                assert((cy as u32) as char == cy);
            }
        }
        i = i + 1;
    }
    true
}

} // verus!

verus! {

pub proof fn lemma_digit_char(d: nat)
    requires
        d < 10,
    ensures
        is_digit(digit_char(d)),
        digit_value(digit_char(d)) == d,
{
}

/// The decimal representation of a number is a run of digits that denotes the number.
pub proof fn lemma_decimal_digits(n: nat)
    ensures
        decimal(n).len() >= 1,
        all_digits(decimal(n)),
        digits_value(decimal(n)) == n,
    decreases n,
{
    if n < 10 {
        lemma_digit_char(n);
        assert(decimal(n).drop_last() =~= Seq::<char>::empty());
        assert(digits_value(Seq::<char>::empty()) == 0);
        assert(digits_value(decimal(n)) == digits_value(decimal(n).drop_last()) * 10 + digit_value(
            decimal(n).last(),
        ));
    } else {
        lemma_decimal_digits(n / 10);
        lemma_digit_char(n % 10);
        let d = decimal(n);
        assert(d.drop_last() =~= decimal(n / 10));
        assert(d.last() == digit_char(n % 10));
        assert(digits_value(d) == digits_value(decimal(n / 10)) * 10 + digit_value(d.last()));
        assert((n / 10) * 10 + n % 10 == n) by (nonlinear_arith);
        assert forall|i: int| 0 <= i < d.len() implies is_digit(#[trigger] d[i]) by {
            if i < d.len() - 1 {
                assert(d[i] == decimal(n / 10)[i]);
            }
        }
    }
}

} // verus!
