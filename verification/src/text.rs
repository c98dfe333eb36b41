//! Helpers on strings: characters in and out of a `String`, trimming,
//! searching and comparing, and decimal numerals.
use vstd::prelude::*;

verus! {

/// Calls `String::push`, which appends one character to the string.
#[verifier::external_body]
pub(crate) fn push_char(s: &mut String, c: char)
    ensures
        final(s)@ == old(s)@.push(c),
{
    s.push(c);
}

/// Calls `==` of `str`, which holds of two strings with the same characters
/// in the same order.
#[verifier::external_body]
pub(crate) fn same_text(a: &str, b: &str) -> (r: bool)
    ensures
        r == (a@ == b@),
{
    a == b
}

/// The characters of a string, in order.
pub fn chars_of(s: &str) -> (r: Vec<char>)
    ensures
        r@ == s@,
{
    let mut out: Vec<char> = Vec::new();
    for c in it: s.chars()
        invariant
            out@ == it.seq().take(it.index() as int),
    {
        out.push(c);
    }
    out
}

/// The string made of the characters `chars[from..to]`.
pub fn string_of(chars: &Vec<char>, from: usize, to: usize) -> (s: String)
    requires
        from <= to <= chars.len(),
    ensures
        s@ == chars@.subrange(from as int, to as int),
{
    let mut out = String::new();
    let mut i: usize = from;
    while i < to
        invariant
            from <= i <= to <= chars.len(),
            out@ == chars@.subrange(from as int, i as int),
        decreases to - i,
    {
        push_char(&mut out, chars[i]);
        i += 1;
    }
    out
}

/// Whether `c` is white space as Unicode defines it (the property
/// `White_Space`).
pub open spec fn is_white_space(c: char) -> bool {
    let u = c as u32;
    (0x09 <= u && u <= 0x0D) || u == 0x20 || u == 0x85 || u == 0xA0 || u == 0x1680 || (0x2000
        <= u && u <= 0x200A) || u == 0x2028 || u == 0x2029 || u == 0x202F || u == 0x205F || u
        == 0x3000
}

/// Whether `c` is white space as Unicode defines it.
pub fn check_white_space(c: char) -> (r: bool)
    ensures
        r == is_white_space(c),
{
    let u: u32 = c as u32;
    (0x09 <= u && u <= 0x0D) || u == 0x20 || u == 0x85 || u == 0xA0 || u == 0x1680 || (0x2000
        <= u && u <= 0x200A) || u == 0x2028 || u == 0x2029 || u == 0x202F || u == 0x205F || u
        == 0x3000
}

/// The first place from `from` on that holds no white space, or the end.
pub open spec fn skip_space(s: Seq<char>, from: int) -> int
    decreases s.len() - from,
{
    if 0 <= from < s.len() && is_white_space(s[from]) {
        skip_space(s, from + 1)
    } else {
        from
    }
}

/// The place after the last character before `to` that is no white space,
/// and `low` if there is none from `low` on.
pub open spec fn drop_space(s: Seq<char>, to: int, low: int) -> int
    decreases to - low,
{
    if low < to <= s.len() && is_white_space(s[to - 1]) {
        drop_space(s, to - 1, low)
    } else {
        to
    }
}

/// Where the text without the white space around it starts.
pub open spec fn trim_start(s: Seq<char>) -> int {
    skip_space(s, 0)
}

/// Where the text without the white space around it ends.
pub open spec fn trim_end(s: Seq<char>) -> int {
    drop_space(s, s.len() as int, trim_start(s))
}

/// The text without the white space at its start and at its end.
pub open spec fn trimmed(s: Seq<char>) -> Seq<char> {
    s.subrange(trim_start(s), trim_end(s))
}

/// Where the text without the white space around it starts and ends.
pub fn trim_bounds(chars: &Vec<char>) -> (r: (usize, usize))
    ensures
        r.0 == trim_start(chars@),
        r.1 == trim_end(chars@),
        r.0 <= r.1 <= chars.len(),
{
    let mut start: usize = 0;
    while start < chars.len() && check_white_space(chars[start])
        invariant
            start <= chars.len(),
            skip_space(chars@, 0) == skip_space(chars@, start as int),
        decreases chars.len() - start,
    {
        start += 1;
    }
    let mut end: usize = chars.len();
    while end > start && check_white_space(chars[end - 1])
        invariant
            start <= end <= chars.len(),
            drop_space(chars@, chars.len() as int, start as int) == drop_space(
                chars@,
                end as int,
                start as int,
            ),
        decreases end - start,
    {
        end -= 1;
    }
    (start, end)
}

/// Whether `pattern` stands in `s` at the place `at`.
pub open spec fn occurs_at(s: Seq<char>, pattern: Seq<char>, at: int) -> bool {
    0 <= at && at + pattern.len() <= s.len() && s.subrange(at, at + pattern.len()) == pattern
}

/// Whether `pattern` stands somewhere in `s`.
pub open spec fn contains_text(s: Seq<char>, pattern: Seq<char>) -> bool {
    exists|at: int| occurs_at(s, pattern, at)
}

/// Whether `pattern` stands in `chars` at the place `at`.
pub fn check_occurs_at(chars: &Vec<char>, pattern: &Vec<char>, at: usize) -> (r: bool)
    ensures
        r == occurs_at(chars@, pattern@, at as int),
{
    if pattern.len() > chars.len() || at > chars.len() - pattern.len() {
        return false;
    }
    let mut k: usize = 0;
    while k < pattern.len()
        invariant
            k <= pattern.len(),
            at + pattern.len() <= chars.len(),
            forall|j: int| 0 <= j < k ==> chars@[at + j] == pattern@[j],
        decreases pattern.len() - k,
    {
        if chars[at + k] != pattern[k] {
            return false;
        }
        k += 1;
    }
    proof {
        assert(chars@.subrange(at as int, at + pattern.len()) =~= pattern@);
    }
    true
}

/// Whether `pattern` stands somewhere in `chars`.
pub fn check_contains(chars: &Vec<char>, pattern: &Vec<char>) -> (r: bool)
    ensures
        r == contains_text(chars@, pattern@),
{
    if pattern.len() > chars.len() {
        return false;
    }
    let last: usize = chars.len() - pattern.len();
    let mut at: usize = 0;
    while at < last
        invariant
            at <= last,
            last == chars.len() - pattern.len(),
            forall|j: int| 0 <= j < at ==> !occurs_at(chars@, pattern@, j),
        decreases last - at,
    {
        if check_occurs_at(chars, pattern, at) {
            return true;
        }
        at += 1;
    }
    check_occurs_at(chars, pattern, last)
}

/// The lower-case form of an ASCII capital letter; any other character as it
/// is.
pub open spec fn ascii_lower(c: char) -> char {
    if 'A' <= c && c <= 'Z' {
        ((c as u32) + 32) as char
    } else {
        c
    }
}

/// Whether two texts are the same but for the case of ASCII letters.
pub open spec fn same_ignoring_ascii_case(a: Seq<char>, b: Seq<char>) -> bool {
    a.len() == b.len() && forall|k: int| 0 <= k < a.len() ==> ascii_lower(#[trigger] a[k])
        == ascii_lower(b[k])
}

/// Whether `a` and `b` differ at most in the case of an ASCII letter.
fn same_letter(a: char, b: char) -> (r: bool)
    ensures
        r == (ascii_lower(a) == ascii_lower(b)),
{
    let x: u32 = if 'A' <= a && a <= 'Z' {
        (a as u32) + 32
    } else {
        a as u32
    };
    let y: u32 = if 'A' <= b && b <= 'Z' {
        (b as u32) + 32
    } else {
        b as u32
    };
    x == y
}

/// Whether `chars[from..to]` is `other` but for the case of ASCII letters.
pub fn check_same_ignoring_ascii_case(
    chars: &Vec<char>,
    from: usize,
    to: usize,
    other: &Vec<char>,
) -> (r: bool)
    requires
        from <= to <= chars.len(),
    ensures
        r == same_ignoring_ascii_case(chars@.subrange(from as int, to as int), other@),
{
    if to - from != other.len() {
        return false;
    }
    let ghost part = chars@.subrange(from as int, to as int);
    let mut k: usize = 0;
    while k < other.len()
        invariant
            k <= other.len(),
            from <= to <= chars.len(),
            to - from == other.len(),
            part == chars@.subrange(from as int, to as int),
            forall|j: int| 0 <= j < k ==> ascii_lower(#[trigger] part[j]) == ascii_lower(other@[j]),
        decreases other.len() - k,
    {
        if !same_letter(chars[from + k], other[k]) {
            proof {
                assert(part[k as int] == chars@[from + k]);
            }
            return false;
        }
        k += 1;
    }
    true
}

/// Whether `chars[from..to]` is the text `other`.
pub fn check_same(chars: &Vec<char>, from: usize, to: usize, other: &Vec<char>) -> (r: bool)
    requires
        from <= to <= chars.len(),
    ensures
        r == (chars@.subrange(from as int, to as int) == other@),
{
    if to - from != other.len() {
        return false;
    }
    let ghost part = chars@.subrange(from as int, to as int);
    let mut k: usize = 0;
    while k < other.len()
        invariant
            k <= other.len(),
            from <= to <= chars.len(),
            to - from == other.len(),
            part == chars@.subrange(from as int, to as int),
            forall|j: int| 0 <= j < k ==> part[j] == other@[j],
        decreases other.len() - k,
    {
        if chars[from + k] != other[k] {
            return false;
        }
        k += 1;
    }
    proof {
        assert(part =~= other@);
    }
    true
}

/// The character of the decimal digit `d`.
pub open spec fn digit_char(d: nat) -> char {
    (48 + d) as char
}

/// The decimal numeral of `n`, without leading zeros.
pub open spec fn decimal(n: nat) -> Seq<char>
    decreases n,
{
    if n < 10 {
        seq![digit_char(n)]
    } else {
        decimal(n / 10).push(digit_char(n % 10))
    }
}

/// The decimal numeral of `n`, with a minus sign where it is negative.
pub open spec fn decimal_signed(n: int) -> Seq<char> {
    if n < 0 {
        seq!['-'] + decimal((-n) as nat)
    } else {
        decimal(n as nat)
    }
}

/// The character of the decimal digit `d`.
fn digit_to_char(d: u64) -> (c: char)
    requires
        d < 10,
    ensures
        c == digit_char(d as nat),
{
    if d == 0 {
        '0'
    } else if d == 1 {
        '1'
    } else if d == 2 {
        '2'
    } else if d == 3 {
        '3'
    } else if d == 4 {
        '4'
    } else if d == 5 {
        '5'
    } else if d == 6 {
        '6'
    } else if d == 7 {
        '7'
    } else if d == 8 {
        '8'
    } else {
        '9'
    }
}

/// Appends the decimal numeral of `n` to `s`.
pub fn push_decimal(s: &mut String, n: u64)
    ensures
        final(s)@ == old(s)@ + decimal(n as nat),
    decreases n,
{
    if n >= 10 {
        push_decimal(s, n / 10);
    }
    push_char(s, digit_to_char(n % 10));
}

/// Appends the decimal numeral of `n` to `s`, with a minus sign where `n` is
/// negative.
pub fn push_decimal_signed(s: &mut String, n: i64)
    ensures
        final(s)@ == old(s)@ + decimal_signed(n as int),
{
    if n < 0 {
        push_char(s, '-');
        let m: i128 = -(n as i128);
        push_decimal(s, m as u64);
    } else {
        push_decimal(s, n as u64);
    }
}

} // verus!
